//! Capability contracts for transport adapters.
//!
//! Three independent contracts — connection lifecycle, publish, and
//! subscribe — that every transport session model satisfies. Callers
//! program against these contracts, never against transport-specific
//! types. A session model here is the decision core of an adapter: it
//! owns the bookkeeping of live subscriptions and says, for each
//! operation, exactly what the transport shell must do. The shell
//! performs the I/O and feeds transport events back into the model's
//! poll functions.

use vstd::prelude::*;

pub mod client_coap;
pub mod client_mqtt;

pub use client_coap::CoapOptions;
pub use client_coap::CoapSession;
pub use client_coap::ObservationPoll;
pub use client_mqtt::BrokerPoll;
pub use client_mqtt::MqttConnectPlan;
pub use client_mqtt::MqttOptions;
pub use client_mqtt::MqttSession;
pub use client_mqtt::MqttTlsPlan;

verus! {

/// One message delivered through an adapter's inbox stream.
///
/// The topic is omitted where the transport makes it redundant with
/// the subscription itself (the observation-based adapter).
#[derive(Debug, Clone, PartialEq)]
pub struct InboundMessage {
    /// The topic or resource the message arrived on, when known.
    pub topic: Option<String>,
    /// The opaque payload bytes.
    pub payload: Vec<u8>,
}

/// The outcome of polling an adapter's inbox once.
#[derive(Debug, Clone, PartialEq)]
pub enum InboxPoll {
    /// A message is ready.
    Item(InboundMessage),
    /// The underlying session signalled end-of-stream.
    Closed,
    /// Nothing is ready yet; the caller must stay registered for a
    /// wake-up and try again later.
    NotReady,
}

/// What the transport shell must do to honour a `subscribe` call.
#[derive(Debug, Clone, PartialEq)]
pub enum SubscribeAction {
    /// Register the topic with the message broker at the given
    /// quality-of-service level.
    Broker { topic: String, qos: u8 },
    /// Open a long-lived observation of the resource.
    Observe { topic: String },
}

/// What the transport shell must do to honour an `unsubscribe` call.
#[derive(Debug, Clone, PartialEq)]
pub enum UnsubscribeAction {
    /// Ask the broker to drop the subscription.
    Broker { topic: String },
    /// Cancel every live observation of this topic; each one needs its
    /// own deregistration exchange. `count` says how many there are.
    CancelObservations { topic: String, count: usize },
}

/// How a payload handed to `publish` leaves the adapter.
#[derive(Debug, Clone, PartialEq)]
pub enum DeliveryMode {
    /// Broadcast through the broker at the given quality-of-service
    /// level: every subscriber of the topic receives it.
    FanOut { qos: u8 },
    /// A point-to-point write request against the resource path, not
    /// a fan-out.
    ResourceWrite,
}

/// What the transport shell must send to honour a `publish` call.
#[derive(Debug, Clone, PartialEq)]
pub struct PublishAction {
    /// The topic or resource path written to.
    pub topic: String,
    /// The payload bytes, exactly as the caller handed them over.
    pub payload: Vec<u8>,
    /// The transport's delivery semantics for this write.
    pub mode: DeliveryMode,
}

/// Failures of `unsubscribe` that the session model itself detects.
#[derive(Debug, Clone, Copy, PartialEq, Eq, Structural)]
pub enum UnsubscribeError {
    /// No live subscription carries the requested topic.
    NotSubscribed,
}

impl UnsubscribeError {
    /// A human-readable description of the failure.
    pub fn message(&self) -> (r: String)
        ensures
            r@ == "not subscribed to this topic"@,
    {
        "not subscribed to this topic".to_owned()
    }
}

/// `s` with every occurrence of topic `t` removed, order preserved.
pub open spec fn remove_topic(s: Seq<Seq<char>>, t: Seq<char>) -> Seq<Seq<char>>
    decreases s.len(),
{
    if s.len() == 0 {
        Seq::empty()
    } else if s[0] == t {
        remove_topic(s.drop_first(), t)
    } else {
        seq![s[0]] + remove_topic(s.drop_first(), t)
    }
}

/// Removing a topic from a sequence extended at the end removes it
/// from the prefix and keeps or drops the last element by itself.
pub proof fn lemma_remove_topic_push(s: Seq<Seq<char>>, x: Seq<char>, t: Seq<char>)
    ensures
        remove_topic(s.push(x), t) == if x == t {
            remove_topic(s, t)
        } else {
            remove_topic(s, t).push(x)
        },
    decreases s.len(),
{
    let sx = s.push(x);
    if s.len() == 0 {
        assert(sx[0] == x);
        assert(sx.drop_first() =~= Seq::<Seq<char>>::empty());
        if x != t {
            assert(seq![x] + remove_topic(Seq::empty(), t) =~= remove_topic(s, t).push(x));
        }
    } else {
        assert(sx[0] == s[0]);
        assert(sx.drop_first() =~= s.drop_first().push(x));
        lemma_remove_topic_push(s.drop_first(), x, t);
        if s[0] == t {
        } else {
            if x != t {
                assert(seq![s[0]] + remove_topic(s.drop_first(), t).push(x) =~= (seq![s[0]]
                    + remove_topic(s.drop_first(), t)).push(x));
            }
        }
    }
}

/// After removal, the removed topic occurs nowhere.
pub proof fn lemma_remove_topic_absent(s: Seq<Seq<char>>, t: Seq<char>)
    ensures
        !remove_topic(s, t).contains(t),
    decreases s.len(),
{
    if s.len() == 0 {
    } else {
        lemma_remove_topic_absent(s.drop_first(), t);
        if s[0] != t {
            let r = seq![s[0]] + remove_topic(s.drop_first(), t);
            assert forall|i: int| 0 <= i < r.len() implies r[i] != t by {
                if i > 0 {
                    assert(r[i] == remove_topic(s.drop_first(), t)[i - 1]);
                    assert(remove_topic(s.drop_first(), t).contains(r[i]) == false ==> true);
                    if r[i] == t {
                        assert(remove_topic(s.drop_first(), t).contains(t));
                    }
                }
            }
        }
    }
}

/// Topics that were never present are untouched by removal.
pub proof fn lemma_remove_topic_noop(s: Seq<Seq<char>>, t: Seq<char>)
    requires
        !s.contains(t),
    ensures
        remove_topic(s, t) == s,
    decreases s.len(),
{
    if s.len() == 0 {
        assert(remove_topic(s, t) =~= s);
    } else {
        assert(s[0] != t);
        assert(s.drop_first().contains(t) ==> s.contains(t)) by {
            if s.drop_first().contains(t) {
                let i = choose|i: int| 0 <= i < s.drop_first().len() && s.drop_first()[i] == t;
                assert(s[i + 1] == t);
            }
        }
        lemma_remove_topic_noop(s.drop_first(), t);
        assert(seq![s[0]] + s.drop_first() =~= s);
    }
}

/// Connection lifecycle capability: a session model that owns live
/// subscriptions and can be torn down.
pub trait ClientBase: Sized {
    /// The topics of the live subscriptions or observations, in
    /// creation order.
    spec fn live_topics(&self) -> Seq<Seq<char>>;

    /// Tear down the session. Afterwards nothing is live. The
    /// returned topics are the subscriptions the transport shell must
    /// release explicitly, one by one and in creation order; the list
    /// is empty where session teardown releases them implicitly.
    fn disconnect(&mut self) -> (r: Vec<String>)
        ensures
            final(self).live_topics().len() == 0,
    ;
}

/// Publish capability: turn a caller's topic and payload into the one
/// write the transport shell must perform.
pub trait ClientPub {
    /// Frame a publication. The action carries the topic and payload
    /// unchanged; the adapter fixes the delivery mode.
    fn publish(&mut self, topic: &str, data: &[u8]) -> (r: PublishAction)
        ensures
            r.topic@ == topic@,
            r.payload@ == data@,
    ;
}

/// Subscribe capability: register and release interest in topics.
/// Every subscribable session also exposes a poll-based inbox that
/// delivers matching messages; polling never blocks and reports
/// not-ready when nothing has arrived.
pub trait ClientSub: ClientBase {
    /// Register interest in a topic and say what the shell must do to
    /// open the transport-native subscription. Afterwards the topic is
    /// live. Whether a duplicate subscribe stacks a second delivery or
    /// re-registers the same one is transport-defined; each adapter
    /// documents its choice.
    fn subscribe(&mut self, topic: &str) -> (r: SubscribeAction)
        ensures
            final(self).live_topics().contains(topic@),
    ;

    /// Release interest in a topic. On success the topic is no longer
    /// live and the shell must release the transport-native handles
    /// the action names. On failure nothing changed.
    fn unsubscribe(&mut self, topic: &str) -> (r: Result<UnsubscribeAction, UnsubscribeError>)
        ensures
            r is Ok ==> !final(self).live_topics().contains(topic@),
            r is Err ==> *final(self) == *old(self),
    ;
}

} // verus!
