//! Session model for the constrained-device (observe-based) adapter.
//!
//! The transport wraps a request/observe exchange over an unreliable
//! datagram socket. "Subscribe" opens a long-lived observation of a
//! resource; the server pushes updates as the observed state changes.
//! The transport does not release observations on teardown by itself,
//! so `disconnect` names every live observation for explicit
//! cancellation. The inbox multiplexes all live observations into one
//! stream by scanning them in creation order on every wake-up.

use vstd::prelude::*;

use crate::ConfigError;
use crate::TlsOptions;
use crate::clients::ClientBase;
use crate::clients::ClientPub;
use crate::clients::ClientSub;
use crate::clients::DeliveryMode;
use crate::clients::InboundMessage;
use crate::clients::InboxPoll;
use crate::clients::PublishAction;
use crate::clients::SubscribeAction;
use crate::clients::UnsubscribeAction;
use crate::clients::UnsubscribeError;
use crate::clients::lemma_remove_topic_absent;
use crate::clients::lemma_remove_topic_push;
use crate::clients::remove_topic;

verus! {

/// Connection options for the constrained-device transport.
#[derive(Debug, Clone, PartialEq)]
pub struct CoapOptions {
    /// URL identifying the server's host and port.
    pub coap_url: String,
    /// TLS material for secured transports.
    pub tls_opts: TlsOptions,
}

impl From<&str> for CoapOptions {
    /// A bare endpoint string stands for "defaults for everything
    /// else": no TLS material.
    fn from(url: &str) -> (r: Self)
        ensures
            r.coap_url@ == url@,
            r.tls_opts.tls_ca_file is None,
            r.tls_opts.tls_cert_file is None,
            r.tls_opts.tls_key_file is None,
    {
        CoapOptions { coap_url: url.to_owned(), tls_opts: Default::default() }
    }
}

impl vstd::std_specs::convert::FromSpecImpl<&str> for CoapOptions {
    open spec fn obeys_from_spec() -> bool {
        false
    }

    open spec fn from_spec(v: &str) -> Self {
        vstd::pervasive::arbitrary()
    }
}

/// The outcome of polling one live observation once.
#[derive(Debug, Clone, PartialEq)]
pub enum ObservationPoll {
    /// The observation produced a fresh payload.
    Payload(Vec<u8>),
    /// The observation signalled its own end-of-stream.
    Ended,
    /// Nothing ready from this observation.
    NotReady,
}

/// The position of the first poll outcome that decides the scan: the
/// first entry that is not `NotReady`, or `polls.len()` if every entry
/// is still pending.
pub open spec fn first_decided(polls: Seq<ObservationPoll>) -> int
    decreases polls.len(),
{
    if polls.len() == 0 {
        0
    } else if !(polls[0] is NotReady) {
        0
    } else {
        1 + first_decided(polls.drop_first())
    }
}

/// The deciding position stays within the sequence, and everything
/// before it is still pending.
pub proof fn lemma_first_decided_bounds(polls: Seq<ObservationPoll>)
    ensures
        0 <= first_decided(polls) <= polls.len(),
        forall|j: int| 0 <= j < first_decided(polls) ==> polls[j] is NotReady,
    decreases polls.len(),
{
    if polls.len() == 0 {
    } else if polls[0] is NotReady {
        lemma_first_decided_bounds(polls.drop_first());
        assert forall|j: int| 0 <= j < first_decided(polls) implies polls[j] is NotReady by {
            if j > 0 {
                assert(polls.drop_first()[j - 1] == polls[j]);
            }
        }
    }
}

/// Session model for the constrained-device adapter.
///
/// Owns the topics of the live observations, in creation order. The
/// transport shell keeps the matching transport-native observation
/// handles and performs the exchanges this model asks for.
#[derive(Debug, Clone, PartialEq)]
pub struct CoapSession {
    observations: Vec<String>,
}

impl CoapSession {
    /// The topics of the live observations, in creation order.
    pub closed spec fn observed(&self) -> Seq<Seq<char>> {
        self.observations.deep_view()
    }

    /// A fresh session holds no observations yet.
    pub fn new() -> (r: Self)
        ensures
            r.observed().len() == 0,
    {
        CoapSession { observations: Vec::new() }
    }

    /// How many observations are live.
    pub fn observation_count(&self) -> (r: usize)
        ensures
            r == self.observed().len(),
    {
        self.observations.len()
    }

    /// Scan the poll outcomes of the live observations, one per
    /// observation in creation order, and decide what the inbox
    /// yields. The first observation with something to say decides:
    /// a payload is delivered (the topic is omitted: it is redundant
    /// with the subscription), and one ended observation closes the
    /// whole multiplexed stream. When every observation is pending,
    /// the caller stays registered for a wake-up and nothing blocks.
    pub fn next_inbox(&self, polls: &Vec<ObservationPoll>) -> (r: InboxPoll)
        requires
            polls@.len() == self.observed().len(),
        ensures
            first_decided(polls@) == polls@.len() ==> r is NotReady,
            first_decided(polls@) < polls@.len() && polls@[first_decided(polls@)] is Ended ==> r
                is Closed,
            (first_decided(polls@) < polls@.len() && polls@[first_decided(polls@)] is Payload)
                ==> (r matches InboxPoll::Item(m) && m.topic is None && m.payload@ == polls@[
                first_decided(polls@)
            ]->Payload_0@),
    {
        let n = polls.len();
        let mut i: usize = 0;
        proof {
            lemma_first_decided_bounds(polls@);
        }
        while i < n
            invariant
                0 <= i <= n,
                n == polls@.len(),
                first_decided(polls@) >= i,
                forall|j: int| 0 <= j < i ==> polls@[j] is NotReady,
            decreases n - i,
        {
            proof {
                lemma_first_decided_bounds(polls@);
            }
            match &polls[i] {
                ObservationPoll::Payload(p) => {
                    proof {
                        lemma_first_decided_step(polls@, i as int);
                    }
                    let payload = clone_bytes(p);
                    return InboxPoll::Item(InboundMessage { topic: None, payload });
                },
                ObservationPoll::Ended => {
                    proof {
                        lemma_first_decided_step(polls@, i as int);
                    }
                    return InboxPoll::Closed;
                },
                ObservationPoll::NotReady => {
                    proof {
                        lemma_first_decided_step(polls@, i as int);
                    }
                },
            }
            i = i + 1;
        }
        proof {
            lemma_first_decided_bounds(polls@);
        }
        InboxPoll::NotReady
    }
}

/// When the first `i` entries are pending, the deciding position is
/// `i` exactly when entry `i` has something to say, and lies beyond
/// `i` otherwise.
proof fn lemma_first_decided_step(polls: Seq<ObservationPoll>, i: int)
    requires
        0 <= i < polls.len(),
        forall|j: int| 0 <= j < i ==> polls[j] is NotReady,
    ensures
        !(polls[i] is NotReady) ==> first_decided(polls) == i,
        polls[i] is NotReady ==> first_decided(polls) > i,
    decreases i,
{
    if i == 0 {
        if polls[0] is NotReady {
            lemma_first_decided_bounds(polls.drop_first());
        }
    } else {
        assert(polls[0] is NotReady);
        assert forall|j: int| 0 <= j < i - 1 implies polls.drop_first()[j] is NotReady by {
            assert(polls.drop_first()[j] == polls[j + 1]);
        }
        assert(polls.drop_first()[i - 1] == polls[i]);
        lemma_first_decided_step(polls.drop_first(), i - 1);
    }
}

/// Copy a payload buffer.
fn clone_bytes(b: &Vec<u8>) -> (r: Vec<u8>)
    ensures
        r@ == b@,
{
    let mut r: Vec<u8> = Vec::new();
    let n = b.len();
    let mut i: usize = 0;
    while i < n
        invariant
            0 <= i <= n,
            n == b@.len(),
            r@ == b@.take(i as int),
        decreases n - i,
    {
        r.push(b[i]);
        proof {
            assert(r@ =~= b@.take(i + 1));
        }
        i = i + 1;
    }
    proof {
        assert(b@.take(n as int) =~= b@);
    }
    r
}

impl ClientBase for CoapSession {
    open spec fn live_topics(&self) -> Seq<Seq<char>> {
        self.observed()
    }

    /// Tear down the session. The transport needs an explicit
    /// deregistration exchange per observation, so every live topic is
    /// returned, in creation order, for the shell to cancel before it
    /// closes the socket.
    fn disconnect(&mut self) -> (r: Vec<String>)
        ensures
            r.deep_view() == old(self).observed(),
    {
        let r = self.observations.split_off(0);
        proof {
            assert(self.observations@ =~= Seq::<String>::empty());
            assert(r.deep_view() =~= old(self).observed());
        }
        r
    }
}

impl ClientSub for CoapSession {
    /// Open one more observation of the topic. A duplicate subscribe
    /// opens a second, independent observation: each delivers on its
    /// own.
    fn subscribe(&mut self, topic: &str) -> (r: SubscribeAction)
        ensures
            final(self).observed() == old(self).observed().push(topic@),
            r matches SubscribeAction::Observe { topic: rt } && rt@ == topic@,
    {
        self.observations.push(topic.to_owned());
        proof {
            assert(final(self).observed() =~= old(self).observed().push(topic@));
            assert(final(self).observed()[old(self).observed().len() as int] == topic@);
        }
        SubscribeAction::Observe { topic: topic.to_owned() }
    }

    /// Release every observation of the topic; each one needs its own
    /// deregistration exchange, counted in the action. Asking for a
    /// topic that is not observed is a well-defined error and changes
    /// nothing.
    fn unsubscribe(&mut self, topic: &str) -> (r: Result<
        UnsubscribeAction,
        UnsubscribeError,
    >)
        ensures
            r is Ok <==> old(self).observed().contains(topic@),
            r is Err ==> r == Err::<UnsubscribeAction, UnsubscribeError>(
                UnsubscribeError::NotSubscribed,
            ),
            r is Ok ==> final(self).observed() == remove_topic(old(self).observed(), topic@),
            r is Ok ==> (r->Ok_0 matches UnsubscribeAction::CancelObservations {
                topic: rt,
                count,
            } && rt@ == topic@ && count as int == old(self).observed().len() - final(self).observed().len()),
    {
        let ghost orig = self.observed();
        let ghost t = topic@;
        let n = self.observations.len();
        let mut kept: Vec<String> = Vec::new();
        let mut found = false;
        let mut i: usize = 0;
        while i < n
            invariant
                0 <= i <= n,
                n == self.observations@.len(),
                self.observed() == orig,
                orig == self.observations.deep_view(),
                t == topic@,
                kept.deep_view() == remove_topic(orig.take(i as int), t),
                kept@.len() <= i,
                found <==> exists|j: int| 0 <= j < i && orig[j] == t,
            decreases n - i,
        {
            proof {
                lemma_remove_topic_push(orig.take(i as int), orig[i as int], t);
                assert(orig.take(i + 1) =~= orig.take(i as int).push(orig[i as int]));
            }
            if crate::str_eq(self.observations[i].as_str(), topic) {
                found = true;
                assert(orig[i as int] == t);
            } else {
                kept.push(self.observations[i].as_str().to_owned());
                proof {
                    assert(kept.deep_view() =~= remove_topic(orig.take(i as int), t).push(
                        orig[i as int],
                    ));
                }
            }
            i = i + 1;
        }
        proof {
            assert(orig.take(n as int) =~= orig);
        }
        if !found {
            return Err(UnsubscribeError::NotSubscribed);
        }
        let removed = n - kept.len();
        self.observations = kept;
        proof {
            lemma_remove_topic_absent(orig, t);
        }
        Ok(UnsubscribeAction::CancelObservations { topic: topic.to_owned(), count: removed })
    }
}

impl ClientPub for CoapSession {
    /// Publishing on this transport is a point-to-point write request
    /// against the resource path, not a fan-out: only the resource's
    /// server sees it. Delivery to observers is the server's business.
    fn publish(&mut self, topic: &str, data: &[u8]) -> (r: PublishAction)
        ensures
            r.mode == DeliveryMode::ResourceWrite,
            *final(self) == *old(self),
    {
        PublishAction {
            topic: topic.to_owned(),
            payload: vstd::slice::slice_to_vec(data),
            mode: DeliveryMode::ResourceWrite,
        }
    }
}

/// No message for an unsubscribed topic is delivered afterwards: once
/// an unsubscribe for `topic` has succeeded, every remaining
/// observation — in particular the one whose poll outcome decides the
/// next delivery — watches a different topic.
pub proof fn lemma_unsubscribe_stops_delivery(
    before: Seq<Seq<char>>,
    topic: Seq<char>,
    polls: Seq<ObservationPoll>,
)
    requires
        polls.len() == remove_topic(before, topic).len(),
        first_decided(polls) < polls.len(),
    ensures
        remove_topic(before, topic)[first_decided(polls)] != topic,
{
    lemma_first_decided_bounds(polls);
    lemma_remove_topic_absent(before, topic);
    let rem = remove_topic(before, topic);
    if rem[first_decided(polls)] == topic {
        assert(rem.contains(topic));
    }
}

} // verus!
