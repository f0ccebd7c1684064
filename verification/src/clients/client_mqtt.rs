//! Session model for the message-queue (broker-based) adapter.
//!
//! The transport keeps a persistent session to a message broker. The
//! model decides, before any network activity, the whole connect
//! configuration — endpoint, client identity, clean-session flag and
//! TLS material — and rejects mismatched certificate/key pairs with a
//! `ConfigError`. Subscriptions map to broker subscribe/unsubscribe at
//! a fixed minimal quality-of-service level, and the inbox forwards
//! what the broker's delivery channel hands over, byte for byte.

use vstd::prelude::*;

use crate::ConfigError;
use crate::TlsOptions;
use crate::clients::ClientBase;
use crate::clients::ClientPub;
use crate::clients::ClientSub;
use crate::clients::DeliveryMode;
use crate::clients::InboundMessage;
use crate::clients::InboxPoll;
use crate::clients::PublishAction;
use crate::clients::SubscribeAction;
use crate::clients::UnsubscribeAction;
use crate::clients::UnsubscribeError;
use crate::clients::lemma_remove_topic_absent;
use crate::clients::lemma_remove_topic_push;
use crate::clients::remove_topic;

verus! {

/// Connection options for the message-queue transport.
#[derive(Debug, Clone, PartialEq)]
pub struct MqttOptions {
    /// URL of the broker; the scheme says whether the connection is
    /// plain or TLS-wrapped.
    pub mqtt_url: String,
    /// Client ID for the broker session, when the caller wants a
    /// fixed one.
    pub mqtt_id: Option<String>,
    /// TLS material for secured connections.
    pub tls_opts: TlsOptions,
}

impl From<&str> for MqttOptions {
    /// A bare endpoint string stands for "defaults for everything
    /// else": no client ID, no TLS material.
    fn from(url: &str) -> (r: Self)
        ensures
            r.mqtt_url@ == url@,
            r.mqtt_id is None,
            r.tls_opts.tls_ca_file is None,
            r.tls_opts.tls_cert_file is None,
            r.tls_opts.tls_key_file is None,
    {
        MqttOptions { mqtt_url: url.to_owned(), mqtt_id: None, tls_opts: Default::default() }
    }
}

impl vstd::std_specs::convert::FromSpecImpl<&str> for MqttOptions {
    open spec fn obeys_from_spec() -> bool {
        false
    }

    open spec fn from_spec(v: &str) -> Self {
        vstd::pervasive::arbitrary()
    }
}

/// The TLS material the broker client must be configured with.
#[derive(Debug, Clone, PartialEq)]
pub struct MqttTlsPlan {
    /// PEM file holding the trusted certificate authority, if any.
    pub trust_store: Option<String>,
    /// PEM file holding the client certificate, if any.
    pub key_store: Option<String>,
    /// PEM file holding the client private key, if any.
    pub private_key: Option<String>,
}

/// Everything the transport shell needs to open the broker session.
#[derive(Debug, Clone, PartialEq)]
pub struct MqttConnectPlan {
    /// The broker endpoint, handed through unchanged.
    pub server_uri: String,
    /// The client ID, when the caller fixed one.
    pub client_id: Option<String>,
    /// The session starts clean: no state from earlier sessions.
    pub clean_session: bool,
    /// TLS material, present exactly when the options carried any.
    pub tls: Option<MqttTlsPlan>,
}

impl MqttOptions {
    /// Decide the whole connect configuration, before any network
    /// activity. Fails exactly when the client certificate and key are
    /// not supplied as a pair; a lone half names its missing
    /// counterpart. On success the plan carries the endpoint and
    /// client ID unchanged, asks for a clean session, and holds TLS
    /// material exactly when the options configured any.
    pub fn connect_plan(&self) -> (r: Result<MqttConnectPlan, ConfigError>)
        ensures
            r is Ok <==> self.tls_opts.cert_key_paired(),
            self.tls_opts.tls_cert_file is Some && self.tls_opts.tls_key_file is None ==> r
                == Err::<MqttConnectPlan, ConfigError>(ConfigError::CertWithoutKey),
            self.tls_opts.tls_key_file is Some && self.tls_opts.tls_cert_file is None ==> r
                == Err::<MqttConnectPlan, ConfigError>(ConfigError::KeyWithoutCert),
            r is Ok ==> {
                let p = r->Ok_0;
                &&& p.server_uri@ == self.mqtt_url@
                &&& p.client_id.deep_view() == self.mqtt_id.deep_view()
                &&& p.clean_session == true
                &&& (self.tls_opts.tls_ca_file is None && self.tls_opts.tls_cert_file is None
                    ==> p.tls is None)
                &&& (self.tls_opts.tls_ca_file is Some || self.tls_opts.tls_cert_file is Some)
                    ==> (p.tls matches Some(tp)
                        && tp.trust_store.deep_view() == self.tls_opts.tls_ca_file.deep_view()
                        && tp.key_store.deep_view() == self.tls_opts.tls_cert_file.deep_view()
                        && tp.private_key.deep_view() == self.tls_opts.tls_key_file.deep_view())
            },
    {
        match (&self.tls_opts.tls_cert_file, &self.tls_opts.tls_key_file) {
            (Some(_), None) => {
                return Err(ConfigError::CertWithoutKey);
            },
            (None, Some(_)) => {
                return Err(ConfigError::KeyWithoutCert);
            },
            _ => {},
        }
        let tls: Option<MqttTlsPlan> = if self.tls_opts.tls_ca_file.is_some()
            || self.tls_opts.tls_cert_file.is_some() {
            Some(
                MqttTlsPlan {
                    trust_store: crate::clone_opt_string(&self.tls_opts.tls_ca_file),
                    key_store: crate::clone_opt_string(&self.tls_opts.tls_cert_file),
                    private_key: crate::clone_opt_string(&self.tls_opts.tls_key_file),
                },
            )
        } else {
            None
        };
        Ok(
            MqttConnectPlan {
                server_uri: self.mqtt_url.as_str().to_owned(),
                client_id: crate::clone_opt_string(&self.mqtt_id),
                clean_session: true,
                tls,
            },
        )
    }
}

/// What the broker's delivery channel answered to one poll.
#[derive(Debug, Clone, PartialEq)]
pub enum BrokerPoll {
    /// A message arrived on a subscribed topic.
    Delivery { topic: String, payload: Vec<u8> },
    /// The channel marked a break in the session (the broker client
    /// signals a lost connection this way).
    Disconnected,
    /// The delivery channel itself is exhausted.
    Closed,
    /// Nothing ready yet.
    NotReady,
}

/// What the inbox yields for one answer of the broker's delivery
/// channel: deliveries pass through byte for byte under their exact
/// topic, and both a session break and an exhausted channel end the
/// stream.
pub open spec fn inbox_of(ev: BrokerPoll) -> InboxPoll {
    match ev {
        BrokerPoll::Delivery { topic, payload } => InboxPoll::Item(
            InboundMessage { topic: Some(topic), payload },
        ),
        BrokerPoll::Disconnected => InboxPoll::Closed,
        BrokerPoll::Closed => InboxPoll::Closed,
        BrokerPoll::NotReady => InboxPoll::NotReady,
    }
}

/// Session model for the message-queue adapter.
///
/// Owns the topics of the live broker subscriptions, in creation
/// order. The transport shell holds the broker client and performs
/// the calls the model's actions ask for.
#[derive(Debug, Clone, PartialEq)]
pub struct MqttSession {
    topics: Vec<String>,
}

impl MqttSession {
    /// The topics of the live broker subscriptions, in creation order.
    pub closed spec fn subscribed(&self) -> Seq<Seq<char>> {
        self.topics.deep_view()
    }

    /// A fresh session holds no subscriptions yet.
    pub fn new() -> (r: Self)
        ensures
            r.subscribed().len() == 0,
    {
        MqttSession { topics: Vec::new() }
    }

    /// Decide what the inbox yields for one answer of the broker's
    /// delivery channel.
    pub fn next_inbox(&self, ev: BrokerPoll) -> (r: InboxPoll)
        ensures
            r == inbox_of(ev),
    {
        match ev {
            BrokerPoll::Delivery { topic, payload } => InboxPoll::Item(
                InboundMessage { topic: Some(topic), payload },
            ),
            BrokerPoll::Disconnected => InboxPoll::Closed,
            BrokerPoll::Closed => InboxPoll::Closed,
            BrokerPoll::NotReady => InboxPoll::NotReady,
        }
    }

    /// Whether a topic is currently subscribed.
    fn holds_topic(&self, topic: &str) -> (r: bool)
        ensures
            r == self.subscribed().contains(topic@),
    {
        let n = self.topics.len();
        let mut i: usize = 0;
        while i < n
            invariant
                0 <= i <= n,
                n == self.topics@.len(),
                forall|j: int| 0 <= j < i ==> self.subscribed()[j] != topic@,
            decreases n - i,
        {
            if crate::str_eq(self.topics[i].as_str(), topic) {
                assert(self.subscribed()[i as int] == topic@);
                return true;
            }
            i = i + 1;
        }
        false
    }
}

/// A message-queue round trip at the adapter boundary: every delivery
/// the broker's channel hands over surfaces in the inbox as exactly
/// that topic and payload, one for one and in channel order. Together
/// with `publish`, which passes the caller's topic and bytes to the
/// broker unchanged, a message published by one session and routed by
/// the broker to a subscribed session arrives byte-exact under the
/// right topic, and deliveries from a single publisher arrive in its
/// publish order.
pub proof fn lemma_mqtt_delivery_order(evs: Seq<BrokerPoll>)
    requires
        forall|i: int| 0 <= i < evs.len() ==> evs[i] is Delivery,
    ensures
        forall|i: int|
            0 <= i < evs.len() ==> inbox_of(evs[i]) == InboxPoll::Item(
                InboundMessage {
                    topic: Some(evs[i]->Delivery_topic),
                    payload: evs[i]->Delivery_payload,
                },
            ),
{
}

impl ClientBase for MqttSession {
    open spec fn live_topics(&self) -> Seq<Seq<char>> {
        self.subscribed()
    }

    /// Tear down the session. Broker session teardown drops every
    /// subscription implicitly, so nothing is named for explicit
    /// release: the shell only issues the broker-level disconnect.
    fn disconnect(&mut self) -> (r: Vec<String>)
        ensures
            r@.len() == 0,
    {
        self.topics.clear();
        Vec::new()
    }
}

impl ClientSub for MqttSession {
    /// Register the topic with the broker at quality-of-service 0
    /// (at-most-once). A duplicate subscribe re-registers the same
    /// subscription: the broker keeps one delivery per topic, and the
    /// model keeps one entry.
    fn subscribe(&mut self, topic: &str) -> (r: SubscribeAction)
        ensures
            old(self).subscribed().contains(topic@) ==> *final(self) == *old(self),
            !old(self).subscribed().contains(topic@) ==> final(self).subscribed() == old(
                self,
            ).subscribed().push(topic@),
            r matches SubscribeAction::Broker { topic: rt, qos } && rt@ == topic@ && qos == 0,
    {
        if !self.holds_topic(topic) {
            self.topics.push(topic.to_owned());
            proof {
                assert(final(self).subscribed() =~= old(self).subscribed().push(topic@));
                assert(final(self).subscribed()[old(self).subscribed().len() as int] == topic@);
            }
        }
        SubscribeAction::Broker { topic: topic.to_owned(), qos: 0 }
    }

    /// Ask the broker to drop the subscription. The broker treats an
    /// unsubscribe for an unknown topic as a no-op, so this never
    /// fails: the topic is simply no longer live afterwards.
    fn unsubscribe(&mut self, topic: &str) -> (r: Result<
        UnsubscribeAction,
        UnsubscribeError,
    >)
        ensures
            r is Ok,
            final(self).subscribed() == remove_topic(old(self).subscribed(), topic@),
            !old(self).subscribed().contains(topic@) ==> final(self).subscribed() == old(
                self,
            ).subscribed(),
            r->Ok_0 matches UnsubscribeAction::Broker { topic: rt } && rt@ == topic@,
    {
        proof {
            if !old(self).subscribed().contains(topic@) {
                crate::clients::lemma_remove_topic_noop(old(self).subscribed(), topic@);
            }
        }
        let ghost orig = self.subscribed();
        let ghost t = topic@;
        let n = self.topics.len();
        let mut kept: Vec<String> = Vec::new();
        let mut i: usize = 0;
        while i < n
            invariant
                0 <= i <= n,
                n == self.topics@.len(),
                self.subscribed() == orig,
                orig == self.topics.deep_view(),
                t == topic@,
                kept.deep_view() == remove_topic(orig.take(i as int), t),
            decreases n - i,
        {
            proof {
                lemma_remove_topic_push(orig.take(i as int), orig[i as int], t);
                assert(orig.take(i + 1) =~= orig.take(i as int).push(orig[i as int]));
            }
            if !crate::str_eq(self.topics[i].as_str(), topic) {
                kept.push(self.topics[i].as_str().to_owned());
                proof {
                    assert(kept.deep_view() =~= remove_topic(orig.take(i as int), t).push(
                        orig[i as int],
                    ));
                }
            }
            i = i + 1;
        }
        proof {
            assert(orig.take(n as int) =~= orig);
        }
        self.topics = kept;
        proof {
            lemma_remove_topic_absent(orig, t);
        }
        Ok(UnsubscribeAction::Broker { topic: topic.to_owned() })
    }
}

impl ClientPub for MqttSession {
    /// Publishing is a broker fan-out at quality-of-service 0
    /// (at-most-once), with the caller's topic and bytes unchanged.
    fn publish(&mut self, topic: &str, data: &[u8]) -> (r: PublishAction)
        ensures
            r.mode == (DeliveryMode::FanOut { qos: 0 }),
            *final(self) == *old(self),
    {
        PublishAction {
            topic: topic.to_owned(),
            payload: vstd::slice::slice_to_vec(data),
            mode: DeliveryMode::FanOut { qos: 0 },
        }
    }
}

} // verus!
