use iot_core::ConfigError;
use iot_core::TlsOptions;
use iot_core::clients::BrokerPoll;
use iot_core::clients::ClientBase;
use iot_core::clients::ClientPub;
use iot_core::clients::ClientSub;
use iot_core::clients::CoapOptions;
use iot_core::clients::CoapSession;
use iot_core::clients::DeliveryMode;
use iot_core::clients::InboxPoll;
use iot_core::clients::MqttOptions;
use iot_core::clients::MqttSession;
use iot_core::clients::ObservationPoll;
use iot_core::clients::SubscribeAction;
use iot_core::clients::UnsubscribeAction;
use iot_core::clients::UnsubscribeError;

#[test]
fn mqtt_options_from_bare_endpoint() {
    let o: MqttOptions = "tcp://localhost:1883".into();
    assert_eq!(o.mqtt_url, "tcp://localhost:1883");
    assert_eq!(o.mqtt_id, None);
    assert_eq!(o.tls_opts, TlsOptions::default());
}

#[test]
fn coap_options_from_bare_endpoint() {
    let o: CoapOptions = "coap://localhost:5683".into();
    assert_eq!(o.coap_url, "coap://localhost:5683");
    assert_eq!(o.tls_opts, TlsOptions::default());
}

#[test]
fn mqtt_plan_without_tls() {
    let o: MqttOptions = "tcp://localhost:1883".into();
    let p = o.connect_plan().unwrap();
    assert_eq!(p.server_uri, "tcp://localhost:1883");
    assert_eq!(p.client_id, None);
    assert!(p.clean_session);
    assert!(p.tls.is_none());
}

#[test]
fn mqtt_plan_rejects_cert_without_key() {
    // A configured client certificate without its key fails before
    // any connection attempt.
    let o = MqttOptions {
        mqtt_url: "ssl://localhost:8883".to_string(),
        mqtt_id: None,
        tls_opts: TlsOptions {
            tls_ca_file: None,
            tls_cert_file: Some("client.pem".to_string()),
            tls_key_file: None,
        },
    };
    assert_eq!(o.connect_plan(), Err(ConfigError::CertWithoutKey));
}

#[test]
fn mqtt_plan_rejects_key_without_cert() {
    let o = MqttOptions {
        mqtt_url: "ssl://localhost:8883".to_string(),
        mqtt_id: None,
        tls_opts: TlsOptions {
            tls_ca_file: Some("ca.pem".to_string()),
            tls_cert_file: None,
            tls_key_file: Some("client.key".to_string()),
        },
    };
    assert_eq!(o.connect_plan(), Err(ConfigError::KeyWithoutCert));
}

#[test]
fn mqtt_plan_carries_full_tls_material() {
    let o = MqttOptions {
        mqtt_url: "ssl://localhost:8883".to_string(),
        mqtt_id: Some("sensor-1".to_string()),
        tls_opts: TlsOptions {
            tls_ca_file: Some("ca.pem".to_string()),
            tls_cert_file: Some("client.pem".to_string()),
            tls_key_file: Some("client.key".to_string()),
        },
    };
    let p = o.connect_plan().unwrap();
    assert_eq!(p.client_id, Some("sensor-1".to_string()));
    let tls = p.tls.unwrap();
    assert_eq!(tls.trust_store, Some("ca.pem".to_string()));
    assert_eq!(tls.key_store, Some("client.pem".to_string()));
    assert_eq!(tls.private_key, Some("client.key".to_string()));
}

#[test]
fn mqtt_publish_then_delivery_round_trip() {
    // Endpoint tcp://localhost:1883, no TLS; subscribe to
    // sensors/temp; publish b"21.5" there; the inbox yields exactly
    // one ("sensors/temp", b"21.5") once the broker routes it back.
    let o: MqttOptions = "tcp://localhost:1883".into();
    assert!(o.connect_plan().is_ok());
    let mut s = MqttSession::new();
    let sub = s.subscribe("sensors/temp");
    assert_eq!(
        sub,
        SubscribeAction::Broker { topic: "sensors/temp".to_string(), qos: 0 }
    );
    let act = s.publish("sensors/temp", b"21.5");
    assert_eq!(act.topic, "sensors/temp");
    assert_eq!(act.payload, b"21.5".to_vec());
    assert_eq!(act.mode, DeliveryMode::FanOut { qos: 0 });
    let delivered = s.next_inbox(BrokerPoll::Delivery {
        topic: act.topic.clone(),
        payload: act.payload.clone(),
    });
    match delivered {
        InboxPoll::Item(m) => {
            assert_eq!(m.topic, Some("sensors/temp".to_string()));
            assert_eq!(m.payload, b"21.5".to_vec());
        }
        other => panic!("expected a delivery, got {other:?}"),
    }
    // Nothing further is pending: the message arrives exactly once.
    assert_eq!(s.next_inbox(BrokerPoll::NotReady), InboxPoll::NotReady);
}

#[test]
fn mqtt_inbox_ends_on_session_break() {
    let s = MqttSession::new();
    assert_eq!(s.next_inbox(BrokerPoll::Disconnected), InboxPoll::Closed);
    assert_eq!(s.next_inbox(BrokerPoll::Closed), InboxPoll::Closed);
}

#[test]
fn mqtt_duplicate_subscribe_reregisters() {
    let mut s = MqttSession::new();
    s.subscribe("a");
    s.subscribe("a");
    s.subscribe("b");
    // Broker teardown drops subscriptions implicitly: nothing to
    // release explicitly.
    assert_eq!(s.disconnect(), Vec::<String>::new());
}

#[test]
fn mqtt_unsubscribe_is_a_noop_when_not_subscribed() {
    let mut s = MqttSession::new();
    let r = s.unsubscribe("never-seen");
    assert_eq!(
        r,
        Ok(UnsubscribeAction::Broker { topic: "never-seen".to_string() })
    );
}

#[test]
fn coap_subscribe_opens_independent_observations() {
    let mut s = CoapSession::new();
    let a = s.subscribe("room/temp");
    assert_eq!(a, SubscribeAction::Observe { topic: "room/temp".to_string() });
    s.subscribe("room/temp");
    s.subscribe("room/humidity");
    assert_eq!(s.observation_count(), 3);
}

#[test]
fn coap_unsubscribe_cancels_every_observation_of_the_topic() {
    let mut s = CoapSession::new();
    s.subscribe("room/temp");
    s.subscribe("room/humidity");
    s.subscribe("room/temp");
    let r = s.unsubscribe("room/temp");
    assert_eq!(
        r,
        Ok(UnsubscribeAction::CancelObservations {
            topic: "room/temp".to_string(),
            count: 2,
        })
    );
    assert_eq!(s.observation_count(), 1);
    // A second unsubscribe for the same topic is a well-defined error.
    assert_eq!(s.unsubscribe("room/temp"), Err(UnsubscribeError::NotSubscribed));
    assert_eq!(
        UnsubscribeError::NotSubscribed.message(),
        "not subscribed to this topic"
    );
}

#[test]
fn coap_inbox_skips_pending_and_delivers_first_ready_payload() {
    let mut s = CoapSession::new();
    s.subscribe("a");
    s.subscribe("b");
    s.subscribe("c");
    let polls = vec![
        ObservationPoll::NotReady,
        ObservationPoll::Payload(b"42".to_vec()),
        ObservationPoll::Ended,
    ];
    match s.next_inbox(&polls) {
        InboxPoll::Item(m) => {
            assert_eq!(m.topic, None);
            assert_eq!(m.payload, b"42".to_vec());
        }
        other => panic!("expected a delivery, got {other:?}"),
    }
}

#[test]
fn coap_inbox_closes_when_an_observation_ends_first() {
    let mut s = CoapSession::new();
    s.subscribe("a");
    s.subscribe("b");
    let polls = vec![ObservationPoll::Ended, ObservationPoll::Payload(b"42".to_vec())];
    assert_eq!(s.next_inbox(&polls), InboxPoll::Closed);
}

#[test]
fn coap_inbox_reports_not_ready_without_blocking() {
    let mut s = CoapSession::new();
    s.subscribe("a");
    assert_eq!(s.next_inbox(&vec![ObservationPoll::NotReady]), InboxPoll::NotReady);
}

#[test]
fn coap_unsubscribed_topic_delivers_nothing_further() {
    let mut s = CoapSession::new();
    s.subscribe("room/temp");
    s.unsubscribe("room/temp").unwrap();
    // No observation of the topic is left, so no poll outcome exists
    // that could deliver for it.
    assert_eq!(s.observation_count(), 0);
    assert_eq!(s.next_inbox(&Vec::new()), InboxPoll::NotReady);
}

#[test]
fn coap_disconnect_names_every_observation_in_creation_order() {
    let mut s = CoapSession::new();
    s.subscribe("a");
    s.subscribe("b");
    s.subscribe("a");
    let to_cancel = s.disconnect();
    assert_eq!(to_cancel, vec!["a".to_string(), "b".to_string(), "a".to_string()]);
    assert_eq!(s.observation_count(), 0);
}

#[test]
fn coap_publish_is_a_resource_write() {
    let mut s = CoapSession::new();
    let act = s.publish("device/config", b"on");
    assert_eq!(act.topic, "device/config");
    assert_eq!(act.payload, b"on".to_vec());
    assert_eq!(act.mode, DeliveryMode::ResourceWrite);
}
