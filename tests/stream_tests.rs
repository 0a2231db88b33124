use webull_core::stream::{ConnState, Delivery, EngineAction, StreamEngine, TopicTypes, TransportEvent};

#[test]
fn test_topic_types() {
    let all_topics = TopicTypes::all();
    assert_eq!(all_topics.len(), 8);

    let basic_topics = TopicTypes::basic();
    assert_eq!(basic_topics.len(), 3);
}

#[test]
fn topic_keys() {
    assert_eq!(StreamEngine::ticker_topic("913256135", 102), "{\"tickerId\":\"913256135\",\"type\":102}");
    assert_eq!(StreamEngine::order_topic("42"), "{\"secAccountId\":\"42\"}");
}

fn connected() -> StreamEngine {
    let mut e = StreamEngine::new();
    e.begin_connect();
    assert_eq!(e.state, ConnState::Connecting);
    e.on_event(TransportEvent::ConnAck);
    assert!(e.is_connected());
    e
}

fn subscribe(e: &mut StreamEngine, ticker: &str, types: Vec<i32>) -> Vec<String> {
    let keys = e.subscribe_ticker(ticker, &types).unwrap();
    for k in keys.iter() {
        e.confirm_subscribed(k.clone());
    }
    keys
}

#[test]
fn subscribe_requires_a_transport() {
    let e = StreamEngine::new();
    assert!(e.subscribe_ticker("1", &vec![102]).is_err());
    assert!(e.subscribe_orders("1").is_err());
}

#[test]
fn resubscribing_a_held_topic_is_a_no_op() {
    let mut e = connected();
    let first = subscribe(&mut e, "1", vec![102, 103, 102]);
    assert_eq!(first.len(), 2);
    let again = e.subscribe_ticker("1", &vec![102, 103]).unwrap();
    assert!(again.is_empty());
    e.confirm_subscribed(first[0].clone());
    assert_eq!(e.get_subscriptions().len(), 2);
}

#[test]
fn subscription_survives_reconnect() {
    let mut e = connected();
    let keys = subscribe(&mut e, "913256135", vec![102]);
    let x = keys[0].clone();
    assert_eq!(e.get_subscriptions(), vec![x.clone()]);

    match e.on_event(TransportEvent::Disconnect) {
        EngineAction::RetryAfter(ms) => assert_eq!(ms, 500),
        other => panic!("unexpected: {:?}", other),
    }
    assert!(!e.is_connected());
    assert_eq!(e.get_subscriptions(), vec![x.clone()]);

    match e.on_event(TransportEvent::ConnAck) {
        EngineAction::Resubscribe(again) => assert_eq!(again, vec![x.clone()]),
        other => panic!("unexpected: {:?}", other),
    }
    assert!(e.is_connected());
    assert_eq!(e.get_subscriptions(), vec![x]);
}

#[test]
fn unsubscribe_all_then_nothing_is_held() {
    let mut e = connected();
    subscribe(&mut e, "1", vec![102, 103, 104]);
    let o = e.subscribe_orders("9").unwrap().unwrap();
    e.confirm_subscribed(o);
    assert_eq!(e.get_subscriptions().len(), 4);
    let sent = e.unsubscribe_all().unwrap();
    assert_eq!(sent.len(), 4);
    assert!(e.get_subscriptions().is_empty());
}

#[test]
fn unsubscribe_ticker_and_disconnect() {
    let mut e = connected();
    subscribe(&mut e, "1", vec![102, 103]);
    let drop = e.unsubscribe_ticker("1", &vec![103, 104]).unwrap();
    assert_eq!(drop, vec!["{\"tickerId\":\"1\",\"type\":103}".to_string()]);
    e.confirm_unsubscribed(&drop[0]);
    assert_eq!(e.get_subscriptions(), vec!["{\"tickerId\":\"1\",\"type\":102}".to_string()]);
    let sent = e.disconnect();
    assert_eq!(sent.len(), 1);
    assert!(!e.is_connected());
    assert!(e.disconnect().is_empty());
    assert!(e.get_subscriptions().is_empty());
}

#[test]
fn backoff_doubles_and_caps() {
    assert_eq!(StreamEngine::backoff_ms(0), 500);
    assert_eq!(StreamEngine::backoff_ms(1), 1000);
    assert_eq!(StreamEngine::backoff_ms(5), 16000);
    assert_eq!(StreamEngine::backoff_ms(6), 30000);
    assert_eq!(StreamEngine::backoff_ms(u32::MAX), 30000);
    let mut e = StreamEngine::new();
    e.begin_connect();
    e.on_event(TransportEvent::Error);
    assert_eq!(e.state, ConnState::ConnectFailed);
    match e.on_event(TransportEvent::Error) {
        EngineAction::RetryAfter(ms) => assert_eq!(ms, 1000),
        other => panic!("unexpected: {:?}", other),
    }
}

#[test]
fn malformed_frame_is_dropped_and_next_is_delivered() {
    let mut e = connected();
    let topic = "{\"tickerId\":\"913256135\",\"type\":102}";
    let d = e.handle_message(topic, b"not json {");
    assert!(matches!(d, Delivery::Dropped));
    assert_eq!(e.get_total_volume("913256135"), None);
    let d = e.handle_message(topic, b"{\"volume\":1200}");
    assert!(matches!(d, Delivery::Price(_, _)));
    assert_eq!(e.get_total_volume("913256135"), Some(1200));
    let d = e.handle_message(topic, b"{\"volume\":1300}");
    assert!(matches!(d, Delivery::Price(_, _)));
    assert_eq!(e.get_total_volume("913256135"), Some(1300));
}

#[test]
fn frames_are_routed_by_topic() {
    let mut e = connected();
    let d = e.handle_message("{\"platpush\":\"order\"}", b"{\"status\":\"Filled\"}");
    assert!(matches!(d, Delivery::Order(_, _)));
    let d = e.handle_message("{\"other\":1}", b"{}");
    assert!(matches!(d, Delivery::Ignored));
    let d = e.handle_message("not json", b"{}");
    assert!(matches!(d, Delivery::Dropped));
    assert_eq!(e.get_total_volume("x"), None);
}

#[test]
fn record_volume_last_write_wins() {
    let mut e = StreamEngine::new();
    e.record_volume("1".to_string(), 10);
    e.record_volume("2".to_string(), 20);
    e.record_volume("1".to_string(), 15);
    assert_eq!(e.get_total_volume("1"), Some(15));
    assert_eq!(e.get_total_volume("2"), Some(20));
    assert_eq!(e.get_total_volume("3"), None);
}
