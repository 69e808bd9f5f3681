use gateway_auth::stream::{classify_frame, heartbeat_now, render_heartbeat, Connection, ControlFrame};

fn streaming_connection() -> Connection {
    let mut conn = Connection::open();
    conn.authorize(true);
    conn.begin_streaming();
    conn
}

#[test]
fn subscribe_then_unsubscribe_leaves_the_set_empty() {
    let mut conn = streaming_connection();
    conn.apply_frame(classify_frame("subscribe", Some("abc".to_string())));
    assert!(conn.is_subscribed(&"abc".to_string()));
    assert_eq!(conn.subscription_count(), 1);
    conn.apply_frame(classify_frame("unsubscribe", Some("abc".to_string())));
    assert!(!conn.is_subscribed(&"abc".to_string()));
    assert_eq!(conn.subscription_count(), 0);
}

#[test]
fn bogus_frame_is_dropped_and_the_connection_stays_open() {
    let mut conn = streaming_connection();
    conn.apply_frame(classify_frame("subscribe", Some("abc".to_string())));
    conn.apply_frame(classify_frame("bogus", Some("abc".to_string())));
    assert_eq!(conn.subscription_count(), 1);
    assert!(conn.is_subscribed(&"abc".to_string()));
    // the connection still forwards events, so it is still streaming
    assert!(conn.should_forward(&"abc".to_string()));
}

#[test]
fn frame_classification_reads_kind_and_identifier() {
    assert_eq!(
        classify_frame("subscribe", Some("e-1".to_string())),
        ControlFrame::Subscribe("e-1".to_string())
    );
    assert_eq!(
        classify_frame("unsubscribe", Some("e-1".to_string())),
        ControlFrame::Unsubscribe("e-1".to_string())
    );
    assert_eq!(classify_frame("subscribe", None), ControlFrame::Ignored);
    assert_eq!(classify_frame("unsubscribe", None), ControlFrame::Ignored);
    assert_eq!(
        classify_frame("heartbeat", Some("e-1".to_string())),
        ControlFrame::Ignored
    );
}

#[test]
fn subscribing_twice_keeps_one_entry() {
    let mut conn = streaming_connection();
    conn.apply_frame(ControlFrame::Subscribe("dup".to_string()));
    conn.apply_frame(ControlFrame::Subscribe("dup".to_string()));
    assert_eq!(conn.subscription_count(), 1);
    conn.apply_frame(ControlFrame::Unsubscribe("dup".to_string()));
    assert_eq!(conn.subscription_count(), 0);
}

#[test]
fn unsubscribing_an_unknown_identifier_changes_nothing() {
    let mut conn = streaming_connection();
    conn.apply_frame(ControlFrame::Subscribe("kept".to_string()));
    conn.apply_frame(ControlFrame::Unsubscribe("never-seen".to_string()));
    assert_eq!(conn.subscription_count(), 1);
    assert!(conn.is_subscribed(&"kept".to_string()));
}

#[test]
fn rejected_handshake_closes_the_connection() {
    let mut conn = Connection::open();
    conn.authorize(false);
    assert!(!conn.should_forward(&"any".to_string()));
}

#[test]
fn a_closed_connection_forwards_nothing() {
    let mut conn = streaming_connection();
    conn.apply_frame(ControlFrame::Subscribe("abc".to_string()));
    assert!(conn.should_forward(&"abc".to_string()));
    conn.close();
    assert!(!conn.should_forward(&"abc".to_string()));
    assert_eq!(conn.subscription_count(), 0);
}

#[test]
fn forwarding_matches_the_subscription_set() {
    let mut conn = streaming_connection();
    conn.apply_frame(ControlFrame::Subscribe("mine".to_string()));
    assert!(conn.should_forward(&"mine".to_string()));
    assert!(!conn.should_forward(&"someone-elses".to_string()));
}

#[test]
fn heartbeat_frame_embeds_the_timestamp() {
    let frame = render_heartbeat("2024-05-01T00:00:00+00:00");
    assert_eq!(
        frame,
        "{\"type\":\"heartbeat\",\"execution_id\":null,\"data\":{\"timestamp\":\"2024-05-01T00:00:00+00:00\"}}"
    );
    let parsed: serde_json::Value = serde_json::from_str(&frame).expect("heartbeat is JSON");
    assert_eq!(parsed["type"], "heartbeat");
    assert_eq!(parsed["data"]["timestamp"], "2024-05-01T00:00:00+00:00");
}

#[test]
fn live_heartbeat_carries_a_real_timestamp() {
    let frame = heartbeat_now();
    let parsed: serde_json::Value = serde_json::from_str(&frame).expect("heartbeat is JSON");
    assert_eq!(parsed["type"], "heartbeat");
    let ts = parsed["data"]["timestamp"].as_str().expect("timestamp is a string");
    let parsed_ts = chrono::DateTime::parse_from_rfc3339(ts).expect("timestamp is RFC 3339");
    let now = chrono::Utc::now().timestamp();
    assert!((parsed_ts.timestamp() - now).abs() < 60);
}
