use game_events_sdk::Properties;
use game_events_sdk::WhalyticsEvent;
use game_events_sdk::WhalyticsEventBuilder;
use serde_json::Value;
use std::time::SystemTime;
use std::time::UNIX_EPOCH;

#[test]
fn test_event_creation() {
    let event = WhalyticsEventBuilder::default()
        .event("test_event")
        .user_id("user123")
        .session_id("session456")
        .build()
        .unwrap();

    assert_eq!(event.event, "test_event");
    assert_eq!(event.user_id, "user123");
    assert_eq!(event.session_id, "session456");
    assert!(event.time > 0);
}

#[test]
fn unset_fields_take_their_defaults() {
    let event = WhalyticsEventBuilder::default().time(42).build().unwrap();
    assert_eq!(event.event, "");
    assert_eq!(event.user_id, "");
    assert_eq!(event.session_id, "");
    assert_eq!(event.time, 42);
    assert!(event.event_properties.is_empty());
    assert!(event.user_properties.is_empty());
}

#[test]
fn explicit_time_is_kept() {
    let event = WhalyticsEventBuilder::default().event("e").time(1_700_000_000).build().unwrap();
    assert_eq!(event.time, 1_700_000_000);
    let zero = WhalyticsEventBuilder::default().time(0).build().unwrap();
    assert_eq!(zero.time, 0);
}

#[test]
fn build_at_uses_the_given_reading_only_without_a_time() {
    let unset = WhalyticsEventBuilder::default().event("e");
    assert_eq!(unset.build_at(99).time, 99);
    let set = WhalyticsEventBuilder::default().event("e").time(5);
    assert_eq!(set.build_at(99).time, 5);
}

#[test]
fn unset_time_is_the_wall_clock() {
    let before = SystemTime::now().duration_since(UNIX_EPOCH).unwrap().as_secs();
    let event = WhalyticsEventBuilder::default().event("e").build().unwrap();
    let after = SystemTime::now().duration_since(UNIX_EPOCH).unwrap().as_secs();
    assert!(event.time >= before);
    assert!(event.time <= after);
    assert!(event.time - before <= 2);
}

#[test]
fn default_time_is_the_wall_clock() {
    let before = SystemTime::now().duration_since(UNIX_EPOCH).unwrap().as_secs();
    let t = WhalyticsEventBuilder::default().default_time();
    let after = SystemTime::now().duration_since(UNIX_EPOCH).unwrap().as_secs();
    assert!(before <= t && t <= after);
}

#[test]
fn builder_takes_both_mappings() {
    let mut event_props = Properties::new();
    event_props.insert("level".to_string(), Value::from(3));
    let mut user_props = Properties::new();
    user_props.insert("platform".to_string(), Value::from("rust"));
    let event = WhalyticsEventBuilder::default()
        .event("e")
        .event_properties(event_props)
        .user_properties(user_props)
        .time(1)
        .build()
        .unwrap();
    assert_eq!(event.event_properties.len(), 1);
    assert_eq!(event.event_properties.get("level"), Some(&Value::from(3)));
    assert_eq!(event.user_properties.len(), 1);
    assert_eq!(event.user_properties.get("platform"), Some(&Value::from("rust")));
}

#[test]
fn one_builder_builds_equal_events() {
    let builder = WhalyticsEventBuilder::default().event("e").user_id("u").time(9);
    let a = builder.build().unwrap();
    let b = builder.build().unwrap();
    assert_eq!(a.event, b.event);
    assert_eq!(a.user_id, b.user_id);
    assert_eq!(a.time, b.time);
}

#[test]
fn default_event_is_empty() {
    let event = WhalyticsEvent::default();
    assert_eq!(event.event, "");
    assert_eq!(event.user_id, "");
    assert_eq!(event.session_id, "");
    assert_eq!(event.time, 0);
    assert!(event.event_properties.is_empty());
    assert!(event.user_properties.is_empty());
}

#[test]
fn cloned_event_says_the_same() {
    let mut props = Properties::new();
    props.insert("k".to_string(), Value::from("v"));
    let event = WhalyticsEventBuilder::default()
        .event("e")
        .user_id("u")
        .session_id("s")
        .time(3)
        .event_properties(props)
        .build()
        .unwrap();
    let copy = event.clone();
    assert_eq!(copy.event, "e");
    assert_eq!(copy.user_id, "u");
    assert_eq!(copy.session_id, "s");
    assert_eq!(copy.time, 3);
    assert_eq!(copy.event_properties.get("k"), Some(&Value::from("v")));
    assert!(copy.user_properties.is_empty());
}
