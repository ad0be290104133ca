use game_events_sdk::wire::event_json;
use game_events_sdk::wire::payload;
use game_events_sdk::wire::properties_json;
use game_events_sdk::BuilderError;
use game_events_sdk::FlushAction;
use game_events_sdk::Properties;
use game_events_sdk::WhalyticsClient;
use game_events_sdk::WhalyticsClientBuilder;
use game_events_sdk::WhalyticsEvent;
use game_events_sdk::WhalyticsEventBuilder;
use game_events_sdk::WhalyticsSession;
use serde_json::Value;

fn event(name: &str, time: u64) -> WhalyticsEvent {
    WhalyticsEventBuilder::default()
        .event(name)
        .user_id("user123")
        .session_id("session456")
        .time(time)
        .build()
        .unwrap()
}

fn parsed(text: &str) -> Value {
    serde_json::from_str(text).unwrap()
}

#[test]
fn test_client_creation() {
    let client = WhalyticsClient::new("test_api_key");
    assert_eq!(client.pending_events_count(), 0);
}

#[test]
fn test_event_buffering() {
    let mut client = WhalyticsClient::new("test_api_key");

    let event = WhalyticsEventBuilder::default()
        .event("test_event")
        .user_id("user123")
        .session_id("session456")
        .build()
        .unwrap();

    client.log_event(event);
    assert_eq!(client.pending_events_count(), 1);
}

#[test]
fn new_client_has_the_default_endpoint() {
    let client = WhalyticsClient::new("key");
    assert_eq!(client.api_key(), "key");
    assert_eq!(client.backend_url(), "https://api.game-events.io/v1/events");
}

#[test]
fn builder_needs_a_key() {
    let missing = WhalyticsClientBuilder::default().build();
    assert!(matches!(missing, Err(BuilderError::UninitializedField("api_key"))));
    let no_key = WhalyticsClientBuilder::default().backend_url("http://localhost/e").build();
    assert!(matches!(no_key, Err(BuilderError::UninitializedField("api_key"))));

    let client = WhalyticsClientBuilder::default().api_key("k").build().unwrap();
    assert_eq!(client.api_key(), "k");
    assert_eq!(client.backend_url(), "https://api.game-events.io/v1/events");
    assert_eq!(client.pending_events_count(), 0);

    let other = WhalyticsClientBuilder::default()
        .api_key("k")
        .backend_url("http://localhost/e")
        .build()
        .unwrap();
    assert_eq!(other.backend_url(), "http://localhost/e");
}

#[test]
fn each_logged_event_counts_once() {
    let mut client = WhalyticsClient::new("k");
    for i in 0..5 {
        assert_eq!(client.pending_events_count(), i);
        client.log_event(event("e", i as u64));
    }
    assert_eq!(client.pending_events_count(), 5);
}

#[test]
fn flush_of_an_empty_buffer_sends_nothing() {
    let mut client = WhalyticsClient::new("k");
    match client.flush() {
        FlushAction::Done(answer) => assert_eq!(answer, "No events to send"),
        FlushAction::Post(_) => panic!("nothing was buffered"),
    }
    match client.flush_batch(10) {
        FlushAction::Done(answer) => assert_eq!(answer, "No events to send"),
        FlushAction::Post(_) => panic!("nothing was buffered"),
    }
    match client.flush_batch(0) {
        FlushAction::Done(answer) => assert_eq!(answer, "No events to send"),
        FlushAction::Post(_) => panic!("nothing was buffered"),
    }
    assert_eq!(client.pending_events_count(), 0);
}

#[test]
fn flush_hands_out_everything_in_order() {
    let mut client = WhalyticsClientBuilder::default()
        .api_key("secret")
        .backend_url("http://localhost/e")
        .build()
        .unwrap();
    client.log_event(event("a", 1));
    client.log_event(event("b", 2));
    client.log_event(event("c", 3));

    let delivery = match client.flush() {
        FlushAction::Post(delivery) => delivery,
        FlushAction::Done(_) => panic!("three events were buffered"),
    };
    assert_eq!(client.pending_events_count(), 0);
    assert_eq!(delivery.url, "http://localhost/e");
    assert_eq!(delivery.authorization, "Bearer secret");
    assert_eq!(delivery.events.len(), 3);
    assert_eq!(delivery.events[0].event, "a");
    assert_eq!(delivery.events[1].event, "b");
    assert_eq!(delivery.events[2].event, "c");
    assert_eq!(
        delivery.body(),
        parsed(
            "[{\"event\":\"a\",\"user_id\":\"user123\",\"session_id\":\"session456\",\"time\":1},\
             {\"event\":\"b\",\"user_id\":\"user123\",\"session_id\":\"session456\",\"time\":2},\
             {\"event\":\"c\",\"user_id\":\"user123\",\"session_id\":\"session456\",\"time\":3}]"
        )
    );
    assert!(matches!(client.flush(), FlushAction::Done(_)));
}

#[test]
fn flush_batch_hands_out_the_oldest() {
    let mut client = WhalyticsClient::new("k");
    for (i, name) in ["a", "b", "c", "d", "e"].iter().enumerate() {
        client.log_event(event(name, i as u64));
    }

    let first = match client.flush_batch(2) {
        FlushAction::Post(delivery) => delivery,
        FlushAction::Done(_) => panic!("five events were buffered"),
    };
    assert_eq!(first.url, "https://api.game-events.io/v1/events");
    assert_eq!(first.authorization, "Bearer k");
    assert_eq!(first.events.len(), 2);
    assert_eq!(first.events[0].event, "a");
    assert_eq!(first.events[1].event, "b");
    assert_eq!(client.pending_events_count(), 3);

    let second = match client.flush_batch(2) {
        FlushAction::Post(delivery) => delivery,
        FlushAction::Done(_) => panic!("three events were buffered"),
    };
    assert_eq!(second.events.len(), 2);
    assert_eq!(second.events[0].event, "c");
    assert_eq!(second.events[1].event, "d");
    assert_eq!(client.pending_events_count(), 1);

    let third = match client.flush_batch(2) {
        FlushAction::Post(delivery) => delivery,
        FlushAction::Done(_) => panic!("one event was buffered"),
    };
    assert_eq!(third.events.len(), 1);
    assert_eq!(third.events[0].event, "e");
    assert_eq!(client.pending_events_count(), 0);
    assert!(matches!(client.flush_batch(2), FlushAction::Done(_)));
}

#[test]
fn flush_batch_of_the_whole_buffer_or_more_empties_it() {
    let mut client = WhalyticsClient::new("k");
    client.log_event(event("a", 1));
    client.log_event(event("b", 2));
    let exact = match client.flush_batch(2) {
        FlushAction::Post(delivery) => delivery,
        FlushAction::Done(_) => panic!("two events were buffered"),
    };
    assert_eq!(exact.events.len(), 2);
    assert_eq!(client.pending_events_count(), 0);

    client.log_event(event("c", 3));
    let more = match client.flush_batch(usize::MAX) {
        FlushAction::Post(delivery) => delivery,
        FlushAction::Done(_) => panic!("one event was buffered"),
    };
    assert_eq!(more.events.len(), 1);
    assert_eq!(more.events[0].event, "c");
    assert_eq!(client.pending_events_count(), 0);
}

#[test]
fn flush_batch_of_none_sends_an_empty_array() {
    let mut client = WhalyticsClient::new("k");
    client.log_event(event("a", 1));
    let delivery = match client.flush_batch(0) {
        FlushAction::Post(delivery) => delivery,
        FlushAction::Done(_) => panic!("one event was buffered"),
    };
    assert!(delivery.events.is_empty());
    assert_eq!(delivery.body(), parsed("[]"));
    assert_eq!(client.pending_events_count(), 1);
}

#[test]
fn session_events_reach_the_client_in_order() {
    let mut session = WhalyticsSession::new("u", "s");
    session.push_event("one", Properties::new());
    session.push_event("two", Properties::new());
    let mut client = WhalyticsClient::new("k");
    for e in session.take_events(100) {
        client.log_event(e);
    }
    assert_eq!(client.pending_events_count(), 2);
    let delivery = match client.flush() {
        FlushAction::Post(delivery) => delivery,
        FlushAction::Done(_) => panic!("two events were buffered"),
    };
    assert_eq!(delivery.events[0].event, "one");
    assert_eq!(delivery.events[1].event, "two");
}

#[test]
fn cloned_client_has_its_own_buffer() {
    let mut client = WhalyticsClient::new("k");
    client.log_event(event("a", 1));
    let copy = client.clone();
    client.log_event(event("b", 2));
    assert_eq!(copy.pending_events_count(), 1);
    assert_eq!(copy.api_key(), "k");
    assert_eq!(client.pending_events_count(), 2);
}

#[test]
fn empty_mappings_are_left_out() {
    let json = event_json(&event("e", 5));
    let object = json.as_object().unwrap();
    assert_eq!(object.len(), 4);
    assert!(!object.contains_key("event_properties"));
    assert!(!object.contains_key("user_properties"));
    assert_eq!(
        json,
        parsed("{\"event\":\"e\",\"user_id\":\"user123\",\"session_id\":\"session456\",\"time\":5}")
    );
}

#[test]
fn mappings_that_are_not_empty_are_sent_as_they_are() {
    let mut event_props = Properties::new();
    event_props.insert("score".to_string(), Value::from(1500));
    event_props.insert("tags".to_string(), parsed("[\"a\",{\"b\":null}]"));
    let mut user_props = Properties::new();
    user_props.insert("platform".to_string(), Value::from("rust"));

    let only_event = WhalyticsEventBuilder::default()
        .event("e")
        .user_id("u")
        .session_id("s")
        .time(7)
        .event_properties(event_props.clone())
        .build()
        .unwrap();
    assert_eq!(
        event_json(&only_event),
        parsed(
            "{\"event\":\"e\",\"user_id\":\"u\",\"session_id\":\"s\",\"time\":7,\
             \"event_properties\":{\"score\":1500,\"tags\":[\"a\",{\"b\":null}]}}"
        )
    );

    let only_user = WhalyticsEventBuilder::default()
        .event("e")
        .user_id("u")
        .session_id("s")
        .time(7)
        .user_properties(user_props.clone())
        .build()
        .unwrap();
    assert_eq!(
        event_json(&only_user),
        parsed(
            "{\"event\":\"e\",\"user_id\":\"u\",\"session_id\":\"s\",\"time\":7,\
             \"user_properties\":{\"platform\":\"rust\"}}"
        )
    );

    let both = WhalyticsEventBuilder::default()
        .event("e")
        .user_id("u")
        .session_id("s")
        .time(u64::MAX)
        .event_properties(event_props)
        .user_properties(user_props)
        .build()
        .unwrap();
    assert_eq!(
        event_json(&both),
        parsed(
            "{\"event\":\"e\",\"user_id\":\"u\",\"session_id\":\"s\",\"time\":18446744073709551615,\
             \"event_properties\":{\"score\":1500,\"tags\":[\"a\",{\"b\":null}]},\
             \"user_properties\":{\"platform\":\"rust\"}}"
        )
    );
}

#[test]
fn properties_become_an_object() {
    assert_eq!(properties_json(&Properties::new()), parsed("{}"));
    let mut props = Properties::new();
    props.insert("a".to_string(), Value::from(1));
    props.insert("b".to_string(), Value::from("x"));
    props.insert("a".to_string(), Value::from(2));
    assert_eq!(properties_json(&props), parsed("{\"a\":2,\"b\":\"x\"}"));
}

#[test]
fn payload_is_the_array_of_the_events() {
    assert_eq!(payload(&Vec::new()), parsed("[]"));
    let events = vec![event("a", 1), event("b", 2)];
    let body = payload(&events);
    let items = body.as_array().unwrap();
    assert_eq!(items.len(), 2);
    assert_eq!(items[0]["event"], "a");
    assert_eq!(items[0]["time"], 1);
    assert_eq!(items[1]["event"], "b");
    assert_eq!(items[1]["user_id"], "user123");
    assert_eq!(items[1]["session_id"], "session456");
}
