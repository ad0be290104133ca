//! The form in which events are sent: a JSON array of objects.

use crate::buffer::events_view;
use crate::event::EventView;
use crate::event::WhalyticsEvent;
use crate::json::json_array;
use crate::json::json_object;
use crate::json::json_of_items;
use crate::json::json_of_object;
use crate::json::json_of_text;
use crate::json::json_of_u64;
use crate::json::json_string;
use crate::json::json_u64;
use crate::json::object_entries;
use crate::json::object_insert;
use crate::json::object_new;
use crate::properties::entries_map;
use crate::properties::Properties;
use serde_json::Value;
use vstd::prelude::*;

verus! {

/// What stands under one key of an event's object.
pub enum Field {
    /// A JSON string with this text.
    Text(Seq<char>),
    /// A JSON number: this whole number.
    Count(u64),
    /// A JSON object with these entries.
    Mapping(Map<Seq<char>, Value>),
}

/// Whether the JSON value `v` is what `f` describes.
pub open spec fn says(v: Value, f: Field) -> bool {
    match f {
        Field::Text(text) => json_string(v) == Some(text),
        Field::Count(n) => json_u64(v) == Some(n),
        Field::Mapping(entries) => json_object(v) == Some(entries),
    }
}

/// The keys of an event's object with what stands under each: the name, the
/// two identifiers and the time always; the event's properties and the user's
/// properties only where they are not empty.
pub open spec fn wire_fields(e: EventView) -> Map<Seq<char>, Field> {
    let always = Map::<Seq<char>, Field>::empty().insert("event"@, Field::Text(e.event)).insert(
        "user_id"@,
        Field::Text(e.user_id),
    ).insert("session_id"@, Field::Text(e.session_id)).insert("time"@, Field::Count(e.time));
    let with_event = if e.event_properties == Map::<Seq<char>, Value>::empty() {
        always
    } else {
        always.insert("event_properties"@, Field::Mapping(e.event_properties))
    };
    if e.user_properties == Map::<Seq<char>, Value>::empty() {
        with_event
    } else {
        with_event.insert("user_properties"@, Field::Mapping(e.user_properties))
    }
}

/// Whether the entries of a JSON object are those that `fields` describes:
/// the same keys, and under each key what is described.
pub open spec fn encodes(entries: Map<Seq<char>, Value>, fields: Map<Seq<char>, Field>) -> bool {
    &&& forall|k: Seq<char>| entries.contains_key(k) <==> fields.contains_key(k)
    &&& forall|k: Seq<char>| #[trigger] fields.contains_key(k) ==> says(entries[k], fields[k])
}

/// Whether the JSON value `v` is the object of the event `e`.
pub open spec fn is_event_json(v: Value, e: EventView) -> bool {
    match json_object(v) {
        Some(entries) => encodes(entries, wire_fields(e)),
        None => false,
    }
}

/// Whether the JSON value `v` is the array of the objects of `events`, one
/// for each event, in their order.
pub open spec fn is_payload(v: Value, events: Seq<EventView>) -> bool {
    match json_array(v) {
        Some(items) => {
            &&& items.len() == events.len()
            &&& forall|i: int| 0 <= i < items.len() ==> is_event_json(#[trigger] items[i], events[i])
        },
        None => false,
    }
}

/// The JSON object with the entries of `props`.
pub fn properties_json(props: &Properties) -> (v: Value)
    ensures
        json_object(v) == Some(props@),
{
    let entries = props.entries();
    let mut object = object_new();
    let mut i: usize = 0;
    proof {
        assert(entries@.subrange(0, 0) =~= Seq::<(String, Value)>::empty());
    }
    while i < entries.len()
        invariant
            i <= entries@.len(),
            object_entries(object) == entries_map(entries@.subrange(0, i as int)),
        decreases entries@.len() - i,
    {
        let name = entries[i].0.clone();
        let value = entries[i].1.clone();
        proof {
            let next = entries@.subrange(0, i + 1);
            assert(next.drop_last() =~= entries@.subrange(0, i as int));
            assert(next.last() == entries@[i as int]);
        }
        let _ = object_insert(&mut object, name, value);
        i += 1;
    }
    proof {
        assert(entries@.subrange(0, i as int) =~= entries@);
    }
    json_of_object(object)
}

/// The object of one event.
pub fn event_json(e: &WhalyticsEvent) -> (v: Value)
    ensures
        is_event_json(v, e@),
{
    let mut object = object_new();
    let ghost mut fields = Map::<Seq<char>, Field>::empty();
    let _ = object_insert(&mut object, "event".to_owned(), json_of_text(e.event.clone()));
    proof {
        fields = fields.insert("event"@, Field::Text(e.event@));
        assert(encodes(object_entries(object), fields));
    }
    let _ = object_insert(&mut object, "user_id".to_owned(), json_of_text(e.user_id.clone()));
    proof {
        fields = fields.insert("user_id"@, Field::Text(e.user_id@));
        assert(encodes(object_entries(object), fields));
    }
    let _ = object_insert(
        &mut object,
        "session_id".to_owned(),
        json_of_text(e.session_id.clone()),
    );
    proof {
        fields = fields.insert("session_id"@, Field::Text(e.session_id@));
        assert(encodes(object_entries(object), fields));
    }
    let _ = object_insert(&mut object, "time".to_owned(), json_of_u64(e.time));
    proof {
        fields = fields.insert("time"@, Field::Count(e.time));
        assert(encodes(object_entries(object), fields));
    }
    if !e.event_properties.is_empty() {
        let _ = object_insert(
            &mut object,
            "event_properties".to_owned(),
            properties_json(&e.event_properties),
        );
        proof {
            fields = fields.insert("event_properties"@, Field::Mapping(e.event_properties@));
            assert(encodes(object_entries(object), fields));
        }
    }
    if !e.user_properties.is_empty() {
        let _ = object_insert(
            &mut object,
            "user_properties".to_owned(),
            properties_json(&e.user_properties),
        );
        proof {
            fields = fields.insert("user_properties"@, Field::Mapping(e.user_properties@));
            assert(encodes(object_entries(object), fields));
        }
    }
    proof {
        assert(fields == wire_fields(e@));
    }
    json_of_object(object)
}

/// The body of a request that carries `events`: the array of their objects,
/// oldest first.
pub fn payload(events: &Vec<WhalyticsEvent>) -> (v: Value)
    ensures
        is_payload(v, events_view(events@)),
{
    let mut items: Vec<Value> = Vec::new();
    let mut i: usize = 0;
    while i < events.len()
        invariant
            i <= events@.len(),
            items@.len() == i,
            forall|j: int| 0 <= j < i ==> is_event_json(#[trigger] items@[j], events@[j]@),
        decreases events@.len() - i,
    {
        items.push(event_json(&events[i]));
        i += 1;
    }
    json_of_items(items)
}

/// The six keys differ from each other: no two have the same length.
proof fn lemma_keys_differ()
    ensures
        "event"@.len() == 5,
        "user_id"@.len() == 7,
        "session_id"@.len() == 10,
        "time"@.len() == 4,
        "event_properties"@.len() == 16,
        "user_properties"@.len() == 15,
{
    reveal_strlit("event");
    reveal_strlit("user_id");
    reveal_strlit("session_id");
    reveal_strlit("time");
    reveal_strlit("event_properties");
    reveal_strlit("user_properties");
}

/// An event without properties of either kind is sent with four keys and no
/// others.
pub proof fn lemma_empty_mappings_omitted(e: EventView)
    requires
        e.event_properties == Map::<Seq<char>, Value>::empty(),
        e.user_properties == Map::<Seq<char>, Value>::empty(),
    ensures
        wire_fields(e).dom() == set!["event"@, "user_id"@, "session_id"@, "time"@],
        !wire_fields(e).contains_key("event_properties"@),
        !wire_fields(e).contains_key("user_properties"@),
{
    lemma_keys_differ();
    assert(wire_fields(e).dom() =~= set!["event"@, "user_id"@, "session_id"@, "time"@]);
}

/// The four keys that every event is sent with, and what stands under them.
pub proof fn lemma_fixed_fields(e: EventView)
    ensures
        wire_fields(e).contains_key("event"@) && wire_fields(e)["event"@] == Field::Text(e.event),
        wire_fields(e).contains_key("user_id"@) && wire_fields(e)["user_id"@] == Field::Text(
            e.user_id,
        ),
        wire_fields(e).contains_key("session_id"@) && wire_fields(e)["session_id"@] == Field::Text(
            e.session_id,
        ),
        wire_fields(e).contains_key("time"@) && wire_fields(e)["time"@] == Field::Count(e.time),
{
    lemma_keys_differ();
}

/// Properties that are not empty are sent as they are, under their key, and
/// empty ones are left out.
pub proof fn lemma_mappings_included(e: EventView)
    ensures
        wire_fields(e).contains_key("event_properties"@) <==> e.event_properties != Map::<
            Seq<char>,
            Value,
        >::empty(),
        wire_fields(e).contains_key("event_properties"@) ==> wire_fields(e)["event_properties"@]
            == Field::Mapping(e.event_properties),
        wire_fields(e).contains_key("user_properties"@) <==> e.user_properties != Map::<
            Seq<char>,
            Value,
        >::empty(),
        wire_fields(e).contains_key("user_properties"@) ==> wire_fields(e)["user_properties"@]
            == Field::Mapping(e.user_properties),
{
    lemma_keys_differ();
}

} // verus!
