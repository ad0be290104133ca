//! Events and the builder that fills in what a caller leaves unset.

use crate::clock::unix_seconds_now;
use crate::properties::Properties;
use serde_json::Value;
use vstd::prelude::*;

verus! {

/// What an event says: its fields as plain values.
pub struct EventView {
    pub event: Seq<char>,
    pub user_id: Seq<char>,
    pub session_id: Seq<char>,
    pub time: u64,
    pub event_properties: Map<Seq<char>, Value>,
    pub user_properties: Map<Seq<char>, Value>,
}

/// One telemetry record: a named occurrence of a user in a session.
#[derive(Debug)]
pub struct WhalyticsEvent {
    /// Name of the event.
    pub event: String,
    /// The user that it belongs to.
    pub user_id: String,
    /// The session that it belongs to.
    pub session_id: String,
    /// Unix time in seconds.
    pub time: u64,
    /// Properties of this occurrence.
    pub event_properties: Properties,
    /// Properties of the user at the moment the event was made.
    pub user_properties: Properties,
}

impl View for WhalyticsEvent {
    type V = EventView;

    open spec fn view(&self) -> EventView {
        EventView {
            event: self.event@,
            user_id: self.user_id@,
            session_id: self.session_id@,
            time: self.time,
            event_properties: self.event_properties@,
            user_properties: self.user_properties@,
        }
    }
}

impl Clone for WhalyticsEvent {
    fn clone(&self) -> (r: Self)
        ensures
            r@ == self@,
    {
        WhalyticsEvent {
            event: self.event.clone(),
            user_id: self.user_id.clone(),
            session_id: self.session_id.clone(),
            time: self.time,
            event_properties: self.event_properties.clone(),
            user_properties: self.user_properties.clone(),
        }
    }
}

impl Default for WhalyticsEvent {
    fn default() -> (r: Self)
        ensures
            r@ == EventDraft::unset().built_at(0),
    {
        WhalyticsEvent {
            event: String::new(),
            user_id: String::new(),
            session_id: String::new(),
            time: 0,
            event_properties: Properties::new(),
            user_properties: Properties::new(),
        }
    }
}

/// Why a builder could not build.
#[derive(Debug)]
pub enum BuilderError {
    /// A field without a default was never set; it is named.
    UninitializedField(&'static str),
}

/// What has been set on an event builder so far.
pub struct EventDraft {
    pub event: Option<Seq<char>>,
    pub user_id: Option<Seq<char>>,
    pub session_id: Option<Seq<char>>,
    pub time: Option<u64>,
    pub event_properties: Option<Map<Seq<char>, Value>>,
    pub user_properties: Option<Map<Seq<char>, Value>>,
}

/// The text that was set, or the empty text.
pub open spec fn text_or_empty(t: Option<Seq<char>>) -> Seq<char> {
    match t {
        Some(s) => s,
        None => Seq::empty(),
    }
}

/// The mapping that was set, or the empty mapping.
pub open spec fn mapping_or_empty(m: Option<Map<Seq<char>, Value>>) -> Map<Seq<char>, Value> {
    match m {
        Some(p) => p,
        None => Map::empty(),
    }
}

impl EventDraft {
    /// Nothing set.
    pub open spec fn unset() -> EventDraft {
        EventDraft {
            event: None,
            user_id: None,
            session_id: None,
            time: None,
            event_properties: None,
            user_properties: None,
        }
    }

    /// The event that a builder in this state builds when the clock reads
    /// `now`: each unset text is empty, each unset mapping is empty, and an
    /// unset time is `now`.
    pub open spec fn built_at(self, now: u64) -> EventView {
        EventView {
            event: text_or_empty(self.event),
            user_id: text_or_empty(self.user_id),
            session_id: text_or_empty(self.session_id),
            time: match self.time {
                Some(t) => t,
                None => now,
            },
            event_properties: mapping_or_empty(self.event_properties),
            user_properties: mapping_or_empty(self.user_properties),
        }
    }
}

/// Builds a `WhalyticsEvent` field by field.
#[derive(Debug)]
pub struct WhalyticsEventBuilder {
    event: Option<String>,
    user_id: Option<String>,
    session_id: Option<String>,
    time: Option<u64>,
    event_properties: Option<Properties>,
    user_properties: Option<Properties>,
}

pub open spec fn text_view(t: Option<String>) -> Option<Seq<char>> {
    match t {
        Some(s) => Some(s@),
        None => None,
    }
}

pub open spec fn mapping_view(m: Option<Properties>) -> Option<Map<Seq<char>, Value>> {
    match m {
        Some(p) => Some(p@),
        None => None,
    }
}

fn text_or_default(t: &Option<String>) -> (r: String)
    ensures
        r@ == text_or_empty(text_view(*t)),
{
    match t {
        Some(s) => s.clone(),
        None => String::new(),
    }
}

fn mapping_or_default(m: &Option<Properties>) -> (r: Properties)
    ensures
        r@ == mapping_or_empty(mapping_view(*m)),
{
    match m {
        Some(p) => p.clone(),
        None => Properties::new(),
    }
}

impl View for WhalyticsEventBuilder {
    type V = EventDraft;

    closed spec fn view(&self) -> EventDraft {
        EventDraft {
            event: text_view(self.event),
            user_id: text_view(self.user_id),
            session_id: text_view(self.session_id),
            time: self.time,
            event_properties: mapping_view(self.event_properties),
            user_properties: mapping_view(self.user_properties),
        }
    }
}

impl Default for WhalyticsEventBuilder {
    fn default() -> (r: Self)
        ensures
            r@ == EventDraft::unset(),
    {
        WhalyticsEventBuilder {
            event: None,
            user_id: None,
            session_id: None,
            time: None,
            event_properties: None,
            user_properties: None,
        }
    }
}

impl WhalyticsEventBuilder {
    /// Sets the name of the event.
    pub fn event(self, value: &str) -> (r: Self)
        ensures
            r@ == (EventDraft { event: Some(value@), ..self@ }),
    {
        WhalyticsEventBuilder { event: Some(value.to_owned()), ..self }
    }

    /// Sets the user.
    pub fn user_id(self, value: &str) -> (r: Self)
        ensures
            r@ == (EventDraft { user_id: Some(value@), ..self@ }),
    {
        WhalyticsEventBuilder { user_id: Some(value.to_owned()), ..self }
    }

    /// Sets the session.
    pub fn session_id(self, value: &str) -> (r: Self)
        ensures
            r@ == (EventDraft { session_id: Some(value@), ..self@ }),
    {
        WhalyticsEventBuilder { session_id: Some(value.to_owned()), ..self }
    }

    /// Sets the time, in seconds since the Unix epoch.
    pub fn time(self, value: u64) -> (r: Self)
        ensures
            r@ == (EventDraft { time: Some(value), ..self@ }),
    {
        WhalyticsEventBuilder { time: Some(value), ..self }
    }

    /// Sets the properties of the occurrence.
    pub fn event_properties(self, value: Properties) -> (r: Self)
        ensures
            r@ == (EventDraft { event_properties: Some(value@), ..self@ }),
    {
        WhalyticsEventBuilder { event_properties: Some(value), ..self }
    }

    /// Sets the properties of the user.
    pub fn user_properties(self, value: Properties) -> (r: Self)
        ensures
            r@ == (EventDraft { user_properties: Some(value@), ..self@ }),
    {
        WhalyticsEventBuilder { user_properties: Some(value), ..self }
    }

    /// The time of an event for which none was set: what `unix_seconds_now` reads off
    /// the clock. Which value that is depends on the clock alone; `build_at` states the rest.
    pub fn default_time(&self) -> (t: u64) {
        unix_seconds_now()
    }

    /// The event that this builder stands for when the clock reads `now`.
    /// The clock is not read.
    pub fn build_at(&self, now: u64) -> (r: WhalyticsEvent)
        ensures
            r@ == self@.built_at(now),
    {
        WhalyticsEvent {
            event: text_or_default(&self.event),
            user_id: text_or_default(&self.user_id),
            session_id: text_or_default(&self.session_id),
            time: match self.time {
                Some(t) => t,
                None => now,
            },
            event_properties: mapping_or_default(&self.event_properties),
            user_properties: mapping_or_default(&self.user_properties),
        }
    }

    /// Builds the event. Every field has a default, so this never fails; the
    /// clock is read only where no time was set.
    pub fn build(&self) -> (r: Result<WhalyticsEvent, BuilderError>)
        ensures
            r is Ok,
            r->Ok_0@ == self@.built_at(r->Ok_0.time),
    {
        let now = match self.time {
            Some(t) => t,
            None => self.default_time(),
        };
        Ok(self.build_at(now))
    }
}

} // verus!
