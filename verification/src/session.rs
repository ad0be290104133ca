//! Sessions: events that share a user, a session and the user's properties.

use crate::buffer::copy_events;
use crate::buffer::events_view;
use crate::buffer::lemma_events_view_push;
use crate::buffer::lemma_events_view_subrange;
use crate::buffer::take_front;
use crate::buffer::taken_count;
use crate::clock::unix_seconds_now;
use crate::event::mapping_view;
use crate::event::text_view;
use crate::event::BuilderError;
use crate::event::EventView;
use crate::event::WhalyticsEvent;
use crate::json::json_string;
use crate::properties::Properties;
use serde_json::Value;
use vstd::prelude::*;

verus! {

/// The property under which an event may name another user than its
/// session's.
pub open spec fn user_id_key() -> Seq<char> {
    "user_id"@
}

/// The property under which an event may name another session than the one
/// that made it.
pub open spec fn session_id_key() -> Seq<char> {
    "session_id"@
}

/// How long the text of a generated identifier is.
pub open spec fn generated_id_len() -> nat {
    36
}

/// The text under `key` in `props`, where `key` has a value there and the
/// value is a JSON string.
pub open spec fn text_under(props: Map<Seq<char>, Value>, key: Seq<char>) -> Option<Seq<char>> {
    if props.contains_key(key) {
        json_string(props[key])
    } else {
        None
    }
}

/// The identifier of an event: the text under `key` in the event's
/// properties where there is one, else the session's own.
pub open spec fn resolved_identifier(
    props: Map<Seq<char>, Value>,
    key: Seq<char>,
    own: Seq<char>,
) -> Seq<char> {
    match text_under(props, key) {
        Some(s) => s,
        None => own,
    }
}

/// What a session holds.
pub struct SessionView {
    pub user_id: Seq<char>,
    pub session_id: Seq<char>,
    pub events: Seq<EventView>,
    pub user_properties: Map<Seq<char>, Value>,
}

impl SessionView {
    /// The event that a session in this state makes of a name and the
    /// event's properties at the time `now`.
    pub open spec fn event_of(
        self,
        name: Seq<char>,
        props: Map<Seq<char>, Value>,
        now: u64,
    ) -> EventView {
        EventView {
            event: name,
            user_id: resolved_identifier(props, user_id_key(), self.user_id),
            session_id: resolved_identifier(props, session_id_key(), self.session_id),
            time: now,
            event_properties: props,
            user_properties: self.user_properties,
        }
    }

    /// This session after it has made and buffered such an event.
    pub open spec fn pushed(
        self,
        name: Seq<char>,
        props: Map<Seq<char>, Value>,
        now: u64,
    ) -> SessionView {
        SessionView { events: self.events.push(self.event_of(name, props, now)), ..self }
    }

    /// This session after one user property was set.
    pub open spec fn with_user_property(self, key: Seq<char>, value: Value) -> SessionView {
        SessionView { user_properties: self.user_properties.insert(key, value), ..self }
    }

    /// This session after all user properties were replaced.
    pub open spec fn with_user_properties(self, props: Map<Seq<char>, Value>) -> SessionView {
        SessionView { user_properties: props, ..self }
    }

    /// The events that leave this session when up to `max_count` are taken.
    pub open spec fn taken(self, max_count: nat) -> Seq<EventView> {
        self.events.subrange(0, taken_count(self.events.len(), max_count) as int)
    }

    /// This session after up to `max_count` events were taken from it.
    pub open spec fn drained(self, max_count: nat) -> SessionView {
        SessionView {
            events: self.events.subrange(
                taken_count(self.events.len(), max_count) as int,
                self.events.len() as int,
            ),
            ..self
        }
    }
}

/// `uuid::Uuid::new_v4` draws a random identifier, and its `to_string`
/// writes it in the hyphenated form. Trusted of the text: it is 36
/// characters long. Nothing is promised of which identifier it is.
#[verifier::external_body]
fn generated_identifier() -> (id: String)
    ensures
        id@.len() == generated_id_len(),
{
    uuid::Uuid::new_v4().to_string()
}

/// The identifier that an event gets: `given` where the event's properties
/// gave one, else `own`.
pub fn choose_identifier(given: Option<&str>, own: &str) -> (id: String)
    ensures
        id@ == match given {
            Some(s) => s@,
            None => own@,
        },
{
    match given {
        Some(s) => s.to_owned(),
        None => own.to_owned(),
    }
}

/// The identifier of an event with the properties `props`, made by a session
/// whose own identifier is `own`.
pub fn resolve_identifier(props: &Properties, key: &str, own: &str) -> (id: String)
    ensures
        id@ == resolved_identifier(props@, key@, own@),
{
    let given = match props.get(key) {
        Some(v) => v.as_str(),
        None => None,
    };
    choose_identifier(given, own)
}

/// A group of events of one user in one session, with the user's properties
/// that each new event takes along.
#[derive(Debug)]
pub struct WhalyticsSession {
    user_id: String,
    session_id: String,
    events: Vec<WhalyticsEvent>,
    user_properties: Properties,
}

impl View for WhalyticsSession {
    type V = SessionView;

    closed spec fn view(&self) -> SessionView {
        SessionView {
            user_id: self.user_id@,
            session_id: self.session_id@,
            events: events_view(self.events@),
            user_properties: self.user_properties@,
        }
    }
}

impl Clone for WhalyticsSession {
    fn clone(&self) -> (r: Self)
        ensures
            r@ == self@,
    {
        WhalyticsSession {
            user_id: self.user_id.clone(),
            session_id: self.session_id.clone(),
            events: copy_events(&self.events),
            user_properties: self.user_properties.clone(),
        }
    }
}

impl Default for WhalyticsSession {
    /// A session of a new user: both identifiers are generated.
    fn default() -> (r: Self)
        ensures
            r@.user_id.len() == generated_id_len(),
            r@.session_id.len() == generated_id_len(),
            r@.events == Seq::<EventView>::empty(),
            r@.user_properties == Map::<Seq<char>, Value>::empty(),
    {
        let user_id = generated_identifier();
        let session_id = generated_identifier();
        let r = WhalyticsSession {
            user_id,
            session_id,
            events: Vec::new(),
            user_properties: Properties::new(),
        };
        proof {
            assert(r@.events =~= Seq::<EventView>::empty());
        }
        r
    }
}

impl WhalyticsSession {
    /// A session of the given user, with no events and no user properties.
    pub fn new(user_id: &str, session_id: &str) -> (r: Self)
        ensures
            r@ == (SessionView {
                user_id: user_id@,
                session_id: session_id@,
                events: Seq::empty(),
                user_properties: Map::empty(),
            }),
    {
        let r = WhalyticsSession {
            user_id: user_id.to_owned(),
            session_id: session_id.to_owned(),
            events: Vec::new(),
            user_properties: Properties::new(),
        };
        proof {
            assert(r@.events =~= Seq::<EventView>::empty());
        }
        r
    }

    /// Makes an event with the time `now` and appends it to the buffer. The
    /// clock is not read.
    pub fn push_event_at(&mut self, event: &str, event_properties: Properties, now: u64)
        ensures
            final(self)@ == old(self)@.pushed(event@, event_properties@, now),
    {
        proof {
            reveal_strlit("user_id");
            reveal_strlit("session_id");
        }
        let user_id = resolve_identifier(&event_properties, "user_id", self.user_id.as_str());
        let session_id = resolve_identifier(
            &event_properties,
            "session_id",
            self.session_id.as_str(),
        );
        let made = WhalyticsEvent {
            event: event.to_owned(),
            user_id,
            session_id,
            time: now,
            event_properties,
            user_properties: self.user_properties.clone(),
        };
        proof {
            lemma_events_view_push(self.events@, made);
        }
        self.events.push(made);
    }

    /// Makes an event of the name and the event's properties and appends it
    /// to the buffer. Its identifiers are those that the properties give as
    /// text under `user_id` and `session_id`, else the session's; its user
    /// properties are the session's as they are now; its time is the clock's.
    pub fn push_event(&mut self, event: &str, event_properties: Properties)
        ensures
            final(self)@.events.len() == old(self)@.events.len() + 1,
            final(self)@ == old(self)@.pushed(
                event@,
                event_properties@,
                final(self)@.events.last().time,
            ),
    {
        let now = unix_seconds_now();
        self.push_event_at(event, event_properties, now);
    }

    /// Sets one user property, in place of any value that it had.
    pub fn set_user_property(&mut self, key: &str, value: Value)
        ensures
            final(self)@ == old(self)@.with_user_property(key@, value),
    {
        let _ = self.user_properties.insert(key.to_owned(), value);
    }

    /// Puts `user_properties` in place of all user properties.
    pub fn set_user_properties(&mut self, user_properties: Properties)
        ensures
            final(self)@ == old(self)@.with_user_properties(user_properties@),
    {
        self.user_properties = user_properties;
    }

    /// The user of this session.
    pub fn user_id(&self) -> (r: &str)
        ensures
            r@ == self@.user_id,
    {
        self.user_id.as_str()
    }

    /// The identifier of this session.
    pub fn session_id(&self) -> (r: &str)
        ensures
            r@ == self@.session_id,
    {
        self.session_id.as_str()
    }

    /// The user properties that the next event will take along.
    pub fn user_properties(&self) -> (r: &Properties)
        ensures
            r@ == self@.user_properties,
    {
        &self.user_properties
    }

    /// How many events are buffered.
    pub fn pending_events_count(&self) -> (r: usize)
        ensures
            r == self@.events.len(),
    {
        self.events.len()
    }

    /// Removes up to `max_count` events from the front of the buffer and
    /// returns them, oldest first.
    pub fn take_events(&mut self, max_count: usize) -> (taken: Vec<WhalyticsEvent>)
        ensures
            events_view(taken@) == old(self)@.taken(max_count as nat),
            taken@.len() == taken_count(old(self)@.events.len(), max_count as nat),
            final(self)@ == old(self)@.drained(max_count as nat),
    {
        proof {
            let n = taken_count(self.events@.len(), max_count as nat) as int;
            lemma_events_view_subrange(self.events@, 0, n);
            lemma_events_view_subrange(self.events@, n, self.events@.len() as int);
        }
        take_front(&mut self.events, max_count)
    }
}

/// Taking events hands out the oldest, as many as were asked for or all that
/// there are, and leaves the others in their order: what is taken, followed
/// by what is left, is what was buffered. From an empty buffer nothing is
/// taken.
pub proof fn lemma_take_events_is_fifo(s: SessionView, max_count: nat)
    ensures
        s.taken(max_count).len() == taken_count(s.events.len(), max_count),
        s.taken(max_count).len() <= max_count,
        s.taken(max_count) + s.drained(max_count).events == s.events,
        s.events.len() == 0 ==> s.taken(max_count) == Seq::<EventView>::empty(),
        s.drained(max_count).user_id == s.user_id,
        s.drained(max_count).session_id == s.session_id,
        s.drained(max_count).user_properties == s.user_properties,
{
    assert(s.taken(max_count) + s.drained(max_count).events =~= s.events);
    if s.events.len() == 0 {
        assert(s.taken(max_count) =~= Seq::<EventView>::empty());
    }
}

/// An event whose properties hold a text under `user_id` belongs to that
/// user, not to the session's; likewise for `session_id`. Without such a
/// text the session's identifier stands. The properties pass unchanged.
pub proof fn lemma_identifier_precedence(
    s: SessionView,
    name: Seq<char>,
    props: Map<Seq<char>, Value>,
    now: u64,
)
    ensures
        text_under(props, user_id_key()) matches Some(id) ==> s.event_of(name, props, now).user_id
            == id,
        text_under(props, user_id_key()) is None ==> s.event_of(name, props, now).user_id
            == s.user_id,
        text_under(props, session_id_key()) matches Some(id) ==> s.event_of(
            name,
            props,
            now,
        ).session_id == id,
        text_under(props, session_id_key()) is None ==> s.event_of(name, props, now).session_id
            == s.session_id,
        s.event_of(name, props, now).event_properties == props,
        s.pushed(name, props, now).user_id == s.user_id,
        s.pushed(name, props, now).session_id == s.session_id,
{
}

/// An event takes along the user properties that its session has when the
/// event is made, and keeps them: a user property that is set afterwards
/// changes no event that was made before.
pub proof fn lemma_user_properties_are_a_snapshot(
    s: SessionView,
    key: Seq<char>,
    value: Value,
    name: Seq<char>,
    props: Map<Seq<char>, Value>,
    now: u64,
    later_key: Seq<char>,
    later_value: Value,
)
    ensures
        s.with_user_property(key, value).pushed(name, props, now).events.last().user_properties
            == s.user_properties.insert(key, value),
        s.with_user_property(key, value).pushed(
            name,
            props,
            now,
        ).events.last().user_properties.contains_key(key),
        s.with_user_property(key, value).pushed(name, props, now).events.last().user_properties[key]
            == value,
        s.pushed(name, props, now).with_user_property(later_key, later_value).events == s.pushed(
            name,
            props,
            now,
        ).events,
        s.pushed(name, props, now).with_user_properties(
            Map::<Seq<char>, Value>::empty(),
        ).events == s.pushed(name, props, now).events,
{
}

/// What has been set on a session builder so far.
pub struct SessionDraft {
    pub user_id: Option<Seq<char>>,
    pub session_id: Option<Seq<char>>,
    pub events: Option<Seq<EventView>>,
    pub user_properties: Option<Map<Seq<char>, Value>>,
}

impl SessionDraft {
    /// Nothing set.
    pub open spec fn unset() -> SessionDraft {
        SessionDraft { user_id: None, session_id: None, events: None, user_properties: None }
    }

    /// Whether `s` is a session that a builder in this state may build: what
    /// was set is taken, an unset identifier is a generated one, and unset
    /// events and user properties are empty.
    pub open spec fn builds(self, s: SessionView) -> bool {
        &&& match self.user_id {
            Some(id) => s.user_id == id,
            None => s.user_id.len() == generated_id_len(),
        }
        &&& match self.session_id {
            Some(id) => s.session_id == id,
            None => s.session_id.len() == generated_id_len(),
        }
        &&& s.events == match self.events {
            Some(e) => e,
            None => Seq::empty(),
        }
        &&& s.user_properties == match self.user_properties {
            Some(p) => p,
            None => Map::empty(),
        }
    }
}

/// Builds a `WhalyticsSession` field by field.
#[derive(Debug)]
pub struct WhalyticsSessionBuilder {
    user_id: Option<String>,
    session_id: Option<String>,
    events: Option<Vec<WhalyticsEvent>>,
    user_properties: Option<Properties>,
}

impl View for WhalyticsSessionBuilder {
    type V = SessionDraft;

    closed spec fn view(&self) -> SessionDraft {
        SessionDraft {
            user_id: text_view(self.user_id),
            session_id: text_view(self.session_id),
            events: match self.events {
                Some(e) => Some(events_view(e@)),
                None => None,
            },
            user_properties: mapping_view(self.user_properties),
        }
    }
}

impl Default for WhalyticsSessionBuilder {
    fn default() -> (r: Self)
        ensures
            r@ == SessionDraft::unset(),
    {
        WhalyticsSessionBuilder {
            user_id: None,
            session_id: None,
            events: None,
            user_properties: None,
        }
    }
}

fn identifier_or_generated(id: &Option<String>) -> (r: String)
    ensures
        match *id {
            Some(s) => r@ == s@,
            None => r@.len() == generated_id_len(),
        },
{
    match id {
        Some(s) => s.clone(),
        None => generated_identifier(),
    }
}

impl WhalyticsSessionBuilder {
    /// Sets the user.
    pub fn user_id(self, value: &str) -> (r: Self)
        ensures
            r@ == (SessionDraft { user_id: Some(value@), ..self@ }),
    {
        WhalyticsSessionBuilder { user_id: Some(value.to_owned()), ..self }
    }

    /// Sets the identifier of the session.
    pub fn session_id(self, value: &str) -> (r: Self)
        ensures
            r@ == (SessionDraft { session_id: Some(value@), ..self@ }),
    {
        WhalyticsSessionBuilder { session_id: Some(value.to_owned()), ..self }
    }

    /// Sets the events that the session starts with.
    pub fn events(self, value: Vec<WhalyticsEvent>) -> (r: Self)
        ensures
            r@ == (SessionDraft { events: Some(events_view(value@)), ..self@ }),
    {
        WhalyticsSessionBuilder { events: Some(value), ..self }
    }

    /// Sets the user properties that the session starts with.
    pub fn user_properties(self, value: Properties) -> (r: Self)
        ensures
            r@ == (SessionDraft { user_properties: Some(value@), ..self@ }),
    {
        WhalyticsSessionBuilder { user_properties: Some(value), ..self }
    }

    /// Builds the session. Every field has a default, so this never fails;
    /// an identifier is generated only where none was set.
    pub fn build(&self) -> (r: Result<WhalyticsSession, BuilderError>)
        ensures
            r is Ok,
            self@.builds(r->Ok_0@),
    {
        let user_id = identifier_or_generated(&self.user_id);
        let session_id = identifier_or_generated(&self.session_id);
        let events = match &self.events {
            Some(e) => copy_events(e),
            None => Vec::new(),
        };
        let user_properties = match &self.user_properties {
            Some(p) => p.clone(),
            None => Properties::new(),
        };
        let s = WhalyticsSession { user_id, session_id, events, user_properties };
        proof {
            if self.events is None {
                assert(s@.events =~= Seq::<EventView>::empty());
            }
        }
        Ok(s)
    }
}

} // verus!
