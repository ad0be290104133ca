//! The client: credentials, the endpoint, and the buffer of events that wait
//! to be sent there.

use crate::buffer::copy_events;
use crate::buffer::events_view;
use crate::buffer::lemma_events_view_push;
use crate::buffer::lemma_events_view_subrange;
use crate::buffer::take_front;
use crate::buffer::taken_count;
use crate::event::text_view;
use crate::event::BuilderError;
use crate::event::EventView;
use crate::event::WhalyticsEvent;
use crate::wire::is_payload;
use crate::wire::payload;
use serde_json::Value;
use vstd::prelude::*;
use vstd::string::StringExecFns;

verus! {

/// The endpoint that a client sends to unless it was given another.
pub open spec fn default_backend_url() -> Seq<char> {
    "https://api.game-events.io/v1/events"@
}

/// What a flush answers when there was nothing to send.
pub open spec fn nothing_to_send() -> Seq<char> {
    "No events to send"@
}

/// The value of the `Authorization` header for an API key.
pub open spec fn bearer(api_key: Seq<char>) -> Seq<char> {
    "Bearer "@ + api_key
}

/// What a client holds.
pub struct ClientView {
    pub api_key: Seq<char>,
    pub backend_url: Seq<char>,
    pub events: Seq<EventView>,
}

/// What a flush asks of its caller, as plain values.
pub enum FlushPlan {
    /// Nothing is sent; the text is the answer of the flush.
    Done(Seq<char>),
    /// One POST of the events, oldest first, as a JSON array.
    Post { url: Seq<char>, authorization: Seq<char>, events: Seq<EventView> },
}

impl ClientView {
    /// This client after one more event was logged.
    pub open spec fn logged(self, e: EventView) -> ClientView {
        ClientView { events: self.events.push(e), ..self }
    }

    /// What a client in this state asks for when it flushes at most
    /// `batch_size` events: nothing on an empty buffer, else one POST of the
    /// oldest events to its endpoint under its key.
    pub open spec fn flush_plan(self, batch_size: nat) -> FlushPlan {
        if self.events.len() == 0 {
            FlushPlan::Done(nothing_to_send())
        } else {
            FlushPlan::Post {
                url: self.backend_url,
                authorization: bearer(self.api_key),
                events: self.events.subrange(
                    0,
                    taken_count(self.events.len(), batch_size) as int,
                ),
            }
        }
    }

    /// This client after such a flush: the events that were handed out are
    /// gone, whatever becomes of the POST.
    pub open spec fn flushed(self, batch_size: nat) -> ClientView {
        ClientView {
            events: self.events.subrange(
                taken_count(self.events.len(), batch_size) as int,
                self.events.len() as int,
            ),
            ..self
        }
    }
}

/// One POST that a flush asks for: where to, under which `Authorization`
/// header, and the events of its body.
#[derive(Debug)]
pub struct Delivery {
    pub url: String,
    pub authorization: String,
    pub events: Vec<WhalyticsEvent>,
}

impl Delivery {
    /// The body of the request: the JSON array of the events' objects, oldest
    /// first.
    pub fn body(&self) -> (v: Value)
        ensures
            is_payload(v, events_view(self.events@)),
    {
        payload(&self.events)
    }
}

/// What the caller of a flush has to do.
#[derive(Debug)]
pub enum FlushAction {
    /// Nothing: the buffer was empty, and this text is the flush's answer.
    Done(String),
    /// Send this; the answer of the flush is the body of the response, or
    /// the failure of the transport. The events are not buffered any more.
    Post(Delivery),
}

impl View for FlushAction {
    type V = FlushPlan;

    open spec fn view(&self) -> FlushPlan {
        match *self {
            FlushAction::Done(text) => FlushPlan::Done(text@),
            FlushAction::Post(d) => FlushPlan::Post {
                url: d.url@,
                authorization: d.authorization@,
                events: events_view(d.events@),
            },
        }
    }
}

/// Buffers events and hands them out in batches for sending.
#[derive(Debug)]
pub struct WhalyticsClient {
    api_key: String,
    backend_url: String,
    events: Vec<WhalyticsEvent>,
}

impl View for WhalyticsClient {
    type V = ClientView;

    closed spec fn view(&self) -> ClientView {
        ClientView {
            api_key: self.api_key@,
            backend_url: self.backend_url@,
            events: events_view(self.events@),
        }
    }
}

impl Clone for WhalyticsClient {
    fn clone(&self) -> (r: Self)
        ensures
            r@ == self@,
    {
        WhalyticsClient {
            api_key: self.api_key.clone(),
            backend_url: self.backend_url.clone(),
            events: copy_events(&self.events),
        }
    }
}

fn default_url() -> (url: String)
    ensures
        url@ == default_backend_url(),
{
    "https://api.game-events.io/v1/events".to_owned()
}

impl WhalyticsClient {
    /// A client for the default endpoint, with an empty buffer.
    pub fn new(api_key: &str) -> (r: Self)
        ensures
            r@ == (ClientView {
                api_key: api_key@,
                backend_url: default_backend_url(),
                events: Seq::empty(),
            }),
    {
        let r = WhalyticsClient {
            api_key: api_key.to_owned(),
            backend_url: default_url(),
            events: Vec::new(),
        };
        proof {
            assert(r@.events =~= Seq::<EventView>::empty());
        }
        r
    }

    /// The key that requests are sent under.
    pub fn api_key(&self) -> (r: &str)
        ensures
            r@ == self@.api_key,
    {
        self.api_key.as_str()
    }

    /// The endpoint that requests are sent to.
    pub fn backend_url(&self) -> (r: &str)
        ensures
            r@ == self@.backend_url,
    {
        self.backend_url.as_str()
    }

    /// Appends an event to the buffer.
    pub fn log_event(&mut self, event: WhalyticsEvent)
        ensures
            final(self)@ == old(self)@.logged(event@),
    {
        proof {
            lemma_events_view_push(self.events@, event);
        }
        self.events.push(event);
    }

    /// How many events are buffered.
    pub fn pending_events_count(&self) -> (r: usize)
        ensures
            r == self@.events.len(),
    {
        self.events.len()
    }

    /// Takes every buffered event out for one POST. On an empty buffer
    /// nothing is to be sent. The events that are handed out do not come
    /// back when the POST fails.
    pub fn flush(&mut self) -> (action: FlushAction)
        ensures
            action@ == old(self)@.flush_plan(old(self)@.events.len()),
            final(self)@ == (ClientView { events: Seq::empty(), ..old(self)@ }),
    {
        let all: usize = self.events.len();
        let action = self.flush_batch(all);
        proof {
            assert(final(self)@.events =~= Seq::<EventView>::empty());
        }
        action
    }

    /// Takes up to `batch_size` of the oldest buffered events out for one
    /// POST; the others stay, in their order. On an empty buffer nothing is
    /// to be sent. The events that are handed out do not come back when the
    /// POST fails.
    pub fn flush_batch(&mut self, batch_size: usize) -> (action: FlushAction)
        ensures
            action@ == old(self)@.flush_plan(batch_size as nat),
            final(self)@ == old(self)@.flushed(batch_size as nat),
    {
        if self.events.len() == 0 {
            proof {
                assert(self@.events.subrange(0, 0) =~= self@.events);
            }
            return FlushAction::Done("No events to send".to_owned());
        }
        proof {
            let n = taken_count(self.events@.len(), batch_size as nat) as int;
            lemma_events_view_subrange(self.events@, 0, n);
            lemma_events_view_subrange(self.events@, n, self.events@.len() as int);
        }
        let events = take_front(&mut self.events, batch_size);
        let authorization = "Bearer ".to_owned().concat(self.api_key.as_str());
        FlushAction::Post(Delivery { url: self.backend_url.clone(), authorization, events })
    }
}

/// Each logged event makes the count of buffered events one more.
pub proof fn lemma_log_event_counts(c: ClientView, e: EventView)
    ensures
        c.logged(e).events.len() == c.events.len() + 1,
        c.logged(e).events.last() == e,
        c.logged(e).events.drop_last() == c.events,
{
    assert(c.logged(e).events.drop_last() =~= c.events);
}

/// A flush of an empty buffer asks for no request, answers that there was
/// nothing to send, and leaves the client as it was.
pub proof fn lemma_flush_of_empty(c: ClientView, batch_size: nat)
    requires
        c.events.len() == 0,
    ensures
        c.flush_plan(batch_size) == FlushPlan::Done(nothing_to_send()),
        c.flushed(batch_size) == c,
{
    assert(c.flushed(batch_size).events =~= c.events);
}

/// A flush of everything in a buffer that is not empty asks for one request
/// with exactly the buffered events, in their order, and leaves none
/// buffered.
pub proof fn lemma_flush_of_all(c: ClientView)
    requires
        c.events.len() > 0,
    ensures
        c.flush_plan(c.events.len()) == (FlushPlan::Post {
            url: c.backend_url,
            authorization: bearer(c.api_key),
            events: c.events,
        }),
        c.flushed(c.events.len()).events.len() == 0,
{
    assert(c.events.subrange(0, c.events.len() as int) =~= c.events);
}

/// A flush of fewer events than are buffered asks for one request with
/// exactly that many of the oldest, and leaves the others buffered in their
/// order.
pub proof fn lemma_flush_of_batch(c: ClientView, batch_size: nat)
    requires
        batch_size < c.events.len(),
    ensures
        c.flush_plan(batch_size) == (FlushPlan::Post {
            url: c.backend_url,
            authorization: bearer(c.api_key),
            events: c.events.subrange(0, batch_size as int),
        }),
        c.flushed(batch_size).events == c.events.subrange(
            batch_size as int,
            c.events.len() as int,
        ),
        c.events.subrange(0, batch_size as int) + c.flushed(batch_size).events == c.events,
        c.flushed(batch_size).events.len() == c.events.len() - batch_size,
{
    assert(c.events.subrange(0, batch_size as int) + c.events.subrange(
        batch_size as int,
        c.events.len() as int,
    ) =~= c.events);
}

/// What has been set on a client builder so far.
pub struct ClientDraft {
    pub api_key: Option<Seq<char>>,
    pub backend_url: Option<Seq<char>>,
}

impl ClientDraft {
    /// The client that a builder in this state builds, once it has a key.
    pub open spec fn built(self) -> ClientView
        recommends
            self.api_key is Some,
    {
        ClientView {
            api_key: self.api_key->0,
            backend_url: match self.backend_url {
                Some(url) => url,
                None => default_backend_url(),
            },
            events: Seq::empty(),
        }
    }
}

/// Builds a `WhalyticsClient` field by field.
#[derive(Debug)]
pub struct WhalyticsClientBuilder {
    api_key: Option<String>,
    backend_url: Option<String>,
}

impl View for WhalyticsClientBuilder {
    type V = ClientDraft;

    closed spec fn view(&self) -> ClientDraft {
        ClientDraft {
            api_key: text_view(self.api_key),
            backend_url: text_view(self.backend_url),
        }
    }
}

impl Default for WhalyticsClientBuilder {
    fn default() -> (r: Self)
        ensures
            r@ == (ClientDraft { api_key: None, backend_url: None }),
    {
        WhalyticsClientBuilder { api_key: None, backend_url: None }
    }
}

impl WhalyticsClientBuilder {
    /// Sets the key.
    pub fn api_key(self, value: &str) -> (r: Self)
        ensures
            r@ == (ClientDraft { api_key: Some(value@), ..self@ }),
    {
        WhalyticsClientBuilder { api_key: Some(value.to_owned()), ..self }
    }

    /// Sets the endpoint.
    pub fn backend_url(self, value: &str) -> (r: Self)
        ensures
            r@ == (ClientDraft { backend_url: Some(value@), ..self@ }),
    {
        WhalyticsClientBuilder { backend_url: Some(value.to_owned()), ..self }
    }

    /// Builds the client: it fails if and only if no key was set, and then
    /// names the field `api_key`.
    pub fn build(&self) -> (r: Result<WhalyticsClient, BuilderError>)
        ensures
            match r {
                Ok(c) => self@.api_key is Some && c@ == self@.built(),
                Err(BuilderError::UninitializedField(field)) => self@.api_key is None && field@
                    == "api_key"@,
            },
    {
        let api_key = match &self.api_key {
            Some(key) => key.clone(),
            None => {
                return Err(BuilderError::UninitializedField("api_key"));
            },
        };
        let backend_url = match &self.backend_url {
            Some(url) => url.clone(),
            None => default_url(),
        };
        let c = WhalyticsClient { api_key, backend_url, events: Vec::new() };
        proof {
            assert(c@.events =~= Seq::<EventView>::empty());
        }
        Ok(c)
    }
}

} // verus!
