//! Ordered buffers of events: the oldest event stands first.

use crate::event::EventView;
use crate::event::WhalyticsEvent;
use vstd::prelude::*;

verus! {

/// What a buffer of events says, event by event.
pub open spec fn events_view(s: Seq<WhalyticsEvent>) -> Seq<EventView> {
    s.map_values(|e: WhalyticsEvent| e@)
}

/// How many events leave a buffer of `len` events when at most `max_count`
/// are asked for.
pub open spec fn taken_count(len: nat, max_count: nat) -> nat {
    if len < max_count {
        len
    } else {
        max_count
    }
}

/// Removes up to `max_count` events from the front of `events` and returns
/// them, oldest first; what is left keeps its order.
pub fn take_front(events: &mut Vec<WhalyticsEvent>, max_count: usize) -> (taken: Vec<
    WhalyticsEvent,
>)
    ensures
        taken@ == old(events)@.subrange(0, taken_count(old(events)@.len(), max_count as nat) as int),
        final(events)@ == old(events)@.subrange(
            taken_count(old(events)@.len(), max_count as nat) as int,
            old(events)@.len() as int,
        ),
{
    let count: usize = if events.len() < max_count {
        events.len()
    } else {
        max_count
    };
    let mut taken = events.split_off(count);
    core::mem::swap(events, &mut taken);
    taken
}

/// A copy of a buffer that says the same, event by event.
pub fn copy_events(events: &Vec<WhalyticsEvent>) -> (copy: Vec<WhalyticsEvent>)
    ensures
        events_view(copy@) == events_view(events@),
{
    let mut copy: Vec<WhalyticsEvent> = Vec::new();
    let mut i: usize = 0;
    while i < events.len()
        invariant
            i <= events@.len(),
            events_view(copy@) == events_view(events@.subrange(0, i as int)),
        decreases events@.len() - i,
    {
        let ghost before = copy@;
        let e = events[i].clone();
        copy.push(e);
        proof {
            let prefix = events@.subrange(0, i as int);
            lemma_events_view_push(before, e);
            lemma_events_view_push(prefix, events@[i as int]);
            assert(prefix.push(events@[i as int]) =~= events@.subrange(0, i + 1));
        }
        i += 1;
    }
    proof {
        assert(events@.subrange(0, i as int) =~= events@);
    }
    copy
}

/// Taking the front of a buffer and what is taken say the same of the events
/// as the two parts of what the buffer said.
pub proof fn lemma_events_view_subrange(s: Seq<WhalyticsEvent>, from: int, to: int)
    requires
        0 <= from <= to <= s.len(),
    ensures
        events_view(s.subrange(from, to)) == events_view(s).subrange(from, to),
{
    assert(events_view(s.subrange(from, to)) =~= events_view(s).subrange(from, to));
}

/// Appending an event to a buffer appends what it says.
pub proof fn lemma_events_view_push(s: Seq<WhalyticsEvent>, e: WhalyticsEvent)
    ensures
        events_view(s.push(e)) == events_view(s).push(e@),
{
    assert(events_view(s.push(e)) =~= events_view(s).push(e@));
}

} // verus!
