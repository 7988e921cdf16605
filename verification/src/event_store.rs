//! The stored raw events of a game: an ordered log in which an event is
//! replaced by a later one of the same id.

use vstd::prelude::*;
use crate::provider::{LiveEvent, LiveEventView, PlayByPlay, PlayByPlayView};
use crate::text::str_eq;
use crate::views::{lemma_views_push, lemma_views_update, views};

verus! {

/// The index of the first of `events` with the id `id`, or the length of
/// `events` where there is none.
pub open spec fn index_of_id(events: Seq<LiveEventView>, id: Seq<char>) -> int
    decreases events.len(),
{
    if events.len() == 0 {
        0
    } else if events[0].event_id() == id {
        0
    } else {
        1 + index_of_id(events.drop_first(), id)
    }
}

/// Whether one of `events` has the id `id`.
pub open spec fn holds_id(events: Seq<LiveEventView>, id: Seq<char>) -> bool {
    index_of_id(events, id) < events.len()
}

/// The log after `event` is stored: `event` replaces the first stored event
/// of its id, or is put at the end where there is none.
pub open spec fn stored(events: Seq<LiveEventView>, event: LiveEventView) -> Seq<LiveEventView> {
    if holds_id(events, event.event_id()) {
        events.update(index_of_id(events, event.event_id()), event)
    } else {
        events.push(event)
    }
}

/// The log after each of `incoming` is stored in turn.
pub open spec fn stored_all(events: Seq<LiveEventView>, incoming: Seq<LiveEventView>) -> Seq<
    LiveEventView,
>
    decreases incoming.len(),
{
    if incoming.len() == 0 {
        events
    } else {
        stored(stored_all(events, incoming.drop_last()), incoming.last())
    }
}

/// Those of `incoming` that were new to the log at the time they were stored,
/// in their order.
pub open spec fn fresh_of(events: Seq<LiveEventView>, incoming: Seq<LiveEventView>) -> Seq<
    LiveEventView,
>
    decreases incoming.len(),
{
    if incoming.len() == 0 {
        Seq::empty()
    } else {
        let before = stored_all(events, incoming.drop_last());
        let earlier = fresh_of(events, incoming.drop_last());
        if holds_id(before, incoming.last().event_id()) {
            earlier
        } else {
            earlier.push(incoming.last())
        }
    }
}

/// The index of the first of `events` with the number `id`, or the length of
/// `events` where there is none.
pub open spec fn index_of_number(events: Seq<PlayByPlayView>, id: i32) -> int
    decreases events.len(),
{
    if events.len() == 0 {
        0
    } else if events[0].eventId == id {
        0
    } else {
        1 + index_of_number(events.drop_first(), id)
    }
}

/// The play-by-play log after `event` is stored: `event` replaces the first
/// stored entry of its number, or is put at the end where there is none.
pub open spec fn stored_older(events: Seq<PlayByPlayView>, event: PlayByPlayView) -> Seq<
    PlayByPlayView,
> {
    if index_of_number(events, event.eventId) < events.len() {
        events.update(index_of_number(events, event.eventId), event)
    } else {
        events.push(event)
    }
}

proof fn lemma_index_of_id_prefix(events: Seq<LiveEventView>, id: Seq<char>, i: int)
    requires
        0 <= i <= events.len(),
        forall|j: int| 0 <= j < i ==> (#[trigger] events[j]).event_id() != id,
    ensures
        i <= index_of_id(events, id) <= events.len(),
        i < events.len() && events[i].event_id() == id ==> index_of_id(events, id) == i,
    decreases events.len(),
{
    if events.len() > 0 {
        let rest = events.drop_first();
        if i > 0 {
            assert(events[0].event_id() != id);
            assert forall|j: int| 0 <= j < i - 1 implies (#[trigger] rest[j]).event_id() != id by {
                assert(rest[j] == events[j + 1]);
            }
            lemma_index_of_id_prefix(rest, id, i - 1);
        } else if events[0].event_id() != id {
            lemma_index_of_id_prefix(rest, id, 0);
        }
    }
}

proof fn lemma_index_of_number_prefix(events: Seq<PlayByPlayView>, id: i32, i: int)
    requires
        0 <= i <= events.len(),
        forall|j: int| 0 <= j < i ==> (#[trigger] events[j]).eventId != id,
    ensures
        i <= index_of_number(events, id) <= events.len(),
        i < events.len() && events[i].eventId == id ==> index_of_number(events, id) == i,
    decreases events.len(),
{
    if events.len() > 0 {
        let rest = events.drop_first();
        if i > 0 {
            assert(events[0].eventId != id);
            assert forall|j: int| 0 <= j < i - 1 implies (#[trigger] rest[j]).eventId != id by {
                assert(rest[j] == events[j + 1]);
            }
            lemma_index_of_number_prefix(rest, id, i - 1);
        } else if events[0].eventId != id {
            lemma_index_of_number_prefix(rest, id, 0);
        }
    }
}

/// The index that `index_of_id` gives holds the id, where it is an index,
/// and no index before it does.
pub proof fn lemma_index_of_id(events: Seq<LiveEventView>, id: Seq<char>)
    ensures
        0 <= index_of_id(events, id) <= events.len(),
        holds_id(events, id) ==> events[index_of_id(events, id)].event_id() == id,
        forall|j: int| 0 <= j < index_of_id(events, id) ==> (#[trigger] events[j]).event_id() != id,
    decreases events.len(),
{
    if events.len() > 0 && events[0].event_id() != id {
        let rest = events.drop_first();
        lemma_index_of_id(rest, id);
        assert forall|j: int| 0 <= j < index_of_id(events, id) implies (
        #[trigger] events[j]).event_id() != id by {
            if j > 0 {
                assert(events[j] == rest[j - 1]);
            }
        }
    }
}

/// Storing an event keeps the place of the first event of every id that was
/// stored before, and gives the stored event's id a place.
pub proof fn lemma_stored_holds(events: Seq<LiveEventView>, event: LiveEventView)
    ensures
        holds_id(stored(events, event), event.event_id()),
        index_of_id(stored(events, event), event.event_id()) == index_of_id(
            events,
            event.event_id(),
        ),
{
    let id = event.event_id();
    let after = stored(events, event);
    let at = index_of_id(events, id);
    lemma_index_of_id(events, id);
    assert forall|j: int| 0 <= j < at implies (#[trigger] after[j]).event_id() != id by {
        assert(after[j] == events[j]);
    }
    lemma_index_of_id_prefix(after, id, at);
}

/// An event that arrives a second time is not new, and the log keeps its
/// size.
pub proof fn lemma_store_twice(events: Seq<LiveEventView>, event: LiveEventView)
    ensures
        holds_id(stored(events, event), event.event_id()),
        stored(stored(events, event), event).len() == stored(events, event).len(),
        stored(stored(events, event), event) == stored(events, event),
{
    lemma_stored_holds(events, event);
    lemma_index_of_id(events, event.event_id());
    assert(stored(stored(events, event), event) =~= stored(events, event));
}

/// The stored raw events of the games.
pub struct EventService;

impl EventService {
    /// Stores `event` in the log of its game and says whether it was new.
    pub fn store_raw(events: &mut Vec<LiveEvent>, event: &LiveEvent) -> (new_event: bool)
        ensures
            new_event == !holds_id(views(old(events)@), event@.event_id()),
            views(final(events)@) == stored(views(old(events)@), event@),
    {
        let id = event.get_event_id();
        let ghost before = views(events@);
        let mut i: usize = 0;
        while i < events.len()
            invariant
                i <= events.len(),
                events@ == old(events)@,
                before == views(events@),
                id@ == event@.event_id(),
                forall|j: int| 0 <= j < i ==> (#[trigger] before[j]).event_id() != id@,
            decreases events.len() - i,
        {
            proof {
                lemma_index_of_id_prefix(before, id@, i as int);
            }
            if str_eq(events[i].get_event_id().as_str(), id.as_str()) {
                let copy = event.clone();
                proof {
                    lemma_views_update(events@, i as int, copy);
                }
                events.set(i, copy);
                return false;
            }
            i += 1;
        }
        proof {
            lemma_index_of_id_prefix(before, id@, i as int);
        }
        let copy = event.clone();
        proof {
            lemma_views_push(events@, copy);
        }
        events.push(copy);
        true
    }

    /// Stores each of `events` in turn in the log `stored_events` and returns
    /// those that were new.
    pub fn store_raws(stored_events: &mut Vec<LiveEvent>, events: &Vec<LiveEvent>) -> (new_event:
        Vec<LiveEvent>)
        ensures
            views(final(stored_events)@) == stored_all(views(old(stored_events)@), views(events@)),
            views(new_event@) == fresh_of(views(old(stored_events)@), views(events@)),
    {
        let mut new_event: Vec<LiveEvent> = Vec::new();
        let ghost start = views(stored_events@);
        let ghost incoming = views(events@);
        assert(incoming.take(0) =~= Seq::<LiveEventView>::empty());
        assert(views(new_event@) =~= Seq::<LiveEventView>::empty());
        let mut i: usize = 0;
        while i < events.len()
            invariant
                i <= events.len(),
                incoming == views(events@),
                start == views(old(stored_events)@),
                views(stored_events@) == stored_all(start, incoming.take(i as int)),
                views(new_event@) == fresh_of(start, incoming.take(i as int)),
            decreases events.len() - i,
        {
            proof {
                assert(incoming.take(i + 1).drop_last() =~= incoming.take(i as int));
                assert(incoming.take(i + 1).last() == events@[i as int]@);
            }
            let was_new = EventService::store_raw(stored_events, &events[i]);
            if was_new {
                let copy = events[i].clone();
                proof {
                    lemma_views_push(new_event@, copy);
                }
                new_event.push(copy);
            }
            i += 1;
        }
        assert(incoming.take(events.len() as int) =~= incoming);
        new_event
    }

    /// Stores `event` in the play-by-play log of its game and says whether it
    /// was new.
    pub fn store_older_raw(events: &mut Vec<PlayByPlay>, event: &PlayByPlay) -> (new_event: bool)
        ensures
            new_event == (index_of_number(views(old(events)@), event.eventId) >= old(
                events,
            )@.len()),
            views(final(events)@) == stored_older(views(old(events)@), event@),
    {
        let ghost before = views(events@);
        let mut i: usize = 0;
        while i < events.len()
            invariant
                i <= events.len(),
                events@ == old(events)@,
                before == views(events@),
                forall|j: int| 0 <= j < i ==> (#[trigger] before[j]).eventId != event.eventId,
            decreases events.len() - i,
        {
            proof {
                lemma_index_of_number_prefix(before, event.eventId, i as int);
            }
            if events[i].eventId == event.eventId {
                let copy = event.clone();
                proof {
                    lemma_views_update(events@, i as int, copy);
                }
                events.set(i, copy);
                return false;
            }
            i += 1;
        }
        proof {
            lemma_index_of_number_prefix(before, event.eventId, i as int);
        }
        let copy = event.clone();
        proof {
            lemma_views_push(events@, copy);
        }
        events.push(copy);
        true
    }

    /// The stored events of the live stream as clients see them.
    pub fn read(stored_events: &Vec<LiveEvent>) -> (events: Vec<crate::event::ApiGameEvent>)
        ensures
            views(events@) == views(stored_events@).map_values(|e: LiveEventView| e.to_api_event()),
    {
        let mut events: Vec<crate::event::ApiGameEvent> = Vec::new();
        let mut i: usize = 0;
        while i < stored_events.len()
            invariant
                i <= stored_events.len(),
                events.len() == i,
                forall|j: int| 0 <= j < i ==> (#[trigger] events@[j])@ == stored_events@[j]@.to_api_event(),
            decreases stored_events.len() - i,
        {
            events.push(crate::event::ApiGameEvent::from_live_event(&stored_events[i]));
            i += 1;
        }
        assert(views(events@) =~= views(stored_events@).map_values(
            |e: LiveEventView| e.to_api_event(),
        ));
        events
    }
}

} // verus!
