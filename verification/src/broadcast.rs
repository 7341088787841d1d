//! What holds of a session's event relay over every sequence of events,
//! lags and failures that its subscription may yield.
use crate::event::event_text;
use crate::ws::{relay_step, EventRelay, RelayActionView, RelayEventView};
use vstd::prelude::*;

verus! {

/// The relay after it has taken in `events`, one after the other.
pub open spec fn relay_after(relay: EventRelay, events: Seq<RelayEventView>) -> EventRelay
    decreases events.len(),
{
    if events.len() == 0 {
        relay
    } else {
        relay_after(relay_step(relay, events[0]).0, events.skip(1))
    }
}

/// The text frames that the relay writes while it takes in `events`, in the
/// order of the events.
pub open spec fn relay_frames(relay: EventRelay, events: Seq<RelayEventView>) -> Seq<Seq<char>>
    decreases events.len(),
{
    if events.len() == 0 {
        Seq::empty()
    } else {
        let rest = relay_frames(relay_step(relay, events[0]).0, events.skip(1));
        match relay_step(relay, events[0]).1 {
            RelayActionView::Write(text) => seq![text] + rest,
            _ => rest,
        }
    }
}

/// Taking in one sequence and then another is taking in both in a row.
pub proof fn relay_run_splits(
    relay: EventRelay,
    first: Seq<RelayEventView>,
    second: Seq<RelayEventView>,
)
    ensures
        relay_after(relay, first + second) == relay_after(relay_after(relay, first), second),
        relay_frames(relay, first + second) == relay_frames(relay, first) + relay_frames(
            relay_after(relay, first),
            second,
        ),
    decreases first.len(),
{
    if first.len() == 0 {
        assert(first + second =~= second);
    } else {
        let next = relay_step(relay, first[0]).0;
        assert((first + second)[0] == first[0]);
        assert((first + second).skip(1) =~= first.skip(1) + second);
        relay_run_splits(next, first.skip(1), second);
    }
}

/// What a relay writes does not depend on how far it has lagged.
pub proof fn frames_ignore_lag_count(a: EventRelay, b: EventRelay, events: Seq<RelayEventView>)
    requires
        a.running == b.running,
    ensures
        relay_frames(a, events) == relay_frames(b, events),
        relay_after(a, events).running == relay_after(b, events).running,
    decreases events.len(),
{
    if events.len() > 0 {
        frames_ignore_lag_count(
            relay_step(a, events[0]).0,
            relay_step(b, events[0]).0,
            events.skip(1),
        );
    }
}

/// A lag is survived. A running relay that is told of a lag keeps running,
/// writes nothing for it, and counts the events that were dropped.
pub proof fn lag_is_survived(relay: EventRelay, missed: nat)
    requires
        relay.running,
    ensures
        relay_step(relay, RelayEventView::Lagged(missed)).0.running,
        relay_step(relay, RelayEventView::Lagged(missed)).1 == RelayActionView::Continue,
        relay_step(relay, RelayEventView::Lagged(missed)).0.lagged >= relay.lagged,
        relay.lagged + missed <= u64::MAX ==> relay_step(
            relay,
            RelayEventView::Lagged(missed),
        ).0.lagged == relay.lagged + missed,
{
}

/// A lag replays nothing and loses nothing that was received. Whatever a
/// relay takes in before and after a lag, it writes the same frames, and is
/// as much alive at the end, as if the lag had not been reported.
pub proof fn lag_changes_no_delivery(
    relay: EventRelay,
    before: Seq<RelayEventView>,
    missed: nat,
    after: Seq<RelayEventView>,
)
    ensures
        relay_frames(relay, before + seq![RelayEventView::Lagged(missed)] + after)
            == relay_frames(relay, before + after),
        relay_after(relay, before + seq![RelayEventView::Lagged(missed)] + after).running
            == relay_after(relay, before + after).running,
{
    let lag = seq![RelayEventView::Lagged(missed)];
    let middle = relay_after(relay, before);
    let lagged = relay_after(middle, lag);
    assert(lagged == relay_step(middle, lag[0]).0 && relay_frames(middle, lag).len() == 0) by {
        reveal_with_fuel(relay_after, 2);
        reveal_with_fuel(relay_frames, 2);
    }
    assert(before + lag + after =~= before + (lag + after));
    relay_run_splits(relay, before, lag + after);
    relay_run_splits(middle, lag, after);
    relay_run_splits(relay, before, after);
    frames_ignore_lag_count(lagged, middle, after);
}

/// Every subscriber is served alike. Two running relays that take in the same
/// events write the same frames, whatever else has happened to either.
pub proof fn subscribers_are_served_alike(
    one: EventRelay,
    other: EventRelay,
    events: Seq<RelayEventView>,
)
    requires
        one.running,
        other.running,
    ensures
        relay_frames(one, events) == relay_frames(other, events),
{
    frames_ignore_lag_count(one, other, events);
}

/// A running relay delivers what it receives. An event that has a wire form
/// is written as that wire form, at once and once; nothing is written for
/// anything else.
pub proof fn received_event_is_delivered(relay: EventRelay, event: RelayEventView)
    requires
        relay.running,
    ensures
        relay_frames(relay, seq![event]) == match event {
            RelayEventView::Event(e) => match event_text(e) {
                Some(text) => seq![text],
                None => Seq::<Seq<char>>::empty(),
            },
            _ => Seq::<Seq<char>>::empty(),
        },
{
    reveal_with_fuel(relay_frames, 2);
}

/// A relay that has ended writes nothing more and stays ended, whatever it is
/// told.
pub proof fn ended_relay_is_silent(relay: EventRelay, events: Seq<RelayEventView>)
    requires
        !relay.running,
    ensures
        relay_frames(relay, events).len() == 0,
        relay_after(relay, events) == relay,
    decreases events.len(),
{
    if events.len() > 0 {
        ended_relay_is_silent(relay, events.skip(1));
    }
}

/// Teardown ends the relay. Once a relay is told that the fan-out is closed,
/// that a write failed or that its session was torn down, it writes nothing
/// for that nor for anything it is told later.
pub proof fn relay_ends_when_told(
    relay: EventRelay,
    end: RelayEventView,
    later: Seq<RelayEventView>,
)
    requires
        end is Closed || end is WriteFailed || end is Cancelled,
    ensures
        relay_frames(relay, seq![end] + later).len() == 0,
        !relay_after(relay, seq![end] + later).running,
{
    let all = seq![end] + later;
    assert(all[0] == end);
    assert(all.skip(1) =~= later);
    ended_relay_is_silent(relay_step(relay, end).0, later);
}

} // verus!
