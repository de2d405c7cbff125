//! The change watcher: tells the user interface when the volume was changed
//! from outside, by hardware keys or by another program.
//!
//! The mixer announces nothing, so the host polls: it reads the volume at a
//! fixed cadence and shows each reading to the watcher, which answers with
//! the event to emit, if any. A change is therefore seen within one polling
//! interval, and a volume that stays where it is emits nothing.

use vstd::prelude::*;

verus! {

/// The time between two polls, in milliseconds.
pub const POLL_INTERVAL_MS: u64 = 100;

/// The event that a reading causes after `last` was seen: the reading
/// itself where it differs, none where it does not.
pub open spec fn change(last: i64, current: i64) -> Option<i64> {
    if current != last {
        Some(current)
    } else {
        None
    }
}

/// The events that a run of readings causes, in order, after `last` was
/// seen: each reading that differs from the one before it.
pub open spec fn emitted(last: i64, readings: Seq<i64>) -> Seq<i64>
    decreases readings.len(),
{
    if readings.len() == 0 {
        Seq::empty()
    } else {
        let rest = emitted(readings[0], readings.drop_first());
        match change(last, readings[0]) {
            Some(event) => seq![event] + rest,
            None => rest,
        }
    }
}

/// The state of the watcher: the volume it saw last.
#[derive(Clone, Copy, Debug, PartialEq, Eq)]
pub struct Watcher {
    last_volume: i64,
}

impl Watcher {
    /// The volume seen last.
    pub closed spec fn last(&self) -> i64 {
        self.last_volume
    }

    /// A watcher that has seen `initial`, the volume read when it starts.
    pub fn new(initial: i64) -> (watcher: Watcher)
        ensures
            watcher.last() == initial,
    {
        Watcher { last_volume: initial }
    }

    /// The volume seen last.
    pub fn last_volume(&self) -> (last: i64)
        ensures
            last == self.last(),
    {
        self.last_volume
    }

    /// Shows the watcher one reading. Where it differs from the volume seen
    /// last, the answer is the payload of the event to emit, which is the
    /// reading; where it does not, the answer is none. Either way the
    /// reading is the volume seen last from now on.
    pub fn observe(&mut self, current: i64) -> (event: Option<i64>)
        ensures
            event == change(old(self).last(), current),
            final(self).last() == current,
    {
        if current != self.last_volume {
            self.last_volume = current;
            Some(current)
        } else {
            None
        }
    }
}

/// The name under which a change of volume is announced.
pub fn event_name() -> (name: &'static str)
    ensures
        name@ == "volume-changed"@,
{
    "volume-changed"
}

/// While the volume stays what it was, nothing is emitted.
pub proof fn lemma_stable_emits_nothing(last: i64, readings: Seq<i64>)
    requires
        forall|i: int| 0 <= i < readings.len() ==> readings[i] == last,
    ensures
        emitted(last, readings) == Seq::<i64>::empty(),
    decreases readings.len(),
{
    if readings.len() > 0 {
        let rest = readings.drop_first();
        assert forall|i: int| 0 <= i < rest.len() implies rest[i] == last by {
            assert(rest[i] == readings[i + 1]);
        }
        lemma_stable_emits_nothing(last, rest);
    }
}

/// One change emits one event, whose payload is the new volume: readings
/// that stay at `before` for a while and then at `after` cause exactly the
/// event `after`, however many polls see either.
pub proof fn lemma_one_change_one_event(before: i64, after: i64, quiet: nat, changed: nat)
    requires
        before != after,
        changed >= 1,
    ensures
        emitted(before, Seq::new(quiet, |i: int| before) + Seq::new(changed, |i: int| after))
            == seq![after],
    decreases quiet,
{
    let readings = Seq::new(quiet, |i: int| before) + Seq::new(changed, |i: int| after);
    let rest = readings.drop_first();
    if quiet == 0 {
        assert(readings[0] == after);
        assert forall|i: int| 0 <= i < rest.len() implies rest[i] == after by {
            assert(rest[i] == readings[i + 1]);
        }
        lemma_stable_emits_nothing(after, rest);
        assert(emitted(before, readings) =~= seq![after]);
    } else {
        assert(readings[0] == before);
        assert(rest =~= Seq::new((quiet - 1) as nat, |i: int| before) + Seq::new(
            changed,
            |i: int| after,
        ));
        lemma_one_change_one_event(before, after, (quiet - 1) as nat, changed);
    }
}

/// Every event is a reading, and no run of readings causes more events than
/// it has readings.
pub proof fn lemma_events_are_readings(last: i64, readings: Seq<i64>)
    ensures
        emitted(last, readings).len() <= readings.len(),
        forall|k: int|
            0 <= k < emitted(last, readings).len() ==> readings.contains(
                #[trigger] emitted(last, readings)[k],
            ),
    decreases readings.len(),
{
    if readings.len() > 0 {
        let rest = readings.drop_first();
        let tail = emitted(readings[0], rest);
        lemma_events_are_readings(readings[0], rest);
        assert forall|k: int| 0 <= k < emitted(last, readings).len() implies readings.contains(
            #[trigger] emitted(last, readings)[k],
        ) by {
            let event = emitted(last, readings)[k];
            if change(last, readings[0]) is Some && k == 0 {
                assert(event == readings[0]);
            } else {
                let at = if change(last, readings[0]) is Some {
                    k - 1
                } else {
                    k
                };
                assert(event == tail[at]);
                assert(rest.contains(tail[at]));
                let j = choose|j: int| 0 <= j < rest.len() && rest[j] == tail[at];
                assert(readings[j + 1] == event);
            }
        }
    }
}

} // verus!
