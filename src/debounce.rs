use vstd::prelude::*;

verus! {

/// The settle detector's shared state: when the most recent relevant change was
/// seen, in milliseconds on a monotonic clock, and whether a restart is owed.
#[derive(Clone, Copy, Debug, PartialEq, Eq, Structural)]
pub struct DebounceState {
    pub last_event: u64,
    pub pending: bool,
}

impl DebounceState {
    /// A restart is owed and the quiet time `delay` has passed by `now`.
    pub open spec fn settled(self, now: u64, delay: u64) -> bool {
        self.pending && now as int >= self.last_event as int + delay as int
    }

    /// The state after a relevant change at `now`.
    pub open spec fn after_event(self, now: u64) -> DebounceState {
        DebounceState { last_event: now, pending: true }
    }

    /// The state after a check at `now`: a settled restart is taken.
    pub open spec fn after_poll(self, now: u64, delay: u64) -> DebounceState {
        if self.settled(now, delay) {
            DebounceState { pending: false, ..self }
        } else {
            self
        }
    }

    /// A state with no restart owed, started at `now`.
    pub fn new(now: u64) -> (r: DebounceState)
        ensures
            r == (DebounceState { last_event: now, pending: false }),
    {
        DebounceState { last_event: now, pending: false }
    }

    /// Records a relevant change at `now`: the settle point moves to
    /// `now + delay` and a restart is owed.
    pub fn record_event(&mut self, now: u64)
        ensures
            *final(self) == old(self).after_event(now),
    {
        self.last_event = now;
        self.pending = true;
    }

    /// Checks at `now` whether the owed restart has settled; if so, takes it
    /// (clears the pending flag) and returns true.
    pub fn poll(&mut self, now: u64, delay: u64) -> (fired: bool)
        ensures
            fired == old(self).settled(now, delay),
            *final(self) == old(self).after_poll(now, delay),
    {
        if self.pending && now >= self.last_event && now - self.last_event >= delay {
            self.pending = false;
            true
        } else {
            false
        }
    }
}

/// The times, among the checks `polls` made in turn from state `s`, at which a
/// restart fires.
pub open spec fn fire_times(s: DebounceState, polls: Seq<u64>, delay: u64) -> Seq<u64>
    decreases polls.len(),
{
    if polls.len() == 0 {
        seq![]
    } else {
        let rest = fire_times(s.after_poll(polls[0], delay), polls.drop_first(), delay);
        if s.settled(polls[0], delay) {
            seq![polls[0]] + rest
        } else {
            rest
        }
    }
}

/// The state after the checks `polls` made in turn from state `s`.
pub open spec fn after_polls(s: DebounceState, polls: Seq<u64>, delay: u64) -> DebounceState
    decreases polls.len(),
{
    if polls.len() == 0 {
        s
    } else {
        after_polls(s.after_poll(polls[0], delay), polls.drop_first(), delay)
    }
}

/// Some check of `polls` happens at time `t` or later.
pub open spec fn reaches(polls: Seq<u64>, t: int) -> bool {
    exists|i: int| 0 <= i < polls.len() && #[trigger] polls[i] as int >= t
}

/// With no restart owed, no check fires and the state stays as it is.
pub proof fn idle_never_fires(s: DebounceState, polls: Seq<u64>, delay: u64)
    requires
        !s.pending,
    ensures
        fire_times(s, polls, delay) == Seq::<u64>::empty(),
        after_polls(s, polls, delay) == s,
    decreases polls.len(),
{
    if polls.len() > 0 {
        idle_never_fires(s, polls.drop_first(), delay);
    }
}

/// Checks made before the settle point fire nothing and change nothing.
pub proof fn early_checks_change_nothing(s: DebounceState, polls: Seq<u64>, delay: u64)
    requires
        forall|i: int| 0 <= i < polls.len() ==> (#[trigger] polls[i] as int) < s.last_event as int
            + delay as int,
    ensures
        fire_times(s, polls, delay) == Seq::<u64>::empty(),
        after_polls(s, polls, delay) == s,
    decreases polls.len(),
{
    if polls.len() > 0 {
        assert((polls[0] as int) < s.last_event as int + delay as int);
        assert forall|i: int| 0 <= i < polls.drop_first().len() implies (#[trigger] polls.drop_first()[i] as int) < s.last_event as int + delay as int by {
            assert(polls.drop_first()[i] == polls[i + 1]);
        }
        early_checks_change_nothing(s, polls.drop_first(), delay);
    }
}

/// From a state that owes a restart, the checks `polls` fire exactly once if
/// one of them comes at or after the settle point, else never; and no check
/// fires before the settle point.
proof fn owed_restart_fires_once(s: DebounceState, polls: Seq<u64>, delay: u64)
    requires
        s.pending,
    ensures
        fire_times(s, polls, delay).len() == if reaches(polls, s.last_event + delay) {
            1int
        } else {
            0int
        },
        forall|j: int|
            0 <= j < fire_times(s, polls, delay).len() ==> #[trigger] fire_times(s, polls, delay)[j]
                as int >= s.last_event as int + delay as int,
    decreases polls.len(),
{
    let target = s.last_event + delay;
    if polls.len() > 0 {
        let rest = polls.drop_first();
        if s.settled(polls[0], delay) {
            idle_never_fires(s.after_poll(polls[0], delay), rest, delay);
            assert(reaches(polls, target));
            assert(fire_times(s, polls, delay) =~= seq![polls[0]]);
        } else {
            owed_restart_fires_once(s, rest, delay);
            assert(reaches(polls, target) == reaches(rest, target)) by {
                if reaches(polls, target) {
                    let i = choose|i: int| 0 <= i < polls.len() && #[trigger] polls[i] as int >= target;
                    assert(i > 0);
                    assert(rest[i - 1] == polls[i]);
                }
                if reaches(rest, target) {
                    let i = choose|i: int| 0 <= i < rest.len() && #[trigger] rest[i] as int >= target;
                    assert(polls[i + 1] == rest[i]);
                }
            }
        }
    }
}

/// A single relevant change at `t`, followed by checks `polls` with no further
/// change, fires exactly one restart if some check comes once `delay` has
/// passed since `t`, and none otherwise; a restart never fires before `t + delay`.
pub proof fn single_event_fires_once(s: DebounceState, t: u64, polls: Seq<u64>, delay: u64)
    ensures
        fire_times(s.after_event(t), polls, delay).len() == if reaches(polls, t + delay) {
            1int
        } else {
            0int
        },
        forall|j: int|
            0 <= j < fire_times(s.after_event(t), polls, delay).len() ==> #[trigger] fire_times(
                s.after_event(t),
                polls,
                delay,
            )[j] as int >= t + delay,
{
    owed_restart_fires_once(s.after_event(t), polls, delay);
}

/// Two relevant changes at `t0` and `t1`, the second within `delay` of the
/// first, with checks `between` made no later than `t1` and checks `after`
/// made after it: the checks between fire nothing, and the whole run fires
/// exactly one restart if some later check comes once `delay` has passed since
/// `t1`, never two, and none before `t1 + delay`.
pub proof fn burst_fires_once(
    s: DebounceState,
    t0: u64,
    between: Seq<u64>,
    t1: u64,
    after: Seq<u64>,
    delay: u64,
)
    requires
        t0 <= t1,
        t1 < t0 + delay,
        forall|i: int| 0 <= i < between.len() ==> #[trigger] between[i] <= t1,
    ensures
        ({
            let first = s.after_event(t0);
            let second = after_polls(first, between, delay).after_event(t1);
            let all = fire_times(first, between, delay) + fire_times(second, after, delay);
            &&& fire_times(first, between, delay).len() == 0
            &&& all.len() == if reaches(after, t1 + delay) {
                1int
            } else {
                0int
            }
            &&& forall|j: int| 0 <= j < all.len() ==> #[trigger] all[j] as int >= t1 + delay
        }),
{
    let first = s.after_event(t0);
    early_checks_change_nothing(first, between, delay);
    let second = after_polls(first, between, delay).after_event(t1);
    single_event_fires_once(after_polls(first, between, delay), t1, after, delay);
    assert(fire_times(first, between, delay) + fire_times(second, after, delay) =~= fire_times(
        second,
        after,
        delay,
    ));
}

} // verus!
