//! Two-sample debounce of the reset button.
//!
//! A sample is `true` when the button read as pressed. The input is wired with
//! a pull-up, so a pressed button reads as a low level.

use vstd::prelude::*;

verus! {

/// The last two button samples.
#[derive(Clone, Copy, Debug, PartialEq, Eq, Structural)]
pub struct DebounceHistory {
    /// The sample before the previous one.
    pub older: bool,
    /// The previous sample.
    pub newer: bool,
}

impl DebounceHistory {
    /// Reset rule: the button reads released now and read pressed at both
    /// stored samples.
    pub open spec fn fires_on(self, pressed: bool) -> bool {
        self.older && self.newer && !pressed
    }

    /// The history once `pressed` has been shifted in: the oldest sample is
    /// dropped.
    pub open spec fn shifted(self, pressed: bool) -> DebounceHistory {
        DebounceHistory { older: self.newer, newer: pressed }
    }

    /// The history before any poll: no press seen.
    pub open spec fn idle_spec() -> DebounceHistory {
        DebounceHistory { older: false, newer: false }
    }

    /// The history before any poll: no press seen.
    #[verifier::when_used_as_spec(idle_spec)]
    pub fn idle() -> (history: DebounceHistory)
        ensures
            history == Self::idle_spec(),
    {
        DebounceHistory { older: false, newer: false }
    }

    /// Whether the sample `pressed` triggers a reset after this history.
    pub fn fires(&self, pressed: bool) -> (reset: bool)
        ensures
            reset == self.fires_on(pressed),
    {
        !pressed && self.older && self.newer
    }

    /// Shifts the sample `pressed` into the history.
    pub fn shift(&self, pressed: bool) -> (next: DebounceHistory)
        ensures
            next == self.shifted(pressed),
    {
        DebounceHistory { older: self.newer, newer: pressed }
    }
}

/// The sample that an input level stands for: with the pull-up, a high level
/// means the button is not pressed.
pub fn pressed_from_level(high: bool) -> (pressed: bool)
    ensures
        pressed == !high,
{
    !high
}

/// The history after the samples `polls` have been shifted into `start`, one
/// per poll.
pub open spec fn history_after(start: DebounceHistory, polls: Seq<bool>) -> DebounceHistory
    decreases polls.len(),
{
    if polls.len() == 0 {
        start
    } else {
        history_after(start, polls.drop_last()).shifted(polls.last())
    }
}

/// Whether poll number `tick` of `polls` triggers a reset, the history having
/// been `start` before poll 0.
pub open spec fn resets_at(start: DebounceHistory, polls: Seq<bool>, tick: int) -> bool
    recommends
        0 <= tick < polls.len(),
{
    history_after(start, polls.take(tick)).fires_on(polls[tick])
}

/// The sample read at poll `tick`; the two ticks before poll 0 stand for the
/// samples stored in `start`.
pub open spec fn reading(start: DebounceHistory, polls: Seq<bool>, tick: int) -> bool
    recommends
        -2 <= tick < polls.len(),
{
    if tick >= 0 {
        polls[tick]
    } else if tick == -1 {
        start.newer
    } else {
        start.older
    }
}

/// After `tick` polls the history holds the readings of the two polls before
/// poll `tick`.
pub proof fn history_holds_last_two(start: DebounceHistory, polls: Seq<bool>, tick: int)
    requires
        0 <= tick <= polls.len(),
    ensures
        history_after(start, polls.take(tick)) == (DebounceHistory {
            older: reading(start, polls, tick - 2),
            newer: reading(start, polls, tick - 1),
        }),
    decreases tick,
{
    let seen = polls.take(tick);
    if tick > 0 {
        assert(seen.drop_last() == polls.take(tick - 1));
        assert(seen.last() == polls[tick - 1]);
        history_holds_last_two(start, polls, tick - 1);
    }
}

/// Debounce law: a poll triggers a reset exactly when it reads released and
/// the two polls before it both read pressed.
pub proof fn reset_iff_release_after_two_presses(
    start: DebounceHistory,
    polls: Seq<bool>,
    tick: int,
)
    requires
        0 <= tick < polls.len(),
    ensures
        resets_at(start, polls, tick) <==> !polls[tick] && reading(start, polls, tick - 1)
            && reading(start, polls, tick - 2),
{
    history_holds_last_two(start, polls, tick);
}

/// Debounce law from power-up, where no press has been seen: the first two
/// polls never trigger a reset, and a later poll does exactly when it reads
/// released and the two polls before it read pressed.
pub proof fn reset_iff_release_after_two_presses_from_idle(polls: Seq<bool>, tick: int)
    requires
        0 <= tick < polls.len(),
    ensures
        resets_at(DebounceHistory::idle(), polls, tick) <==> tick >= 2 && !polls[tick]
            && polls[tick - 1] && polls[tick - 2],
{
    history_holds_last_two(DebounceHistory::idle(), polls, tick);
}

} // verus!
