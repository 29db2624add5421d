//! The two periodic tasks: display refresh and button poll.
//!
//! A task owns its peripherals from its first run on, and acts on the registry
//! in short steps between which the firmware does the input and output.

use crate::debounce::history_after;
use crate::registry::{Registry, RegistryView};
use crate::slot::{claimed, RegistryError};
use vstd::prelude::*;

verus! {

/// Rate of the display-refresh task: one run per second, so that the counter
/// counts seconds.
pub const DISPLAY_REFRESH_HZ: u32 = 1;

/// Rate of the button-poll task: one sample every 50 ms.
pub const BUTTON_POLL_HZ: u32 = 20;

/// Interrupt priority of the display-refresh task. A lower number is more
/// urgent: a refresh preempts a poll, never the other way round.
pub const DISPLAY_PRIORITY: u8 = 1;

/// Interrupt priority of the button-poll task.
pub const BUTTON_PRIORITY: u8 = 2;

/// What the display-refresh task owns once it has run: its timer and the
/// display sink.
pub struct DisplayTask<T, D> {
    pub timer: Option<T>,
    pub display: Option<D>,
}

/// What the button-poll task owns once it has run: its timer and the button
/// input.
pub struct ButtonTask<T, B> {
    pub timer: Option<T>,
    pub button: Option<B>,
}

impl<T, D> DisplayTask<T, D> {
    /// Whether the task owns both of its peripherals.
    pub open spec fn ready(self) -> bool {
        self.timer is Some && self.display is Some
    }

    /// Task and registry after the first-call guard: the timer is claimed
    /// first, and the display only once the task owns the timer.
    pub open spec fn claim_spec<BT, B>(self, registry: RegistryView<T, BT, B, D>) -> (
        DisplayTask<T, D>,
        RegistryView<T, BT, B, D>,
    ) {
        let (timer, timer_slot) = claimed(self.timer, registry.display_timer);
        if timer is None {
            (DisplayTask { timer, ..self }, RegistryView { display_timer: timer_slot, ..registry })
        } else {
            let (display, display_slot) = claimed(self.display, registry.display);
            (
                DisplayTask { timer, display },
                RegistryView { display_timer: timer_slot, display: display_slot, ..registry },
            )
        }
    }

    /// A task that has not run yet and owns nothing.
    pub fn new() -> (task: Self)
        ensures
            task.timer is None,
            task.display is None,
    {
        DisplayTask { timer: None, display: None }
    }

    /// First step of every refresh. On the first run the task takes its timer
    /// and the display out of the registry; later runs find them in the task
    /// and leave the registry alone. The claim is refused when a peripheral is
    /// neither in the task nor in the registry.
    pub fn claim<BT, B>(&mut self, registry: &mut Registry<T, BT, B, D>) -> (outcome: Result<
        (),
        RegistryError,
    >)
        ensures
            (*final(self), final(registry)@) == old(self).claim_spec(old(registry)@),
            outcome is Ok <==> final(self).ready(),
            outcome is Err ==> outcome == Err::<(), RegistryError>(RegistryError::Vacant),
    {
        if self.timer.is_none() {
            match registry.take_display_timer() {
                Ok(timer) => {
                    self.timer = Some(timer);
                },
                Err(refused) => {
                    return Err(refused);
                },
            }
        }
        if self.display.is_none() {
            match registry.take_display() {
                Ok(display) => {
                    self.display = Some(display);
                },
                Err(refused) => {
                    return Err(refused);
                },
            }
        }
        Ok(())
    }
}

impl<T, B> ButtonTask<T, B> {
    /// Whether the task owns both of its peripherals.
    pub open spec fn ready(self) -> bool {
        self.timer is Some && self.button is Some
    }

    /// Task and registry after the first-call guard: the timer is claimed
    /// first, and the button only once the task owns the timer.
    pub open spec fn claim_spec<DT, D>(self, registry: RegistryView<DT, T, B, D>) -> (
        ButtonTask<T, B>,
        RegistryView<DT, T, B, D>,
    ) {
        let (timer, timer_slot) = claimed(self.timer, registry.button_timer);
        if timer is None {
            (ButtonTask { timer, ..self }, RegistryView { button_timer: timer_slot, ..registry })
        } else {
            let (button, button_slot) = claimed(self.button, registry.button);
            (
                ButtonTask { timer, button },
                RegistryView { button_timer: timer_slot, button: button_slot, ..registry },
            )
        }
    }

    /// A task that has not run yet and owns nothing.
    pub fn new() -> (task: Self)
        ensures
            task.timer is None,
            task.button is None,
    {
        ButtonTask { timer: None, button: None }
    }

    /// First step of every poll. On the first run the task takes its timer and
    /// the button out of the registry; later runs find them in the task and
    /// leave the registry alone. The claim is refused when a peripheral is
    /// neither in the task nor in the registry.
    pub fn claim<DT, D>(&mut self, registry: &mut Registry<DT, T, B, D>) -> (outcome: Result<
        (),
        RegistryError,
    >)
        ensures
            (*final(self), final(registry)@) == old(self).claim_spec(old(registry)@),
            outcome is Ok <==> final(self).ready(),
            outcome is Err ==> outcome == Err::<(), RegistryError>(RegistryError::Vacant),
    {
        if self.timer.is_none() {
            match registry.take_button_timer() {
                Ok(timer) => {
                    self.timer = Some(timer);
                },
                Err(refused) => {
                    return Err(refused);
                },
            }
        }
        if self.button.is_none() {
            match registry.take_button() {
                Ok(button) => {
                    self.button = Some(button);
                },
                Err(refused) => {
                    return Err(refused);
                },
            }
        }
        Ok(())
    }
}

/// The counter after one more second. The counter is sixteen bits wide and
/// wraps: the second after 65535 is 0.
pub open spec fn next_count(seconds: u16) -> u16 {
    if seconds == u16::MAX {
        0
    } else {
        (seconds + 1) as u16
    }
}

/// One run of a periodic task, as far as the shared state sees it.
pub enum Tick {
    /// The display-refresh task ran.
    Refresh,
    /// The button-poll task ran and sampled the button.
    Poll { pressed: bool },
}

/// The registry after one task run. A refresh counts one second. A poll that
/// meets the reset rule zeroes the counter; every poll shifts its sample into
/// the history.
pub open spec fn step<DT, BT, B, D>(before: RegistryView<DT, BT, B, D>, tick: Tick) -> RegistryView<
    DT,
    BT,
    B,
    D,
> {
    match tick {
        Tick::Refresh => RegistryView { counter: next_count(before.counter), ..before },
        Tick::Poll { pressed } => RegistryView {
            counter: if before.history.fires_on(pressed) {
                0
            } else {
                before.counter
            },
            history: before.history.shifted(pressed),
            ..before
        },
    }
}

/// Display-refresh step that follows the write to the display: counts one
/// second.
pub fn count_tick<DT, BT, B, D>(registry: &mut Registry<DT, BT, B, D>)
    ensures
        final(registry)@ == step(old(registry)@, Tick::Refresh),
{
    let seconds: u16 = registry.counter();
    let next: u16 = if seconds == u16::MAX {
        0
    } else {
        seconds + 1
    };
    registry.set_counter(next);
}

/// Button-poll step that follows the sampling of the button: applies the reset
/// rule to the stored history and the fresh sample, then shifts the sample in.
/// Returns whether the counter was reset.
pub fn poll_button<DT, BT, B, D>(registry: &mut Registry<DT, BT, B, D>, pressed: bool) -> (reset:
    bool)
    ensures
        reset == old(registry)@.history.fires_on(pressed),
        final(registry)@ == step(old(registry)@, Tick::Poll { pressed }),
{
    let history = registry.history();
    let reset = history.fires(pressed);
    if reset {
        registry.set_counter(0);
    }
    registry.set_history(history.shift(pressed));
    reset
}

/// The registry after the task runs `ticks`, first to last.
pub open spec fn run<DT, BT, B, D>(start: RegistryView<DT, BT, B, D>, ticks: Seq<Tick>)
    -> RegistryView<DT, BT, B, D>
    decreases ticks.len(),
{
    if ticks.len() == 0 {
        start
    } else {
        step(run(start, ticks.drop_last()), ticks.last())
    }
}

/// Whether run number `index` of `ticks` is a poll that resets the counter.
pub open spec fn resets_in<DT, BT, B, D>(
    start: RegistryView<DT, BT, B, D>,
    ticks: Seq<Tick>,
    index: int,
) -> bool
    recommends
        0 <= index < ticks.len(),
{
    ticks[index] matches Tick::Poll { pressed } && run(
        start,
        ticks.take(index),
    ).history.fires_on(pressed)
}

/// How many of `ticks` are display refreshes.
pub open spec fn refreshes(ticks: Seq<Tick>) -> nat
    decreases ticks.len(),
{
    if ticks.len() == 0 {
        0
    } else {
        refreshes(ticks.drop_last()) + if ticks.last() is Refresh {
            1nat
        } else {
            0nat
        }
    }
}

/// The button samples among `ticks`, in order.
pub open spec fn samples(ticks: Seq<Tick>) -> Seq<bool>
    decreases ticks.len(),
{
    if ticks.len() == 0 {
        Seq::empty()
    } else {
        match ticks.last() {
            Tick::Refresh => samples(ticks.drop_last()),
            Tick::Poll { pressed } => samples(ticks.drop_last()).push(pressed),
        }
    }
}

/// Counter law: as long as no poll resets it, the counter goes up by exactly
/// one per display refresh, whatever polls run in between; it wraps past
/// 65535. No refresh is skipped and none is counted twice.
pub proof fn counter_counts_refreshes<DT, BT, B, D>(
    start: RegistryView<DT, BT, B, D>,
    ticks: Seq<Tick>,
)
    requires
        forall|index: int| 0 <= index < ticks.len() ==> !resets_in(start, ticks, index),
    ensures
        run(start, ticks).counter == (start.counter + refreshes(ticks)) % 65536,
        start.counter + refreshes(ticks) <= u16::MAX ==> run(start, ticks).counter
            == start.counter + refreshes(ticks),
    decreases ticks.len(),
{
    if ticks.len() > 0 {
        let earlier = ticks.drop_last();
        assert forall|index: int| 0 <= index < earlier.len() implies !resets_in(
            start,
            earlier,
            index,
        ) by {
            assert(earlier.take(index) == ticks.take(index));
            assert(!resets_in(start, ticks, index));
        }
        counter_counts_refreshes(start, earlier);
        assert(ticks.take(ticks.len() - 1) == earlier);
        assert(!resets_in(start, ticks, ticks.len() - 1));
    }
}

/// A poll that meets the reset rule leaves the counter at zero, whatever it
/// was before.
pub proof fn reset_zeroes_counter<DT, BT, B, D>(start: RegistryView<DT, BT, B, D>, ticks: Seq<Tick>)
    requires
        ticks.len() > 0,
        resets_in(start, ticks, ticks.len() - 1),
    ensures
        run(start, ticks).counter == 0,
{
    assert(ticks.take(ticks.len() - 1) == ticks.drop_last());
}

/// Refreshes do not disturb the debounce: after any interleaving of the two
/// tasks the history is the one that the button samples alone produce, and no
/// slot has changed.
pub proof fn history_follows_samples<DT, BT, B, D>(
    start: RegistryView<DT, BT, B, D>,
    ticks: Seq<Tick>,
)
    ensures
        run(start, ticks).history == history_after(start.history, samples(ticks)),
        run(start, ticks) == (RegistryView {
            counter: run(start, ticks).counter,
            history: run(start, ticks).history,
            ..start
        }),
    decreases ticks.len(),
{
    if ticks.len() > 0 {
        history_follows_samples(start, ticks.drop_last());
        match ticks.last() {
            Tick::Refresh => {},
            Tick::Poll { pressed } => {
                let seen = samples(ticks.drop_last());
                assert(seen.push(pressed).drop_last() == seen);
            },
        }
    }
}

/// A task that owns its peripherals never goes back to the registry: its
/// claim changes neither the task nor any slot.
pub proof fn display_claim_once<T, BT, B, D>(
    task: DisplayTask<T, D>,
    registry: RegistryView<T, BT, B, D>,
)
    requires
        task.ready(),
    ensures
        task.claim_spec(registry) == (task, registry),
{
}

/// A task that owns its peripherals never goes back to the registry: its
/// claim changes neither the task nor any slot.
pub proof fn button_claim_once<DT, T, B, D>(
    task: ButtonTask<T, B>,
    registry: RegistryView<DT, T, B, D>,
)
    requires
        task.ready(),
    ensures
        task.claim_spec(registry) == (task, registry),
{
}

/// Each peripheral has one owner: once a task has claimed from the registry,
/// a second claimant that owns nothing is refused its timer and ends up
/// without peripherals.
pub proof fn display_no_second_owner<T, BT, B, D>(
    first: DisplayTask<T, D>,
    second: DisplayTask<T, D>,
    registry: RegistryView<T, BT, B, D>,
)
    requires
        first.timer is None,
        second.timer is None,
    ensures
        second.claim_spec(first.claim_spec(registry).1).0.timer is None,
        !second.claim_spec(first.claim_spec(registry).1).0.ready(),
{
}

/// Each peripheral has one owner: once a task has claimed from the registry,
/// a second claimant that owns nothing is refused its timer and ends up
/// without peripherals.
pub proof fn button_no_second_owner<DT, T, B, D>(
    first: ButtonTask<T, B>,
    second: ButtonTask<T, B>,
    registry: RegistryView<DT, T, B, D>,
)
    requires
        first.timer is None,
        second.timer is None,
    ensures
        second.claim_spec(first.claim_spec(registry).1).0.timer is None,
        !second.claim_spec(first.claim_spec(registry).1).0.ready(),
{
}

} // verus!
