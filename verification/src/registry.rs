//! The shared-resource registry: everything that bring-up and the two
//! periodic tasks pass between each other.
//!
//! Every operation here is a single short access, meant to run with interrupt
//! delivery masked.

use crate::debounce::DebounceHistory;
use crate::slot::{RegistryError, Slot};
use vstd::prelude::*;

verus! {

/// The registry: one take-once slot per peripheral handle, the elapsed-seconds
/// counter and the debounce history.
///
/// `DT` and `BT` are the display-refresh and button-poll timers, `B` the
/// button input, `D` the display sink.
pub struct Registry<DT, BT, B, D> {
    display_timer: Slot<DT>,
    button_timer: Slot<BT>,
    button: Slot<B>,
    display: Slot<D>,
    counter: u16,
    history: DebounceHistory,
}

/// What a registry holds.
pub struct RegistryView<DT, BT, B, D> {
    pub display_timer: Slot<DT>,
    pub button_timer: Slot<BT>,
    pub button: Slot<B>,
    pub display: Slot<D>,
    pub counter: u16,
    pub history: DebounceHistory,
}

impl<DT, BT, B, D> View for Registry<DT, BT, B, D> {
    type V = RegistryView<DT, BT, B, D>;

    closed spec fn view(&self) -> RegistryView<DT, BT, B, D> {
        RegistryView {
            display_timer: self.display_timer,
            button_timer: self.button_timer,
            button: self.button,
            display: self.display,
            counter: self.counter,
            history: self.history,
        }
    }
}

impl<DT, BT, B, D> Registry<DT, BT, B, D> {
    /// A registry at power-up: every slot empty, the counter at zero, no press
    /// seen.
    pub fn new() -> (registry: Self)
        ensures
            registry@ == (RegistryView::<DT, BT, B, D> {
                display_timer: Slot::Vacant,
                button_timer: Slot::Vacant,
                button: Slot::Vacant,
                display: Slot::Vacant,
                counter: 0,
                history: DebounceHistory::idle(),
            }),
    {
        Registry {
            display_timer: Slot::Vacant,
            button_timer: Slot::Vacant,
            button: Slot::Vacant,
            display: Slot::Vacant,
            counter: 0,
            history: DebounceHistory::idle(),
        }
    }

    /// Deposits the display-refresh timer; refused if one is already there.
    pub fn deposit_display_timer(&mut self, timer: DT) -> (outcome: Result<(), RegistryError>)
        ensures
            outcome == old(self)@.display_timer.deposited(),
            final(self)@ == (RegistryView {
                display_timer: old(self)@.display_timer.after_deposit(timer),
                ..old(self)@
            }),
    {
        self.display_timer.deposit(timer)
    }

    /// Deposits the button-poll timer; refused if one is already there.
    pub fn deposit_button_timer(&mut self, timer: BT) -> (outcome: Result<(), RegistryError>)
        ensures
            outcome == old(self)@.button_timer.deposited(),
            final(self)@ == (RegistryView {
                button_timer: old(self)@.button_timer.after_deposit(timer),
                ..old(self)@
            }),
    {
        self.button_timer.deposit(timer)
    }

    /// Deposits the button input; refused if one is already there.
    pub fn deposit_button(&mut self, button: B) -> (outcome: Result<(), RegistryError>)
        ensures
            outcome == old(self)@.button.deposited(),
            final(self)@ == (RegistryView {
                button: old(self)@.button.after_deposit(button),
                ..old(self)@
            }),
    {
        self.button.deposit(button)
    }

    /// Deposits the display sink; refused if one is already there.
    pub fn deposit_display(&mut self, display: D) -> (outcome: Result<(), RegistryError>)
        ensures
            outcome == old(self)@.display.deposited(),
            final(self)@ == (RegistryView {
                display: old(self)@.display.after_deposit(display),
                ..old(self)@
            }),
    {
        self.display.deposit(display)
    }

    /// Takes the display-refresh timer out of the registry.
    pub fn take_display_timer(&mut self) -> (outcome: Result<DT, RegistryError>)
        ensures
            outcome == old(self)@.display_timer.taken(),
            final(self)@ == (RegistryView { display_timer: Slot::Vacant, ..old(self)@ }),
    {
        self.display_timer.take()
    }

    /// Takes the button-poll timer out of the registry.
    pub fn take_button_timer(&mut self) -> (outcome: Result<BT, RegistryError>)
        ensures
            outcome == old(self)@.button_timer.taken(),
            final(self)@ == (RegistryView { button_timer: Slot::Vacant, ..old(self)@ }),
    {
        self.button_timer.take()
    }

    /// Takes the button input out of the registry.
    pub fn take_button(&mut self) -> (outcome: Result<B, RegistryError>)
        ensures
            outcome == old(self)@.button.taken(),
            final(self)@ == (RegistryView { button: Slot::Vacant, ..old(self)@ }),
    {
        self.button.take()
    }

    /// Takes the display sink out of the registry.
    pub fn take_display(&mut self) -> (outcome: Result<D, RegistryError>)
        ensures
            outcome == old(self)@.display.taken(),
            final(self)@ == (RegistryView { display: Slot::Vacant, ..old(self)@ }),
    {
        self.display.take()
    }

    /// The elapsed seconds.
    pub fn counter(&self) -> (seconds: u16)
        ensures
            seconds == self@.counter,
    {
        self.counter
    }

    /// Overwrites the elapsed seconds.
    pub fn set_counter(&mut self, seconds: u16)
        ensures
            final(self)@ == (RegistryView { counter: seconds, ..old(self)@ }),
    {
        self.counter = seconds;
    }

    /// The stored debounce history.
    pub fn history(&self) -> (history: DebounceHistory)
        ensures
            history == self@.history,
    {
        self.history
    }

    /// Overwrites the stored debounce history.
    pub fn set_history(&mut self, history: DebounceHistory)
        ensures
            final(self)@ == (RegistryView { history: history, ..old(self)@ }),
    {
        self.history = history;
    }
}

} // verus!
