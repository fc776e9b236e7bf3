//! The timer-driven LED machine of the Wi-Fi chapter: it starts with the LED
//! on, each `TimerElapsed` moves it to the other LED state, and entering
//! `LedOn` drives the pin high while entering `LedOff` drives it low.
use crate::response::Response;
use vstd::prelude::*;

verus! {

/// The machine's extended state: the level of the LED pin (`true` is high).
#[derive(PartialEq, Eq, Structural, Clone, Copy, Debug)]
pub struct Blinky {
    pub led: bool,
}

/// The event that the machine handles.
#[derive(PartialEq, Eq, Structural, Clone, Copy, Debug)]
pub enum Event {
    TimerElapsed,
}

/// The states of the machine.
#[derive(PartialEq, Eq, Structural, Clone, Copy, Debug)]
pub enum State {
    LedOn,
    LedOff,
}

/// The state a timer event leads to.
pub open spec fn spec_next(state: State) -> State {
    match state {
        State::LedOn => State::LedOff,
        State::LedOff => State::LedOn,
    }
}

/// The pin level that entering a state sets.
pub open spec fn spec_entry_level(state: State) -> bool {
    state == State::LedOn
}

impl Blinky {
    /// The state the machine starts in.
    pub fn initial() -> (s: State)
        ensures
            s == State::LedOn,
    {
        State::LedOn
    }

    /// Entry action of `LedOn`: drives the pin high.
    pub fn enter_on(&mut self)
        ensures
            final(self).led == spec_entry_level(State::LedOn),
    {
        self.led = true;
    }

    /// Entry action of `LedOff`: drives the pin low.
    pub fn enter_off(&mut self)
        ensures
            final(self).led == spec_entry_level(State::LedOff),
    {
        self.led = false;
    }

    /// Handler of `LedOn`: a timer event moves to `LedOff`.
    pub fn led_on(&self, event: &Event) -> (r: Response<State>)
        ensures
            r == Response::Transition(spec_next(State::LedOn)),
    {
        match event {
            Event::TimerElapsed => Response::Transition(State::LedOff),
        }
    }

    /// Handler of `LedOff`: a timer event moves to `LedOn`.
    pub fn led_off(&self, event: &Event) -> (r: Response<State>)
        ensures
            r == Response::Transition(spec_next(State::LedOff)),
    {
        match event {
            Event::TimerElapsed => Response::Transition(State::LedOn),
        }
    }
}

impl State {
    /// Runs the handler of this state.
    pub fn call_handler(&self, blinky: &Blinky, event: &Event) -> (r: Response<State>)
        ensures
            r == Response::Transition(spec_next(*self)),
    {
        match self {
            State::LedOn => blinky.led_on(event),
            State::LedOff => blinky.led_off(event),
        }
    }

    /// Runs the entry action of this state.
    pub fn call_entry_action(&self, blinky: &mut Blinky)
        ensures
            final(blinky).led == spec_entry_level(*self),
    {
        match self {
            State::LedOn => blinky.enter_on(),
            State::LedOff => blinky.enter_off(),
        }
    }
}

/// Timer events alternate the two states, and after each transition the pin
/// is high exactly in `LedOn`.
pub proof fn lemma_timer_toggles(state: State)
    ensures
        spec_next(state) != state,
        spec_next(spec_next(state)) == state,
        spec_entry_level(spec_next(state)) <==> spec_next(state) == State::LedOn,
{
}

} // verus!
