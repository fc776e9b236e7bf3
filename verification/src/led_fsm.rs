//! The LED state machine driven by a timer: each `TimerElapsed` moves the
//! machine between `LedOn` and `LedOff`, and entering a state drives the LED
//! pin. The board's LED is lit by a low pin.
use crate::response::Response;
use vstd::prelude::*;

verus! {

/// The machine's extended state: the level of the LED pin (`true` is high).
#[derive(PartialEq, Eq, Structural, Clone, Copy, Debug)]
pub struct Blinky {
    pub led: bool,
}

/// The event that the machine handles.
#[derive(PartialEq, Eq, Structural, Clone, Copy, Debug)]
pub enum Event {
    TimerElapsed,
}

/// The states of the machine.
#[derive(PartialEq, Eq, Structural, Clone, Copy, Debug)]
pub enum State {
    LedOn,
    LedOff,
}

/// The state the machine starts in.
pub open spec fn spec_initial() -> State {
    State::LedOff
}

/// The state that a timer event leads to.
pub open spec fn spec_next(state: State) -> State {
    match state {
        State::LedOn => State::LedOff,
        State::LedOff => State::LedOn,
    }
}

/// The pin level that entering a state sets: low lights the LED.
pub open spec fn spec_entry_level(state: State) -> bool {
    match state {
        State::LedOn => false,
        State::LedOff => true,
    }
}

impl Blinky {
    /// The state the machine starts in.
    pub fn initial() -> (s: State)
        ensures
            s == spec_initial(),
    {
        State::LedOff
    }

    /// Entry action of `LedOn`: drives the pin low, which lights the LED.
    pub fn enter_led_on(&mut self)
        ensures
            final(self).led == spec_entry_level(State::LedOn),
    {
        self.led = false;
    }

    /// Entry action of `LedOff`: drives the pin high, which darkens the LED.
    pub fn enter_led_off(&mut self)
        ensures
            final(self).led == spec_entry_level(State::LedOff),
    {
        self.led = true;
    }

    /// Handler of `LedOn`: a timer event moves to `LedOff`.
    pub fn led_on(&self, event: &Event) -> (r: Response<State>)
        ensures
            r == Response::Transition(spec_next(State::LedOn)),
    {
        match event {
            Event::TimerElapsed => Response::Transition(State::LedOff),
        }
    }

    /// Handler of `LedOff`: a timer event moves to `LedOn`.
    pub fn led_off(&self, event: &Event) -> (r: Response<State>)
        ensures
            r == Response::Transition(spec_next(State::LedOff)),
    {
        match event {
            Event::TimerElapsed => Response::Transition(State::LedOn),
        }
    }
}

impl State {
    /// Runs the handler of this state.
    pub fn call_handler(&self, blinky: &Blinky, event: &Event) -> (r: Response<State>)
        ensures
            r == Response::Transition(spec_next(*self)),
    {
        match self {
            State::LedOn => blinky.led_on(event),
            State::LedOff => blinky.led_off(event),
        }
    }

    /// Runs the entry action of this state.
    pub fn call_entry_action(&self, blinky: &mut Blinky)
        ensures
            final(blinky).led == spec_entry_level(*self),
    {
        match self {
            State::LedOn => blinky.enter_led_on(),
            State::LedOff => blinky.enter_led_off(),
        }
    }
}

/// Every timer event changes the state, two bring it back, and after each
/// transition the pin is low exactly when the machine is in `LedOn`.
pub proof fn lemma_timer_toggles(state: State)
    ensures
        spec_next(state) != state,
        spec_next(spec_next(state)) == state,
        !spec_entry_level(spec_next(state)) <==> spec_next(state) == State::LedOn,
{
}

} // verus!
