//! The button machine: every `Tick` moves it between `ButtonOn` and
//! `ButtonOff`; it starts in `ButtonOff` and its entry actions do nothing.
use crate::response::Response;
use vstd::prelude::*;

verus! {

/// The machine's extended state; the button pin itself stays with the caller.
#[derive(PartialEq, Eq, Structural, Clone, Copy, Debug)]
pub struct Button {}

/// The event that the machine handles.
#[derive(PartialEq, Eq, Structural, Clone, Copy, Debug)]
pub enum Event {
    Tick,
}

/// The states of the machine.
#[derive(PartialEq, Eq, Structural, Clone, Copy, Debug)]
pub enum State {
    ButtonOn,
    ButtonOff,
}

/// The state a tick leads to.
pub open spec fn spec_next(state: State) -> State {
    match state {
        State::ButtonOn => State::ButtonOff,
        State::ButtonOff => State::ButtonOn,
    }
}

impl Button {
    /// The state the machine starts in.
    pub fn initial() -> (s: State)
        ensures
            s == State::ButtonOff,
    {
        State::ButtonOff
    }

    /// Handler of `ButtonOn`: a tick moves to `ButtonOff`.
    pub fn button_on(&self, event: &Event) -> (r: Response<State>)
        ensures
            r == Response::Transition(spec_next(State::ButtonOn)),
    {
        match event {
            Event::Tick => Response::Transition(State::ButtonOff),
        }
    }

    /// Handler of `ButtonOff`: a tick moves to `ButtonOn`.
    pub fn button_off(&self, event: &Event) -> (r: Response<State>)
        ensures
            r == Response::Transition(spec_next(State::ButtonOff)),
    {
        match event {
            Event::Tick => Response::Transition(State::ButtonOn),
        }
    }
}

impl State {
    /// Runs the handler of this state.
    pub fn call_handler(&self, button: &Button, event: &Event) -> (r: Response<State>)
        ensures
            r == Response::Transition(spec_next(*self)),
    {
        match self {
            State::ButtonOn => button.button_on(event),
            State::ButtonOff => button.button_off(event),
        }
    }
}

/// Ticks alternate the two states: two ticks bring the machine back.
pub proof fn lemma_tick_toggles(state: State)
    ensures
        spec_next(state) != state,
        spec_next(spec_next(state)) == state,
{
}

} // verus!
