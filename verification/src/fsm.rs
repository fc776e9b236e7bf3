//! The first blinky state machine: every event flips the LED flag and moves
//! the machine to the other state.
use crate::response::Response;
use vstd::prelude::*;

verus! {

/// The machine's extended state: the LED flag.
#[derive(PartialEq, Eq, Structural, Clone, Copy, Debug)]
pub struct Blinky {
    pub led: bool,
}

/// The event that the machine handles.
#[derive(PartialEq, Eq, Structural, Clone, Copy, Debug)]
pub enum Event {
    TimerElapsed,
}

/// The states of the machine.
#[derive(PartialEq, Eq, Structural, Clone, Copy, Debug)]
pub enum State {
    On,
    Off,
}

/// The state the machine starts in.
pub open spec fn spec_initial() -> State {
    State::Off
}

/// The state each state moves to, and the LED flag it leaves behind.
pub open spec fn spec_step(state: State) -> (State, bool) {
    match state {
        State::On => (State::Off, false),
        State::Off => (State::On, true),
    }
}

impl Default for Blinky {
    fn default() -> (r: Blinky)
        ensures
            r.led == false,
    {
        Blinky { led: false }
    }
}

impl Blinky {
    /// The state the machine starts in.
    pub fn initial() -> (s: State)
        ensures
            s == spec_initial(),
    {
        State::Off
    }

    /// Handler of `On`: clears the LED flag and moves to `Off`.
    pub fn on(&mut self, event: &Event) -> (r: Response<State>)
        ensures
            final(self).led == spec_step(State::On).1,
            r == Response::Transition(spec_step(State::On).0),
    {
        self.led = false;
        Response::Transition(State::Off)
    }

    /// Handler of `Off`: sets the LED flag and moves to `On`.
    pub fn off(&mut self, event: &Event) -> (r: Response<State>)
        ensures
            final(self).led == spec_step(State::Off).1,
            r == Response::Transition(spec_step(State::Off).0),
    {
        self.led = true;
        Response::Transition(State::On)
    }
}

impl State {
    /// Runs the handler of this state.
    pub fn call_handler(&self, blinky: &mut Blinky, event: &Event) -> (r: Response<State>)
        ensures
            final(blinky).led == spec_step(*self).1,
            r == Response::Transition(spec_step(*self).0),
    {
        match self {
            State::On => blinky.on(event),
            State::Off => blinky.off(event),
        }
    }
}

/// Each event flips the machine's state, and the LED flag is set exactly
/// when the machine lands in `On`: two events bring it back where it was.
pub proof fn lemma_blinky_alternates(state: State)
    ensures
        spec_step(state).0 != state,
        spec_step(spec_step(state).0).0 == state,
        spec_step(state).1 <==> spec_step(state).0 == State::On,
{
}

} // verus!
