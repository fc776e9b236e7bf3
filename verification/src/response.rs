use vstd::prelude::*;

verus! {

/// What a state handler answers to an event: the event is consumed, it is
/// passed on to the enclosing superstate, or the machine moves to a target
/// state.
#[derive(PartialEq, Eq, Structural, Debug)]
pub enum Response<S> {
    Handled,
    Super,
    Transition(S),
}

} // verus!
