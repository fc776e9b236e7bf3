//! The blinky machine with a button: the LED states `LedOn` and `LedOff`
//! sit in the superstate `Blinking`, which a button press leaves for
//! `NotBlinking`; a second press starts blinking again with the LED on.
//! Entering `LedOn` drives the LED pin high, entering `LedOff` drives it low.
use crate::response::Response;
use vstd::prelude::*;

verus! {

/// The machine's extended state: the level of the LED pin (`true` is high).
#[derive(PartialEq, Eq, Structural, Clone, Copy, Debug)]
pub struct Blinky {
    pub led: bool,
}

/// The events that the machine handles.
#[derive(PartialEq, Eq, Structural, Clone, Copy, Debug)]
pub enum Event {
    TimerElapsed,
    ButtonPressed,
}

/// The states of the machine.
#[derive(PartialEq, Eq, Structural, Clone, Copy, Debug)]
pub enum State {
    LedOn,
    LedOff,
    NotBlinking,
}

/// The superstate that holds the two LED states.
#[derive(PartialEq, Eq, Structural, Clone, Copy, Debug)]
pub enum Superstate {
    Blinking,
}

/// What the handler of a state answers.
pub open spec fn spec_handler(state: State, event: Event) -> Response<State> {
    match (state, event) {
        (State::LedOn, Event::TimerElapsed) => Response::Transition(State::LedOff),
        (State::LedOff, Event::TimerElapsed) => Response::Transition(State::LedOn),
        (State::NotBlinking, Event::ButtonPressed) => Response::Transition(State::LedOn),
        _ => Response::Super,
    }
}

/// The superstate that encloses a state.
pub open spec fn spec_superstate(state: State) -> Option<Superstate> {
    match state {
        State::LedOn => Some(Superstate::Blinking),
        State::LedOff => Some(Superstate::Blinking),
        State::NotBlinking => None,
    }
}

/// What the handler of a superstate answers.
pub open spec fn spec_superstate_handler(superstate: Superstate, event: Event) -> Response<State> {
    match event {
        Event::ButtonPressed => Response::Transition(State::NotBlinking),
        _ => Response::Super,
    }
}

/// The state an event leads to: the state's own answer, or, where it defers,
/// the answer of its superstate; an event that no handler takes leaves the
/// state as it is.
pub open spec fn spec_next(state: State, event: Event) -> State {
    match spec_handler(state, event) {
        Response::Transition(target) => target,
        Response::Handled => state,
        Response::Super => match spec_superstate(state) {
            Some(superstate) => match spec_superstate_handler(superstate, event) {
                Response::Transition(target) => target,
                _ => state,
            },
            None => state,
        },
    }
}

/// The pin level that entering a state sets, where it sets one.
pub open spec fn spec_entry_level(state: State) -> Option<bool> {
    match state {
        State::LedOn => Some(true),
        State::LedOff => Some(false),
        State::NotBlinking => None,
    }
}

impl Blinky {
    /// The state the machine starts in.
    pub fn initial() -> (s: State)
        ensures
            s == State::LedOff,
    {
        State::LedOff
    }

    /// The state the machine starts in when it is declared with its LED on.
    pub fn initial_led_on() -> (s: State)
        ensures
            s == State::LedOn,
    {
        State::LedOn
    }

    /// Entry action of `LedOn`: drives the pin high.
    pub fn enter_led_on(&mut self)
        ensures
            final(self).led == true,
    {
        self.led = true;
    }

    /// Entry action of `LedOff`: drives the pin low.
    pub fn enter_led_off(&mut self)
        ensures
            final(self).led == false,
    {
        self.led = false;
    }

    /// Handler of `LedOn`: a timer event moves to `LedOff`; any other event
    /// is passed to the superstate.
    pub fn led_on(event: &Event) -> (r: Response<State>)
        ensures
            r == spec_handler(State::LedOn, *event),
    {
        match event {
            Event::TimerElapsed => Response::Transition(State::LedOff),
            _ => Response::Super,
        }
    }

    /// Handler of `LedOff`: a timer event moves to `LedOn`; any other event
    /// is passed to the superstate.
    pub fn led_off(event: &Event) -> (r: Response<State>)
        ensures
            r == spec_handler(State::LedOff, *event),
    {
        match event {
            Event::TimerElapsed => Response::Transition(State::LedOn),
            _ => Response::Super,
        }
    }

    /// Handler of `Blinking`: a button press stops the blinking.
    pub fn blinking(event: &Event) -> (r: Response<State>)
        ensures
            r == spec_superstate_handler(Superstate::Blinking, *event),
    {
        match event {
            Event::ButtonPressed => Response::Transition(State::NotBlinking),
            _ => Response::Super,
        }
    }

    /// Handler of `NotBlinking`: a button press starts blinking with the LED
    /// on; any other event is passed on.
    pub fn not_blinking(event: &Event) -> (r: Response<State>)
        ensures
            r == spec_handler(State::NotBlinking, *event),
    {
        match event {
            Event::ButtonPressed => Response::Transition(State::LedOn),
            _ => Response::Super,
        }
    }
}

impl State {
    /// Runs the handler of this state.
    pub fn call_handler(&self, event: &Event) -> (r: Response<State>)
        ensures
            r == spec_handler(*self, *event),
    {
        match self {
            State::LedOn => Blinky::led_on(event),
            State::LedOff => Blinky::led_off(event),
            State::NotBlinking => Blinky::not_blinking(event),
        }
    }

    /// The superstate that encloses this state.
    pub fn superstate(&self) -> (r: Option<Superstate>)
        ensures
            r == spec_superstate(*self),
    {
        match self {
            State::LedOn => Some(Superstate::Blinking),
            State::LedOff => Some(Superstate::Blinking),
            State::NotBlinking => None,
        }
    }

    /// Runs the entry action of this state; `NotBlinking` leaves the pin.
    pub fn call_entry_action(&self, blinky: &mut Blinky)
        ensures
            spec_entry_level(*self) matches Some(level) ==> final(blinky).led == level,
            spec_entry_level(*self) is None ==> *final(blinky) == *old(blinky),
    {
        match self {
            State::LedOn => blinky.enter_led_on(),
            State::LedOff => blinky.enter_led_off(),
            _ => {},
        }
    }
}

impl Superstate {
    /// Runs the handler of this superstate.
    pub fn call_handler(&self, event: &Event) -> (r: Response<State>)
        ensures
            r == spec_superstate_handler(*self, *event),
    {
        match self {
            Superstate::Blinking => Blinky::blinking(event),
        }
    }
}

/// While blinking, the timer alternates the two LED states and two timer
/// events bring the machine back; while not blinking, the timer changes
/// nothing.
pub proof fn lemma_timer_blinks(state: State)
    ensures
        state != State::NotBlinking ==> spec_next(state, Event::TimerElapsed) != state
            && spec_next(state, Event::TimerElapsed) != State::NotBlinking
            && spec_next(spec_next(state, Event::TimerElapsed), Event::TimerElapsed) == state,
        state == State::NotBlinking ==> spec_next(state, Event::TimerElapsed) == state,
{
}

/// A button press stops blinking from either LED state, and starts it again,
/// with the LED on, from `NotBlinking`: two presses leave `NotBlinking` as it
/// was, and bring a blinking machine back to `LedOn`.
pub proof fn lemma_button_toggles_blinking(state: State)
    ensures
        spec_superstate(state) is Some ==> spec_next(state, Event::ButtonPressed)
            == State::NotBlinking,
        spec_superstate(state) is None ==> spec_next(state, Event::ButtonPressed) == State::LedOn,
        state == State::NotBlinking ==> spec_next(
            spec_next(state, Event::ButtonPressed),
            Event::ButtonPressed,
        ) == State::NotBlinking,
        state != State::NotBlinking ==> spec_next(
            spec_next(state, Event::ButtonPressed),
            Event::ButtonPressed,
        ) == State::LedOn,
{
}

} // verus!
