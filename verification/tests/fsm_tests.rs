use esp32c3_tutorials::button_fsm;
use esp32c3_tutorials::fsm;
use esp32c3_tutorials::hsm;
use esp32c3_tutorials::hsm::{Blinky, Event, State, Superstate};
use esp32c3_tutorials::led_fsm;
use esp32c3_tutorials::response::Response;
use esp32c3_tutorials::wifi_blinky;

#[test]
fn first_blinky_flips_flag_and_state() {
    let mut b = fsm::Blinky::default();
    assert_eq!(fsm::Blinky::initial(), fsm::State::Off);
    let r = fsm::State::Off.call_handler(&mut b, &fsm::Event::TimerElapsed);
    assert_eq!(r, Response::Transition(fsm::State::On));
    assert!(b.led);
    let r = fsm::State::On.call_handler(&mut b, &fsm::Event::TimerElapsed);
    assert_eq!(r, Response::Transition(fsm::State::Off));
    assert!(!b.led);
}

#[test]
fn led_fsm_is_active_low() {
    let mut b = led_fsm::Blinky { led: true };
    assert_eq!(led_fsm::Blinky::initial(), led_fsm::State::LedOff);
    assert_eq!(
        led_fsm::State::LedOff.call_handler(&b, &led_fsm::Event::TimerElapsed),
        Response::Transition(led_fsm::State::LedOn)
    );
    led_fsm::State::LedOn.call_entry_action(&mut b);
    assert!(!b.led);
    led_fsm::State::LedOff.call_entry_action(&mut b);
    assert!(b.led);
}

#[test]
fn hsm_handlers() {
    assert_eq!(Blinky::initial(), State::LedOff);
    assert_eq!(Blinky::initial_led_on(), State::LedOn);
    assert_eq!(State::LedOn.call_handler(&Event::TimerElapsed), Response::Transition(State::LedOff));
    assert_eq!(State::LedOff.call_handler(&Event::TimerElapsed), Response::Transition(State::LedOn));
    assert_eq!(State::LedOn.call_handler(&Event::ButtonPressed), Response::Super);
    assert_eq!(State::NotBlinking.call_handler(&Event::TimerElapsed), Response::Super);
    assert_eq!(
        State::NotBlinking.call_handler(&Event::ButtonPressed),
        Response::Transition(State::LedOn)
    );
    assert_eq!(State::LedOff.superstate(), Some(Superstate::Blinking));
    assert_eq!(State::NotBlinking.superstate(), None);
    assert_eq!(
        Superstate::Blinking.call_handler(&Event::ButtonPressed),
        Response::Transition(State::NotBlinking)
    );
    assert_eq!(Superstate::Blinking.call_handler(&Event::TimerElapsed), Response::Super);
}

#[test]
fn hsm_entry_actions() {
    let mut b = Blinky { led: false };
    State::LedOn.call_entry_action(&mut b);
    assert!(b.led);
    State::NotBlinking.call_entry_action(&mut b);
    assert!(b.led);
    State::LedOff.call_entry_action(&mut b);
    assert!(!b.led);
}

#[test]
fn wifi_blinky_starts_on_and_drives_high() {
    let mut b = wifi_blinky::Blinky { led: false };
    let s = wifi_blinky::Blinky::initial();
    assert_eq!(s, wifi_blinky::State::LedOn);
    s.call_entry_action(&mut b);
    assert!(b.led);
    assert_eq!(
        s.call_handler(&b, &wifi_blinky::Event::TimerElapsed),
        Response::Transition(wifi_blinky::State::LedOff)
    );
}

#[test]
fn button_fsm_ticks() {
    let b = button_fsm::Button {};
    let s = button_fsm::Button::initial();
    assert_eq!(s, button_fsm::State::ButtonOff);
    assert_eq!(
        s.call_handler(&b, &button_fsm::Event::Tick),
        Response::Transition(button_fsm::State::ButtonOn)
    );
    assert_eq!(
        button_fsm::State::ButtonOn.call_handler(&b, &button_fsm::Event::Tick),
        Response::Transition(button_fsm::State::ButtonOff)
    );
}

/// Resolves an event through the state's handler and, where it defers,
/// its superstate's handler; returns the state the machine ends in.
fn resolve(state: State, event: Event) -> State {
    match state.call_handler(&event) {
        Response::Transition(t) => t,
        Response::Handled => state,
        Response::Super => match state.superstate() {
            Some(s) => match s.call_handler(&event) {
                Response::Transition(t) => t,
                _ => state,
            },
            None => state,
        },
    }
}

#[test]
fn hsm_timer_blinks_only_while_blinking() {
    assert_eq!(resolve(State::LedOn, Event::TimerElapsed), State::LedOff);
    assert_eq!(resolve(State::LedOff, Event::TimerElapsed), State::LedOn);
    assert_eq!(resolve(State::NotBlinking, Event::TimerElapsed), State::NotBlinking);
}

#[test]
fn hsm_button_toggles_blinking() {
    assert_eq!(resolve(State::LedOn, Event::ButtonPressed), State::NotBlinking);
    assert_eq!(resolve(State::LedOff, Event::ButtonPressed), State::NotBlinking);
    assert_eq!(resolve(State::NotBlinking, Event::ButtonPressed), State::LedOn);
    let twice = resolve(resolve(State::LedOff, Event::ButtonPressed), Event::ButtonPressed);
    assert_eq!(twice, State::LedOn);
}

#[test]
fn led_fsm_two_timer_events_return() {
    let b = led_fsm::Blinky { led: true };
    let mut s = led_fsm::Blinky::initial();
    for _ in 0..2 {
        s = match s.call_handler(&b, &led_fsm::Event::TimerElapsed) {
            Response::Transition(t) => t,
            _ => s,
        };
    }
    assert_eq!(s, led_fsm::State::LedOff);
}
