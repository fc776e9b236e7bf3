use esp32c3_tutorials::hsm::Event;
use esp32c3_tutorials::tasks::{
    blinky_fsm_events, BlinkyThread, ButtonThread, LedPlan, PressDetector, TimerDivider,
};
use esp32c3_tutorials::uart_echo::{
    cli_hello, echo_done, echo_receive, hello_message, uart_write_outcome, CliError,
};

#[test]
fn button_reports_both_edges() {
    let mut b = ButtonThread::new();
    assert_eq!(b.step(false), None);
    assert_eq!(b.step(true), Some(true));
    assert_eq!(b.step(true), None);
    assert_eq!(b.step(false), Some(false));
}

#[test]
fn press_detector_ignores_held_button_at_start() {
    let mut d = PressDetector::new();
    assert!(!d.step(true));
    assert!(!d.step(false));
    assert!(d.step(true));
    assert!(!d.step(true));
}

#[test]
fn led_thread_follows_button_messages() {
    let mut b = ButtonThread::new();
    let mut led = BlinkyThread::new();
    for level in [true, true, false, true, false, false] {
        let msg = b.step(level);
        led.receive(msg);
        assert_eq!(led.blinky_status, level);
    }
}

#[test]
fn led_thread_plans() {
    let mut led = BlinkyThread::new();
    assert_eq!(led.step(None, 1425, 1000), LedPlan::Follow { duty: 500 });
    assert_eq!(led.step(Some(true), 1425, 1000), LedPlan::Blink { on_duty: 0, off_duty: 1000 });
    assert_eq!(led.step(None, 0, 1000), LedPlan::Blink { on_duty: 0, off_duty: 1000 });
    assert_eq!(led.step(Some(false), 2850, 1000), LedPlan::Follow { duty: 1000 });
}

#[test]
fn fsm_thread_events() {
    assert_eq!(blinky_fsm_events(false), vec![Event::TimerElapsed]);
    assert_eq!(blinky_fsm_events(true), vec![Event::TimerElapsed, Event::ButtonPressed]);
}

#[test]
fn divider_fires_every_eleventh_round() {
    let mut d = TimerDivider::new();
    let fired: Vec<bool> = (0..22).map(|_| d.step()).collect();
    let positions: Vec<usize> = fired.iter().enumerate().filter(|(_, f)| **f).map(|(i, _)| i).collect();
    assert_eq!(positions, vec![10, 21]);
}

#[test]
fn echo_loop() {
    let mut buf = Vec::new();
    assert!(!echo_receive(&mut buf, Some(b'h')));
    assert!(!echo_receive(&mut buf, None));
    assert!(echo_receive(&mut buf, Some(13)));
    assert_eq!(buf, vec![b'h', 13]);
    echo_done(&mut buf, uart_write_outcome(false));
    assert_eq!(buf, vec![b'h', 13]);
    echo_done(&mut buf, uart_write_outcome(true));
    assert!(buf.is_empty());
}

#[test]
fn p7_hello_fails() {
    assert_eq!(cli_hello("anything"), CliError::Fail);
    assert_eq!(hello_message(), "Hello World");
}
