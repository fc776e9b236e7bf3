//! The decisions of the firmware's threads: turning button samples into
//! messages, what the LED thread does with a message, which events the
//! state-machine thread feeds its machine, and the tick divider of the
//! button-and-LED loop. Sampling pins, sleeping and sending stay with the
//! caller.
use crate::adc::{adc_to_duty, spec_duty};
use crate::hsm;
use vstd::prelude::*;

verus! {

/// The message the edge-reporting button thread sends for a sample: the
/// new level, when it differs from the last one reported.
pub open spec fn spec_edge_message(btn_status: bool, is_high: bool) -> Option<bool> {
    if is_high != btn_status {
        Some(is_high)
    } else {
        None
    }
}

/// The LED thread's status after it takes a round's message, if any.
pub open spec fn spec_received(blinky_status: bool, msg: Option<bool>) -> bool {
    match msg {
        Some(x) => x,
        None => blinky_status,
    }
}

/// The button thread that reports both edges: it remembers the last level it
/// reported and sends the new level whenever the pin changes.
#[derive(PartialEq, Eq, Structural, Clone, Copy, Debug)]
pub struct ButtonThread {
    pub btn_status: bool,
}

impl ButtonThread {
    /// The thread starts out reporting the button as released.
    pub fn new() -> (t: ButtonThread)
        ensures
            t.btn_status == false,
    {
        ButtonThread { btn_status: false }
    }

    /// Takes one sample of the pin: returns the level to send when it differs
    /// from the last reported one, and remembers it.
    pub fn step(&mut self, is_high: bool) -> (msg: Option<bool>)
        ensures
            final(self).btn_status == is_high,
            msg == spec_edge_message(old(self).btn_status, is_high),
    {
        if is_high {
            if !self.btn_status {
                self.btn_status = true;
                return Some(true);
            }
        } else {
            if self.btn_status {
                self.btn_status = false;
                return Some(false);
            }
        }
        None
    }
}

/// The button thread that reports presses only: a press is a high sample
/// after a low one. It starts as if the button were held, so a button held
/// at start-up is not reported.
#[derive(PartialEq, Eq, Structural, Clone, Copy, Debug)]
pub struct PressDetector {
    pub btn_state: bool,
}

impl PressDetector {
    /// The detector starts as if the button were held.
    pub fn new() -> (d: PressDetector)
        ensures
            d.btn_state == true,
    {
        PressDetector { btn_state: true }
    }

    /// Takes one sample of the pin and tells whether it is a press.
    pub fn step(&mut self, is_high: bool) -> (pressed: bool)
        ensures
            final(self).btn_state == is_high,
            pressed == (is_high && !old(self).btn_state),
    {
        if is_high {
            if !self.btn_state {
                self.btn_state = true;
                return true;
            }
        } else {
            self.btn_state = false;
        }
        false
    }
}

/// What the LED thread does in one round.
#[derive(PartialEq, Eq, Structural, Clone, Copy, Debug)]
pub enum LedPlan {
    /// One blink: the first duty (LED lit), a pause, the second duty (LED dark).
    Blink { on_duty: u32, off_duty: u32 },
    /// A steady duty cycle that follows the ADC reading.
    Follow { duty: u32 },
}

/// The LED thread: it blinks while the last message from the button was
/// `true`, and otherwise lets the ADC reading set the LED's brightness.
#[derive(PartialEq, Eq, Structural, Clone, Copy, Debug)]
pub struct BlinkyThread {
    pub blinky_status: bool,
}

impl BlinkyThread {
    /// The thread starts without blinking.
    pub fn new() -> (t: BlinkyThread)
        ensures
            t.blinky_status == false,
    {
        BlinkyThread { blinky_status: false }
    }

    /// Takes the message received this round, if any: it becomes the status.
    pub fn receive(&mut self, msg: Option<bool>)
        ensures
            final(self).blinky_status == spec_received(old(self).blinky_status, msg),
    {
        match msg {
            Some(x) => {
                self.blinky_status = x;
            },
            None => {},
        }
    }

    /// One round with a PWM-driven LED: after taking the message, blink
    /// between duty 0 (the LED is lit at 0) and `max_duty`, or follow the ADC
    /// reading. The ADC product is computed in 32 bits.
    pub fn step(&mut self, msg: Option<bool>, adc_value: u16, max_duty: u32) -> (plan: LedPlan)
        requires
            spec_received(old(self).blinky_status, msg) || adc_value as int * max_duty as int
                <= u32::MAX,
        ensures
            final(self).blinky_status == spec_received(old(self).blinky_status, msg),
            final(self).blinky_status ==> plan == (LedPlan::Blink { on_duty: 0, off_duty: max_duty }),
            !final(self).blinky_status ==> (plan matches LedPlan::Follow { duty } && duty as int
                == spec_duty(adc_value, max_duty)),
    {
        self.receive(msg);
        if self.blinky_status {
            LedPlan::Blink { on_duty: 0, off_duty: max_duty }
        } else {
            LedPlan::Follow { duty: adc_to_duty(adc_value, max_duty) }
        }
    }
}

/// Reporting both edges keeps the LED thread in step with the button: if the
/// two agreed before a sample, both hold the sampled level after it.
pub proof fn lemma_led_follows_button(button: ButtonThread, led: BlinkyThread, is_high: bool)
    requires
        button.btn_status == led.blinky_status,
    ensures
        spec_received(led.blinky_status, spec_edge_message(button.btn_status, is_high)) == is_high,
{
}

/// The events the state-machine thread feeds its machine in one round: the
/// timer event, then a button press when a button message arrived.
pub fn blinky_fsm_events(button_msg: bool) -> (events: Vec<hsm::Event>)
    ensures
        button_msg ==> events@ == seq![hsm::Event::TimerElapsed, hsm::Event::ButtonPressed],
        !button_msg ==> events@ == seq![hsm::Event::TimerElapsed],
{
    let mut events: Vec<hsm::Event> = Vec::new();
    events.push(hsm::Event::TimerElapsed);
    if button_msg {
        events.push(hsm::Event::ButtonPressed);
    }
    events
}

/// Rounds of the button-and-LED loop per timer event, less one.
pub const LED_DIVIDER: u32 = 10;

/// The tick divider of the button-and-LED loop: the timer event fires on
/// every eleventh round.
#[derive(PartialEq, Eq, Structural, Clone, Copy, Debug)]
pub struct TimerDivider {
    pub led_count: u32,
}

impl TimerDivider {
    /// The divider starts at zero.
    pub fn new() -> (d: TimerDivider)
        ensures
            d.led_count == 0,
    {
        TimerDivider { led_count: 0 }
    }

    /// Counts one round; returns whether the timer event fires, which
    /// restarts the count.
    pub fn step(&mut self) -> (fire: bool)
        requires
            old(self).led_count <= LED_DIVIDER,
        ensures
            fire == (old(self).led_count == LED_DIVIDER),
            final(self).led_count == if fire { 0 } else { old(self).led_count + 1 },
            final(self).led_count <= LED_DIVIDER,
    {
        self.led_count = self.led_count + 1;
        if self.led_count > LED_DIVIDER {
            self.led_count = 0;
            return true;
        }
        false
    }
}

} // verus!
