//! ADC readings: scaling a reading to an LED duty cycle, and the four-channel
//! stream that publishes its latest readings.
use vstd::prelude::*;

verus! {

/// The reading taken as full scale when scaling to a duty cycle.
pub const ADC_MAX_COUNTS: u32 = 2850;

/// The duty cycle for a reading: the reading's share of `ADC_MAX_COUNTS`,
/// applied to `max_duty`, rounded down.
pub open spec fn spec_duty(reading: u16, max_duty: u32) -> int {
    (reading as int * max_duty as int) / (ADC_MAX_COUNTS as int)
}

/// Scales an ADC reading to a PWM duty cycle. The product of the reading and
/// `max_duty` is computed in 32 bits, so it must fit there.
pub fn adc_to_duty(reading: u16, max_duty: u32) -> (pwm: u32)
    requires
        reading as int * max_duty as int <= u32::MAX,
    ensures
        pwm as int == spec_duty(reading, max_duty),
{
    (reading as u32 * max_duty) / ADC_MAX_COUNTS
}

/// A reading at or below full scale never asks for more than `max_duty`, and
/// a larger reading never gives a smaller duty cycle.
pub proof fn lemma_duty_bounded_monotone(a: u16, b: u16, max_duty: u32)
    requires
        a <= b,
    ensures
        spec_duty(a, max_duty) <= spec_duty(b, max_duty),
        b <= ADC_MAX_COUNTS ==> spec_duty(b, max_duty) <= max_duty,
{
    assert(a as int * max_duty as int <= b as int * max_duty as int) by (nonlinear_arith)
        requires
            a <= b,
    ;
    vstd::arithmetic::div_mod::lemma_div_is_ordered(
        a as int * max_duty as int,
        b as int * max_duty as int,
        ADC_MAX_COUNTS as int,
    );
    if b <= ADC_MAX_COUNTS {
        assert(b as int * max_duty as int <= ADC_MAX_COUNTS as int * max_duty as int)
            by (nonlinear_arith)
            requires
                b <= ADC_MAX_COUNTS,
        ;
        vstd::arithmetic::div_mod::lemma_div_is_ordered(
            b as int * max_duty as int,
            ADC_MAX_COUNTS as int * max_duty as int,
            ADC_MAX_COUNTS as int,
        );
        vstd::arithmetic::div_mod::lemma_div_multiples_vanish(
            max_duty as int,
            ADC_MAX_COUNTS as int,
        );
    }
}

/// The four ADC1 channels that the stream reads.
#[derive(PartialEq, Eq, Structural, Clone, Copy, Debug)]
pub enum AdcChannel {
    A1CH0,
    A1CH2,
    A1CH3,
    A1CH4,
}

/// The slot of a channel in the array of latest readings.
pub open spec fn spec_slot(channel: AdcChannel) -> int {
    match channel {
        AdcChannel::A1CH0 => 0,
        AdcChannel::A1CH2 => 1,
        AdcChannel::A1CH3 => 2,
        AdcChannel::A1CH4 => 3,
    }
}

impl AdcChannel {
    /// The slot of the channel in the array of latest readings.
    pub fn slot(&self) -> (i: usize)
        ensures
            i == spec_slot(*self),
    {
        match self {
            AdcChannel::A1CH0 => 0,
            AdcChannel::A1CH2 => 1,
            AdcChannel::A1CH3 => 2,
            AdcChannel::A1CH4 => 3,
        }
    }
}

/// The order in which the stream thread reads the channels each round.
pub fn stream_order() -> (order: Vec<AdcChannel>)
    ensures
        order@ == seq![AdcChannel::A1CH0, AdcChannel::A1CH2, AdcChannel::A1CH3, AdcChannel::A1CH4],
{
    let mut order: Vec<AdcChannel> = Vec::new();
    order.push(AdcChannel::A1CH0);
    order.push(AdcChannel::A1CH2);
    order.push(AdcChannel::A1CH3);
    order.push(AdcChannel::A1CH4);
    order
}

/// A failed conversion on one channel.
#[derive(PartialEq, Eq, Structural, Clone, Copy, Debug)]
pub struct AdcReadError {
    pub code: i32,
}

/// The stream's published readings, one slot per channel; the converter and
/// its channel drivers stay with the caller, who hands each conversion in.
#[derive(Clone, Copy, Debug)]
pub struct AdcStream {
    pub adc_atomic: [u16; 4],
}

impl AdcStream {
    /// Takes the outcome of one conversion on `channel` and returns the
    /// reading, or 0 when the conversion failed. A reading is published in
    /// its channel's slot, so the rest of the firmware sees the latest value
    /// of every channel; the other slots are left as they were.
    pub fn read(&mut self, channel: AdcChannel, sample: Result<u16, AdcReadError>) -> (ret: u16)
        ensures
            sample is Err ==> ret == 0 && final(self).adc_atomic@ == old(self).adc_atomic@,
            sample matches Ok(x) ==> ret == x,
            sample matches Ok(x) ==> final(self).adc_atomic@ == old(self).adc_atomic@.update(
                spec_slot(channel),
                x,
            ),
    {
        let mut ret: u16 = 0;
        match sample {
            Ok(x) => {
                let mut new: [u16; 4] = self.adc_atomic;
                new[channel.slot()] = x;
                self.adc_atomic = new;
                ret = x;
            },
            Err(_) => {},
        }
        ret
    }
}


/// The duty cycle is the reading's share of 2850, applied to `max_duty` and
/// rounded down: the largest duty whose multiple of 2850 does not exceed
/// reading times `max_duty`.
pub proof fn lemma_duty_is_share_of_2850(reading: u16, max_duty: u32)
    ensures
        spec_duty(reading, max_duty) * 2850 <= reading as int * max_duty as int,
        (reading as int) * (max_duty as int) < (spec_duty(reading, max_duty) + 1) * 2850,
{
    let p = reading as int * max_duty as int;
    vstd::arithmetic::div_mod::lemma_fundamental_div_mod(p, 2850);
    vstd::arithmetic::div_mod::lemma_mod_bound(p, 2850);
}

/// Each channel has its own slot, and the four slots are 0 to 3.
pub proof fn lemma_slots_distinct(a: AdcChannel, b: AdcChannel)
    ensures
        0 <= spec_slot(a) < 4,
        a != b ==> spec_slot(a) != spec_slot(b),
{
}

} // verus!
