use esp32c3_tutorials::adc::stream_order;
use esp32c3_tutorials::adc::{adc_to_duty, AdcChannel, AdcReadError, AdcStream, ADC_MAX_COUNTS};
use esp32c3_tutorials::dht11::{
    assemble_frame, decode_frame, level_time_step, read_bit, Dht11Error, Reading, TIMEOUT_US,
};
use esp32c3_tutorials::sd_log::adc_csv_field;

fn frame(bytes: [u8; 5]) -> Vec<bool> {
    let mut bits = Vec::new();
    for b in bytes {
        for k in (0..8).rev() {
            bits.push((b >> k) & 1 == 1);
        }
    }
    bits
}

#[test]
fn duty_scales_reading() {
    assert_eq!(adc_to_duty(2850, 1023), 1023);
    assert_eq!(adc_to_duty(1425, 1000), 500);
    assert_eq!(adc_to_duty(0, 1023), 0);
    assert_eq!(ADC_MAX_COUNTS, 2850);
}

#[test]
fn stream_publishes_every_channel() {
    let mut s = AdcStream { adc_atomic: [0; 4] };
    assert_eq!(s.read(AdcChannel::A1CH0, Ok(17)), 17);
    assert_eq!(s.adc_atomic, [17, 0, 0, 0]);
    assert_eq!(s.read(AdcChannel::A1CH3, Ok(99)), 99);
    assert_eq!(s.adc_atomic, [17, 0, 99, 0]);
    assert_eq!(s.read(AdcChannel::A1CH2, Ok(5)), 5);
    assert_eq!(s.read(AdcChannel::A1CH4, Ok(6)), 6);
    assert_eq!(s.adc_atomic, [17, 5, 99, 6]);
    assert_eq!(s.read(AdcChannel::A1CH0, Err(AdcReadError { code: -1 })), 0);
    assert_eq!(s.adc_atomic, [17, 5, 99, 6]);
    assert_eq!(AdcChannel::A1CH4.slot(), 3);
}

#[test]
fn dht11_frame_decodes() {
    let bits = frame([45, 0, 23, 5, 73]);
    assert_eq!(assemble_frame(&bits), [45, 0, 23, 5, 73]);
    assert_eq!(
        decode_frame(&bits),
        Ok(Reading { humidity: 45, humidity_tenths: 0, temperature: 23, temperature_tenths: 5 })
    );
}

#[test]
fn dht11_checksum_error() {
    let bits = frame([45, 0, 23, 5, 74]);
    assert_eq!(decode_frame(&bits), Err(Dht11Error::Checksum));
}

#[test]
fn dht11_bits_and_timeout() {
    assert!(read_bit(20, 70));
    assert!(!read_bit(50, 26));
    assert!(!read_bit(30, 30));
    assert_eq!(level_time_step(0), Ok(1));
    assert_eq!(level_time_step(TIMEOUT_US - 2), Ok(TIMEOUT_US - 1));
    assert_eq!(level_time_step(TIMEOUT_US - 1), Err(Dht11Error::Timeout));
}

#[test]
fn csv_field() {
    assert_eq!(adc_csv_field(0), "0,");
    assert_eq!(adc_csv_field(2850), "2850,");
    assert_eq!(adc_csv_field(65535), "65535,");
}

#[test]
fn duty_is_monotone_and_bounded() {
    let mut last = 0;
    for r in 0..=2850u16 {
        let d = adc_to_duty(r, 8191);
        assert!(d >= last);
        assert!(d <= 8191);
        last = d;
    }
}

#[test]
fn stream_order_is_fixed() {
    assert_eq!(
        stream_order(),
        vec![AdcChannel::A1CH0, AdcChannel::A1CH2, AdcChannel::A1CH3, AdcChannel::A1CH4]
    );
}

#[test]
fn level_timer_counts_to_timeout() {
    let mut count = 0u16;
    let mut polls = 0u32;
    let outcome = loop {
        polls += 1;
        match level_time_step(count) {
            Ok(c) => count = c,
            Err(e) => break e,
        }
    };
    assert_eq!(outcome, Dht11Error::Timeout);
    assert_eq!(polls, TIMEOUT_US as u32);
    assert_eq!(count, TIMEOUT_US - 1);
}
