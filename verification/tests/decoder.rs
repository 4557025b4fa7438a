//! Tests of the single-wire frame codec and the line-level protocol reader.

use tempcore::sensors::dht22::decode_frame;
use tempcore::sensors::dht22::encode_reading;
use tempcore::sensors::dht22::new;
use tempcore::sensors::dht22::Error;
use tempcore::sensors::dht22::LineTrace;
use tempcore::sensors::dht22::Reading;
use tempcore::sensors::dht22::Runner;
use tempcore::sensors::dht22::Shared;
use tempcore::sensors::dht22::BIT_SAMPLE_DELAY_US;
use tempcore::sensors::dht22::MEASUREMENT_INTERVAL_MS;
use tempcore::sensors::dht22::POLL_TIMEOUT;
use tempcore::sensors::dht22::RESET_PULSE_MS;
use tempcore::sensors::dht22::SETTLE_DELAY_US;
use tempcore::sensors::humidity::HumiditySensor;
use tempcore::sensors::temperature::TemperatureSensor;

/// Waveform of one answer of the sensor, as 1 us samples: a short quiet
/// period, the presence pulse, then per bit a low gap and a high pulse whose
/// length encodes the bit.
fn frame_trace(bytes: [u8; 5]) -> LineTrace {
    let mut samples: Vec<bool> = Vec::new();
    samples.extend(std::iter::repeat(false).take(20));
    samples.extend(std::iter::repeat(true).take(40));
    for byte in bytes {
        for n in 0..8 {
            let bit = (byte >> (7 - n)) & 1 == 1;
            samples.extend(std::iter::repeat(false).take(50));
            samples.extend(std::iter::repeat(true).take(if bit { 70 } else { 26 }));
        }
    }
    samples.extend(std::iter::repeat(false).take(10));
    LineTrace { samples }
}

#[test]
fn scenario_checksum_mismatch_frame() {
    // Humidity bytes 0x02 0x1C, temperature bytes 0x01 0x02: the checksum
    // would be 0x21, so a frame carrying 0x1F is rejected.
    let r = decode_frame(&[0x02, 0x1C, 0x01, 0x02, 0x1F]);
    assert_eq!(r, Err(Error::ChecksumMismatch));
}

#[test]
fn scenario_valid_frame_values() {
    // 0x021C = 540 tenths of a percent, 0x0102 = 258 tenths of a degree.
    let r = decode_frame(&[0x02, 0x1C, 0x01, 0x02, 0x21]).unwrap();
    assert_eq!(r.humidity_tenths, 540);
    assert!(!r.temperature_negative);
    assert_eq!(r.temperature_magnitude_tenths, 258);
    assert_eq!(r.temperature_tenths(), 258);
}

#[test]
fn decode_encode_round_trip() {
    let frame = [0x02, 0x1C, 0x01, 0x02, 0x21];
    let r = decode_frame(&frame).unwrap();
    assert_eq!(encode_reading(&r), frame);
}

#[test]
fn negative_temperature_round_trip() {
    // Top bit of the temperature high byte set: -30.0 degrees.
    let frame = [0x01, 0xF4, 0x81, 0x2C, 0xA2];
    let r = decode_frame(&frame).unwrap();
    assert_eq!(r.humidity_tenths, 500);
    assert!(r.temperature_negative);
    assert_eq!(r.temperature_magnitude_tenths, 300);
    assert_eq!(r.temperature_tenths(), -300);
    assert_eq!(encode_reading(&r), frame);
}

#[test]
fn negative_zero_round_trip() {
    // A negative zero is a distinct frame and must survive the round trip.
    let frame = [0x00, 0x00, 0x80, 0x00, 0x80];
    let r = decode_frame(&frame).unwrap();
    assert!(r.temperature_negative);
    assert_eq!(r.temperature_magnitude_tenths, 0);
    assert_eq!(r.temperature_tenths(), 0);
    assert_eq!(encode_reading(&r), frame);
}

#[test]
fn encode_computes_checksum() {
    let r = Reading {
        humidity_tenths: 540,
        temperature_negative: false,
        temperature_magnitude_tenths: 258,
    };
    assert_eq!(encode_reading(&r), [0x02, 0x1C, 0x01, 0x02, 0x21]);
}

#[test]
fn wait_times_out_on_a_dead_line() {
    let (_sensor, runner) = new();
    let line = LineTrace { samples: vec![false; 150] };
    assert_eq!(runner.wait_for_high(&line, 0, POLL_TIMEOUT), Err(Error::Timeout));
}

#[test]
fn wait_finds_the_first_transition() {
    let (_sensor, runner) = new();
    let mut samples = vec![false; 150];
    samples[30] = true;
    samples[31] = true;
    let line = LineTrace { samples };
    assert_eq!(runner.wait_for_high(&line, 0, POLL_TIMEOUT), Ok(30));
    assert_eq!(runner.wait_for_low(&line, 30, POLL_TIMEOUT), Ok(32));
}

#[test]
fn wait_budget_is_exact() {
    // A transition at poll 99 is within a budget of 100 polls; one at poll
    // 100 is not.
    let mut samples = vec![false; 200];
    samples[99] = true;
    let line = LineTrace { samples };
    let (_sensor, runner) = new();
    assert_eq!(runner.wait_for_high(&line, 0, POLL_TIMEOUT), Ok(99));

    let mut samples = vec![false; 200];
    samples[100] = true;
    let line = LineTrace { samples };
    assert_eq!(runner.wait_for_high(&line, 0, POLL_TIMEOUT), Err(Error::Timeout));
}

#[test]
fn read_times_out_without_presence_pulse() {
    let (_sensor, runner) = new();
    let mut shared = Shared::new();
    let line = LineTrace { samples: vec![false; 400] };
    assert_eq!(runner.read(&mut shared, &line, 0), Err(Error::Timeout));
    assert_eq!(shared.temperature_tenths, 0);
    assert_eq!(shared.humidity_tenths, 1000);
}

#[test]
fn read_times_out_on_an_empty_trace() {
    let (_sensor, runner) = new();
    let mut shared = Shared::new();
    let line = LineTrace { samples: Vec::new() };
    assert_eq!(runner.read(&mut shared, &line, 0), Err(Error::Timeout));
}

#[test]
fn read_decodes_a_whole_frame() {
    let (_sensor, runner) = new();
    let mut shared = Shared::new();
    let line = frame_trace([0x02, 0x1C, 0x01, 0x02, 0x21]);
    assert_eq!(runner.read(&mut shared, &line, 0), Ok(()));
    assert_eq!(shared.humidity_tenths, 540);
    assert_eq!(shared.temperature_tenths, 258);
}

#[test]
fn read_decodes_a_negative_temperature() {
    let (_sensor, runner) = new();
    let mut shared = Shared::new();
    let line = frame_trace([0x01, 0xF4, 0x81, 0x2C, 0xA2]);
    assert_eq!(runner.read(&mut shared, &line, 0), Ok(()));
    assert_eq!(shared.humidity_tenths, 500);
    assert_eq!(shared.temperature_tenths, -300);
}

#[test]
fn read_keeps_prior_state_on_checksum_mismatch() {
    let (_sensor, runner) = new();
    let mut shared = Shared::new();

    let good = frame_trace([0x02, 0x1C, 0x01, 0x02, 0x21]);
    assert_eq!(runner.read(&mut shared, &good, 0), Ok(()));

    let bad = frame_trace([0x02, 0x1C, 0x01, 0x03, 0x21]);
    assert_eq!(runner.read(&mut shared, &bad, 0), Err(Error::ChecksumMismatch));
    assert_eq!(shared.humidity_tenths, 540);
    assert_eq!(shared.temperature_tenths, 258);
}

#[test]
fn read_keeps_prior_state_on_timeout() {
    let (_sensor, runner) = new();
    let mut shared = Shared::new();

    let good = frame_trace([0x02, 0x1C, 0x01, 0x02, 0x21]);
    assert_eq!(runner.read(&mut shared, &good, 0), Ok(()));

    // The presence pulse arrives, but the line dies during the first byte.
    let mut samples = vec![false; 20];
    samples.extend(std::iter::repeat(true).take(40));
    samples.extend(std::iter::repeat(false).take(400));
    let dead = LineTrace { samples };
    assert_eq!(runner.read(&mut shared, &dead, 0), Err(Error::Timeout));
    assert_eq!(shared.humidity_tenths, 540);
    assert_eq!(shared.temperature_tenths, 258);
}

#[test]
fn read_starts_anywhere_in_the_trace() {
    let (_sensor, runner) = new();
    let mut shared = Shared::new();
    let mut samples = vec![false; 77];
    samples.extend(frame_trace([0x00, 0x64, 0x00, 0xC8, 0x2C]).samples);
    let line = LineTrace { samples };
    assert_eq!(runner.read(&mut shared, &line, 77), Ok(()));
    assert_eq!(shared.humidity_tenths, 100);
    assert_eq!(shared.temperature_tenths, 200);
}

#[test]
fn protocol_budgets_are_the_documented_ones() {
    // These timings are budgets of the wire protocol, to be reproduced, not
    // tuned: 18 ms reset pulse, 40 us settle, 100 polls per transition at
    // 1 us each, and the 35 us mark that separates a one from a zero.
    assert_eq!(RESET_PULSE_MS, 18);
    assert_eq!(SETTLE_DELAY_US, 40);
    assert_eq!(POLL_TIMEOUT, 100);
    assert_eq!(BIT_SAMPLE_DELAY_US, 35);
    assert_eq!(MEASUREMENT_INTERVAL_MS, 1000);
}

#[test]
fn shared_starts_at_the_documented_sentinels() {
    let shared = Shared::new();
    assert_eq!(shared.temperature_tenths, 0);
    assert_eq!(shared.humidity_tenths, 1000);
}

#[test]
fn sensor_capability_reads_the_shared_cell() {
    let (sensor, runner) = new();
    let mut shared = Shared::new();
    assert_eq!(sensor.get_temperature(&shared), 0);
    assert_eq!(sensor.get_humidity(&shared), 1000);
    assert_eq!(sensor.rate_ms(), MEASUREMENT_INTERVAL_MS);

    let line = frame_trace([0x02, 0x1C, 0x01, 0x02, 0x21]);
    runner.read(&mut shared, &line, 0).unwrap();
    assert_eq!(sensor.get_temperature(&shared), 258);
    assert_eq!(sensor.get_humidity(&shared), 540);
}

#[test]
fn runner_read_byte_is_msb_first() {
    let line = frame_trace([0xA5, 0x00, 0x00, 0x00, 0xA5]);
    let (_sensor, runner) = new();
    // Skip the presence pulse by hand: high from 20, low again at 60.
    let r: Result<(u8, usize), Error> = runner.read_byte(&line, 60);
    let (byte, _next) = r.unwrap();
    assert_eq!(byte, 0xA5);
}
