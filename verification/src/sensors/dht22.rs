//! Single-wire humidity/temperature sensor driver.
//!
//! The sensor answers a reset handshake with a 40-bit frame: humidity high
//! byte, humidity low byte, temperature high byte, temperature low byte, and a
//! checksum that must equal the sum of the first four bytes modulo 256.
//! Humidity is the 16-bit big-endian value in tenths of a percent; the
//! temperature magnitude is the low 15 bits of its pair in tenths of a degree,
//! negated when the top bit of the temperature high byte is set.

use vstd::prelude::*;

verus! {

/// Interval between two whole read attempts, in milliseconds.
pub const MEASUREMENT_INTERVAL_MS: u64 = 1000;

/// Failures of one read attempt. The shared state keeps its previous value on
/// either of them.
#[derive(Clone, Copy, Debug, PartialEq, Eq, Structural)]
pub enum Error {
    /// An expected line transition did not occur within its poll budget.
    Timeout,
    /// The frame arrived but its byte sum did not match the checksum byte.
    ChecksumMismatch,
}

/// One decoded frame: humidity in tenths of a percent, temperature as a
/// sign-and-magnitude pair in tenths of a degree. The sign is kept apart from
/// the magnitude because the wire format does: a frame may carry a negative
/// zero, and re-encoding must reproduce it.
#[derive(Clone, Copy, Debug, PartialEq, Eq, Structural)]
pub struct Reading {
    pub humidity_tenths: u16,
    pub temperature_negative: bool,
    pub temperature_magnitude_tenths: u16,
}

impl Reading {
    /// The magnitude comes from 15 bits of the frame, so it stays below 2^15.
    pub open spec fn wf(self) -> bool {
        self.temperature_magnitude_tenths < 0x8000
    }

    /// Temperature in tenths of a degree, sign applied.
    pub open spec fn spec_temperature_tenths(self) -> int {
        if self.temperature_negative {
            -(self.temperature_magnitude_tenths as int)
        } else {
            self.temperature_magnitude_tenths as int
        }
    }

    /// Temperature in tenths of a degree, sign applied.
    pub fn temperature_tenths(&self) -> (t: i32)
        ensures
            t as int == self.spec_temperature_tenths(),
    {
        if self.temperature_negative {
            -(self.temperature_magnitude_tenths as i32)
        } else {
            self.temperature_magnitude_tenths as i32
        }
    }
}

/// Sum of the four data bytes modulo 256: the checksum the sensor sends as
/// the fifth byte.
pub open spec fn spec_checksum(frame: Seq<u8>) -> int
    recommends
        frame.len() >= 4,
{
    (frame[0] + frame[1] + frame[2] + frame[3]) % 256
}

/// A frame is sound when its fifth byte carries the checksum of the first
/// four.
pub open spec fn frame_checksum_ok(frame: Seq<u8>) -> bool
    recommends
        frame.len() == 5,
{
    spec_checksum(frame) == frame[4]
}

/// The reading a sound frame denotes.
pub open spec fn spec_reading(frame: Seq<u8>) -> Reading
    recommends
        frame.len() == 5,
{
    Reading {
        humidity_tenths: (frame[0] * 256 + frame[1]) as u16,
        temperature_negative: frame[2] >= 128,
        temperature_magnitude_tenths: ((frame[2] % 128) * 256 + frame[3]) as u16,
    }
}

/// The frame bytes a reading denotes: the inverse of `spec_reading` on sound
/// frames.
pub open spec fn spec_encode(r: Reading) -> Seq<u8>
    recommends
        r.wf(),
{
    let b0 = (r.humidity_tenths / 256) as u8;
    let b1 = (r.humidity_tenths % 256) as u8;
    let b2 = (r.temperature_magnitude_tenths / 256 + if r.temperature_negative {
        128int
    } else {
        0int
    }) as u8;
    let b3 = (r.temperature_magnitude_tenths % 256) as u8;
    let b4 = ((b0 + b1 + b2 + b3) % 256) as u8;
    seq![b0, b1, b2, b3, b4]
}

/// Checks the frame's checksum and extracts the reading.
///
/// Returns `ChecksumMismatch`, and only then, when the byte sum of the first
/// four bytes modulo 256 differs from the fifth byte.
pub fn decode_frame(frame: &[u8; 5]) -> (r: Result<Reading, Error>)
    ensures
        match r {
            Ok(reading) => frame_checksum_ok(frame@) && reading == spec_reading(frame@)
                && reading.wf(),
            Err(e) => e == Error::ChecksumMismatch && !frame_checksum_ok(frame@),
        },
{
    let b0 = frame[0];
    let b1 = frame[1];
    let b2 = frame[2];
    let b3 = frame[3];
    let sum: u32 = b0 as u32 + b1 as u32 + b2 as u32 + b3 as u32;
    let checksum: u8 = (sum % 256) as u8;
    if checksum != frame[4] {
        return Err(Error::ChecksumMismatch);
    }

    let humidity: u16 = ((b0 as u16) << 8u16) | (b1 as u16);
    assert(humidity == b0 * 256 + b1) by (bit_vector)
        requires
            humidity == ((b0 as u16) << 8u16) | (b1 as u16),
    ;

    let magnitude: u16 = (((b2 & 0x7f) as u16) << 8u16) | (b3 as u16);
    assert(magnitude == (b2 % 128) * 256 + b3) by (bit_vector)
        requires
            magnitude == (((b2 & 0x7f) as u16) << 8u16) | (b3 as u16),
    ;

    let negative: bool = b2 & 0x80 != 0;
    assert((b2 & 0x80 != 0) == (b2 >= 128)) by (bit_vector);

    Ok(Reading {
        humidity_tenths: humidity,
        temperature_negative: negative,
        temperature_magnitude_tenths: magnitude,
    })
}

/// Rebuilds the frame bytes of a reading, checksum included.
pub fn encode_reading(r: &Reading) -> (frame: [u8; 5])
    requires
        r.wf(),
    ensures
        frame@ == spec_encode(*r),
        frame_checksum_ok(frame@),
{
    let hum: u16 = r.humidity_tenths;
    let mag: u16 = r.temperature_magnitude_tenths;
    let b0: u8 = (hum >> 8u16) as u8;
    assert(b0 == hum / 256) by (bit_vector)
        requires
            b0 == (hum >> 8u16) as u8,
    ;
    let b1: u8 = hum as u8;
    assert(b1 == hum % 256) by (bit_vector)
        requires
            b1 == hum as u8,
    ;
    let high: u16 = mag >> 8u16;
    assert(high == mag / 256 && high < 128) by (bit_vector)
        requires
            high == mag >> 8u16,
            mag < 0x8000,
    ;
    let b2: u8 = if r.temperature_negative {
        (high as u8) | 0x80
    } else {
        high as u8
    };
    assert(high < 128 ==> ((high as u8) | 0x80) == high + 128) by (bit_vector);
    let b3: u8 = mag as u8;
    assert(b3 == mag % 256) by (bit_vector)
        requires
            b3 == mag as u8,
    ;
    let sum: u32 = b0 as u32 + b1 as u32 + b2 as u32 + b3 as u32;
    let b4: u8 = (sum % 256) as u8;
    let frame: [u8; 5] = [b0, b1, b2, b3, b4];
    proof {
        assert(frame@ =~= spec_encode(*r));
    }
    frame
}

/// Poll budget for one expected line transition: the line is polled once per
/// microsecond, at most this many times.
pub const POLL_TIMEOUT: usize = 100;

/// Microseconds between the rising edge of a bit pulse and the instant the
/// level is sampled to tell a long (one) pulse from a short (zero) one.
pub const BIT_SAMPLE_DELAY_US: usize = 35;

/// Milliseconds the caller must hold the line low to wake the sensor before a
/// read attempt.
pub const RESET_PULSE_MS: u64 = 18;

/// Microseconds the caller must let the line settle after releasing it,
/// before the first poll of the presence handshake.
pub const SETTLE_DELAY_US: u64 = 40;

/// Upper bound on how many polls past its starting position one whole read
/// attempt can inspect; callers keep positions this far from overflow.
pub const READ_SPAN: usize = 16000;

/// The line as the driver observes it: one sample per one-microsecond poll,
/// `true` for high. Position 0 is the first poll after the reset pulse's
/// settle delay; past the end of the samples the line reads low.
pub struct LineTrace {
    pub samples: Vec<bool>,
}

impl LineTrace {
    /// Level seen by a poll at position `i`; low past the recorded samples.
    pub open spec fn level_at(self, i: int) -> bool {
        0 <= i < self.samples@.len() && self.samples@[i]
    }

    /// One poll of the line.
    pub fn level(&self, i: usize) -> (b: bool)
        ensures
            b == self.level_at(i as int),
    {
        if i < self.samples.len() {
            self.samples[i]
        } else {
            false
        }
    }
}

/// Position of the first poll in `[pos, pos + budget)` at which the line
/// shows `level`, or `None` when the budget runs out first.
pub open spec fn spec_wait(line: LineTrace, pos: int, level: bool, budget: nat) -> Option<int>
    decreases budget,
{
    if budget == 0 {
        None
    } else if line.level_at(pos) == level {
        Some(pos)
    } else {
        spec_wait(line, pos + 1, level, (budget - 1) as nat)
    }
}

/// A bounded wait observes exactly its window and no more: it yields the
/// first matching poll of the window, and times out exactly when the window
/// holds none — after the full budget of polls, never more.
pub proof fn lemma_wait_first_transition(line: LineTrace, pos: int, level: bool, budget: nat)
    ensures
        match spec_wait(line, pos, level, budget) {
            Some(p) => pos <= p < pos + budget && line.level_at(p) == level && forall|k: int|
                pos <= k < p ==> line.level_at(k) != level,
            None => forall|k: int| pos <= k < pos + budget ==> line.level_at(k) != level,
        },
    decreases budget,
{
    if budget > 0 && line.level_at(pos) != level {
        lemma_wait_first_transition(line, pos + 1, level, (budget - 1) as nat);
    }
}

/// Timeout property: on a line that never leaves the low level, a whole read
/// attempt fails with a timeout — detected inside the very first poll window,
/// after no more polls than the budget — and `Runner::read` then leaves the
/// shared state untouched.
pub proof fn lemma_dead_line_times_out(line: LineTrace, start: int)
    requires
        forall|k: int| !line.level_at(k),
    ensures
        spec_read_bytes(line, start) is None,
{
    lemma_wait_first_transition(line, start, true, POLL_TIMEOUT as nat);
}

/// One bit: wait for the rising edge, sample after the fixed delay, and for a
/// long pulse wait for the line to drop again. Yields the bit and the
/// position at which the next bit's polling starts.
pub open spec fn spec_read_bit(line: LineTrace, pos: int) -> Option<(bool, int)> {
    match spec_wait(line, pos, true, POLL_TIMEOUT as nat) {
        None => None,
        Some(p) => {
            let sample = p + BIT_SAMPLE_DELAY_US;
            if line.level_at(sample) {
                match spec_wait(line, sample, false, POLL_TIMEOUT as nat) {
                    None => None,
                    Some(q) => Some((true, q)),
                }
            } else {
                Some((false, sample))
            }
        },
    }
}

/// Bits left to read of one byte, most significant first: `acc` carries the
/// bits already placed at their final positions.
pub open spec fn spec_read_byte_rec(line: LineTrace, pos: int, n: usize, acc: u8) -> Option<
    (u8, int),
>
    decreases 8 - n,
{
    if n >= 8 {
        Some((acc, pos))
    } else {
        match spec_read_bit(line, pos) {
            None => None,
            Some((bit, p)) => {
                let acc2 = if bit {
                    acc | (1u8 << (7 - n))
                } else {
                    acc
                };
                spec_read_byte_rec(line, p, (n + 1) as usize, acc2)
            },
        }
    }
}

/// One byte of the frame, most significant bit first.
pub open spec fn spec_read_byte(line: LineTrace, pos: int) -> Option<(u8, int)> {
    spec_read_byte_rec(line, pos, 0, 0)
}

/// The five frame bytes, in wire order.
pub open spec fn spec_read_frame(line: LineTrace, pos: int) -> Option<(Seq<u8>, int)> {
    match spec_read_byte(line, pos) {
        None => None,
        Some((b0, p1)) => match spec_read_byte(line, p1) {
            None => None,
            Some((b1, p2)) => match spec_read_byte(line, p2) {
                None => None,
                Some((b2, p3)) => match spec_read_byte(line, p3) {
                    None => None,
                    Some((b3, p4)) => match spec_read_byte(line, p4) {
                        None => None,
                        Some((b4, p5)) => Some((seq![b0, b1, b2, b3, b4], p5)),
                    },
                },
            },
        },
    }
}

/// Presence handshake: the sensor raises the line, then pulls it low to
/// acknowledge, each within one poll budget.
pub open spec fn spec_handshake(line: LineTrace, pos: int) -> Option<int> {
    match spec_wait(line, pos, true, POLL_TIMEOUT as nat) {
        None => None,
        Some(p) => spec_wait(line, p, false, POLL_TIMEOUT as nat),
    }
}

/// The frame bytes one whole read attempt recovers from the line, or `None`
/// when any expected transition times out.
pub open spec fn spec_read_bytes(line: LineTrace, start: int) -> Option<Seq<u8>> {
    match spec_handshake(line, start) {
        None => None,
        Some(p) => match spec_read_frame(line, p) {
            None => None,
            Some((bytes, _)) => Some(bytes),
        },
    }
}

/// Last successfully decoded values, kept across failed attempts. The cell is
/// written only by the driver's own task and read through sensor handles;
/// exclusive access during an update is the caller's mutable borrow.
pub struct Shared {
    pub temperature_tenths: i32,
    pub humidity_tenths: u16,
}

impl Shared {
    /// Initial state before any successful read: 0.0 degrees, 100.0 percent.
    pub fn new() -> (s: Shared)
        ensures
            s.temperature_tenths == 0,
            s.humidity_tenths == 1000,
    {
        Shared { temperature_tenths: 0, humidity_tenths: 1000 }
    }
}

/// Reader handle onto the shared cell.
#[derive(Clone, Copy)]
pub struct Dht22 {}

/// Drives read attempts and publishes their results into the shared cell.
pub struct Runner {}

impl Runner {
    /// Poll until the line reads high, at most `timeout_polls` polls.
    pub fn wait_for_high(&self, line: &LineTrace, pos: usize, timeout_polls: usize) -> (r: Result<
        usize,
        Error,
    >)
        requires
            pos + timeout_polls <= usize::MAX,
        ensures
            match r {
                Ok(p) => spec_wait(*line, pos as int, true, timeout_polls as nat) == Some(p as int)
                    && pos <= p < pos + timeout_polls,
                Err(e) => e == Error::Timeout && spec_wait(
                    *line,
                    pos as int,
                    true,
                    timeout_polls as nat,
                ) is None,
            },
    {
        self.wait_for_level(line, pos, true, timeout_polls)
    }

    /// Poll until the line reads low, at most `timeout_polls` polls.
    pub fn wait_for_low(&self, line: &LineTrace, pos: usize, timeout_polls: usize) -> (r: Result<
        usize,
        Error,
    >)
        requires
            pos + timeout_polls <= usize::MAX,
        ensures
            match r {
                Ok(p) => spec_wait(*line, pos as int, false, timeout_polls as nat) == Some(p as int)
                    && pos <= p < pos + timeout_polls,
                Err(e) => e == Error::Timeout && spec_wait(
                    *line,
                    pos as int,
                    false,
                    timeout_polls as nat,
                ) is None,
            },
    {
        self.wait_for_level(line, pos, false, timeout_polls)
    }

    /// Busy-poll for the wanted level, one poll per microsecond, never more
    /// than the budget. Deliberately not a suspension point: the windows
    /// between transitions are a few tens of microseconds.
    fn wait_for_level(&self, line: &LineTrace, pos: usize, level: bool, timeout_polls: usize) -> (r:
        Result<usize, Error>)
        requires
            pos + timeout_polls <= usize::MAX,
        ensures
            match r {
                Ok(p) => spec_wait(*line, pos as int, level, timeout_polls as nat) == Some(p as int)
                    && pos <= p < pos + timeout_polls,
                Err(e) => e == Error::Timeout && spec_wait(
                    *line,
                    pos as int,
                    level,
                    timeout_polls as nat,
                ) is None,
            },
    {
        let mut i: usize = 0;
        while i < timeout_polls
            invariant
                i <= timeout_polls,
                pos + timeout_polls <= usize::MAX,
                spec_wait(*line, pos as int, level, timeout_polls as nat) == spec_wait(
                    *line,
                    (pos + i) as int,
                    level,
                    (timeout_polls - i) as nat,
                ),
            decreases timeout_polls - i,
        {
            if line.level(pos + i) == level {
                return Ok(pos + i);
            }
            i += 1;
        }
        Err(Error::Timeout)
    }

    /// Read the eight bits of one byte, most significant first.
    pub fn read_byte(&self, line: &LineTrace, pos: usize) -> (r: Result<(u8, usize), Error>)
        requires
            pos <= usize::MAX - 2400,
        ensures
            match r {
                Ok((byte, newpos)) => spec_read_byte(*line, pos as int) == Some(
                    (byte, newpos as int),
                ) && pos <= newpos <= pos + 2000,
                Err(e) => e == Error::Timeout && spec_read_byte(*line, pos as int) is None,
            },
    {
        let mut byte: u8 = 0;
        let mut cur: usize = pos;
        let mut n: usize = 0;
        while n < 8
            invariant
                n <= 8,
                pos <= cur <= pos + n * 235,
                pos <= usize::MAX - 2400,
                spec_read_byte(*line, pos as int) == spec_read_byte_rec(
                    *line,
                    cur as int,
                    n,
                    byte,
                ),
            decreases 8 - n,
        {
            let p = match self.wait_for_high(line, cur, POLL_TIMEOUT) {
                Ok(p) => p,
                Err(e) => {
                    return Err(e);
                },
            };
            let sample = p + BIT_SAMPLE_DELAY_US;
            let is_bit_1 = line.level(sample);
            if is_bit_1 {
                let bit_mask: u8 = 1u8 << (7 - n);
                byte = byte | bit_mask;
                cur = match self.wait_for_low(line, sample, POLL_TIMEOUT) {
                    Ok(q) => q,
                    Err(e) => {
                        return Err(e);
                    },
                };
            } else {
                cur = sample;
            }
            n += 1;
        }
        Ok((byte, cur))
    }

    /// One whole read attempt over a sampled line: presence handshake, five
    /// frame bytes, checksum, then publication into the shared cell. On any
    /// timeout or checksum mismatch the shared cell keeps its prior value.
    pub fn read(&self, shared: &mut Shared, line: &LineTrace, start: usize) -> (r: Result<
        (),
        Error,
    >)
        requires
            start <= usize::MAX - READ_SPAN,
        ensures
            match spec_read_bytes(*line, start as int) {
                None => r == Err::<(), Error>(Error::Timeout) && *final(shared) == *old(shared),
                Some(bytes) => if frame_checksum_ok(bytes) {
                    &&& r == Ok::<(), Error>(())
                    &&& final(shared).humidity_tenths == spec_reading(bytes).humidity_tenths
                    &&& final(shared).temperature_tenths == spec_reading(
                        bytes,
                    ).spec_temperature_tenths()
                } else {
                    r == Err::<(), Error>(Error::ChecksumMismatch) && *final(shared) == *old(shared)
                },
            },
    {
        let p = match self.wait_for_high(line, start, POLL_TIMEOUT) {
            Ok(p) => p,
            Err(e) => {
                return Err(e);
            },
        };
        let q = match self.wait_for_low(line, p, POLL_TIMEOUT) {
            Ok(q) => q,
            Err(e) => {
                return Err(e);
            },
        };

        let (b0, p1) = match self.read_byte(line, q) {
            Ok(v) => v,
            Err(e) => {
                return Err(e);
            },
        };
        let (b1, p2) = match self.read_byte(line, p1) {
            Ok(v) => v,
            Err(e) => {
                return Err(e);
            },
        };
        let (b2, p3) = match self.read_byte(line, p2) {
            Ok(v) => v,
            Err(e) => {
                return Err(e);
            },
        };
        let (b3, p4) = match self.read_byte(line, p3) {
            Ok(v) => v,
            Err(e) => {
                return Err(e);
            },
        };
        let (b4, _p5) = match self.read_byte(line, p4) {
            Ok(v) => v,
            Err(e) => {
                return Err(e);
            },
        };

        let frame: [u8; 5] = [b0, b1, b2, b3, b4];
        proof {
            assert(spec_read_bytes(*line, start as int) == Some(frame@));
            assert(frame@[0] == b0 && frame@[1] == b1 && frame@[2] == b2 && frame@[3] == b3
                && frame@[4] == b4);
        }
        let reading = match decode_frame(&frame) {
            Ok(reading) => reading,
            Err(e) => {
                return Err(e);
            },
        };

        shared.temperature_tenths = reading.temperature_tenths();
        shared.humidity_tenths = reading.humidity_tenths;
        Ok(())
    }
}

impl crate::sensors::temperature::TemperatureSensor for Dht22 {
    type Shared = Shared;

    open spec fn temperature_of(shared: &Shared) -> int {
        shared.temperature_tenths as int
    }

    fn rate_ms(&self) -> u64 {
        MEASUREMENT_INTERVAL_MS
    }

    fn get_temperature(&self, shared: &Shared) -> (t: i32) {
        shared.temperature_tenths
    }
}

impl crate::sensors::humidity::HumiditySensor for Dht22 {
    type Shared = Shared;

    open spec fn humidity_of(shared: &Shared) -> int {
        shared.humidity_tenths as int
    }

    fn get_humidity(&self, shared: &Shared) -> (h: u16) {
        shared.humidity_tenths
    }
}

/// Splits the driver into a reader handle and the runner that owns the line.
pub fn new() -> (pair: (Dht22, Runner)) {
    (Dht22 {  }, Runner {  })
}

/// Round trip: a frame with a sound checksum is reproduced, byte for byte and
/// checksum included, by re-encoding the reading decoded from it.
pub proof fn lemma_decode_encode_roundtrip(frame: Seq<u8>)
    requires
        frame.len() == 5,
        frame_checksum_ok(frame),
    ensures
        spec_reading(frame).wf(),
        spec_encode(spec_reading(frame)) == frame,
{
    let r = spec_reading(frame);
    let f0 = frame[0];
    let f1 = frame[1];
    let f2 = frame[2];
    let f3 = frame[3];
    assert(r.humidity_tenths == f0 * 256 + f1);
    assert((f0 * 256 + f1) / 256 == f0 && (f0 * 256 + f1) % 256 == f1) by (bit_vector);
    assert(((f2 % 128) * 256 + f3) / 256 == f2 % 128 && ((f2 % 128) * 256 + f3) % 256 == f3
        && (f2 % 128) * 256 + f3 < 0x8000) by (bit_vector);
    assert(f2 >= 128 ==> f2 % 128 + 128 == f2) by (bit_vector);
    assert(f2 < 128 ==> f2 % 128 == f2) by (bit_vector);
    assert(spec_encode(r) =~= frame);
}

} // verus!
