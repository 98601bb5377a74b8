//! AHT20 humidity and temperature sensor.
//!
//! The sensor answers a measurement with seven bytes: a status byte, then
//! twenty bits of humidity and twenty bits of temperature packed into five
//! bytes, then a checksum. Both codes are fractions of their full range with
//! 2^20 steps: the humidity runs from 0 to 100 percent, the temperature from
//! -50 to 150 degrees Celsius.

use vstd::prelude::*;
use crate::bus::{Operation, Step, steps};

verus! {

/// Number of steps of a twenty-bit code.
pub const SCALE: u32 = 1_048_576;

/// Percent of relative humidity that the full range of the humidity code
/// covers, from 0.
pub const HUMIDITY_SPAN: u32 = 100;

/// Degrees Celsius that the full range of the temperature code covers.
pub const TEMPERATURE_SPAN: u32 = 200;

/// Degrees Celsius below zero at which the temperature code is 0.
pub const TEMPERATURE_OFFSET: u32 = 50;

/// Number of bytes in the sensor's answer to a measurement.
pub const FRAME_LENGTH: usize = 7;

/// Microseconds the sensor needs after the initialization command before it
/// takes the next one.
pub const INIT_WAIT: u32 = 350;

/// Microseconds the sensor needs for one conversion: 80 ms. An answer read
/// sooner is not that of the conversion just started.
pub const MEASUREMENT_WAIT: u32 = 80_000;

/// The command that loads the calibration and starts the sensor.
pub open spec fn init_command() -> Seq<u8> {
    seq![0xBE, 0x08, 0x00]
}

/// The command that starts one conversion.
pub open spec fn measurement_command() -> Seq<u8> {
    seq![0xAC, 0x33, 0x00]
}

/// Initializing the sensor at `address`: the command and its wait.
pub open spec fn init_steps(address: u8) -> Seq<Step> {
    seq![
        Step::Write { address, bytes: init_command() },
        Step::Delay { micros: INIT_WAIT as nat },
    ]
}

/// One measurement by the sensor at `address`: the command, the conversion
/// time, and the read of the answer.
pub open spec fn measurement_steps(address: u8) -> Seq<Step> {
    seq![
        Step::Write { address, bytes: measurement_command() },
        Step::Delay { micros: MEASUREMENT_WAIT as nat },
        Step::Read { address, length: FRAME_LENGTH as nat },
    ]
}

/// The two codes of one measurement.
pub struct Codes {
    pub humidity: nat,
    pub temperature: nat,
}

/// The codes in an answer. The humidity code is byte 1, byte 2 and the upper
/// half of byte 3, most significant first; the temperature code is the lower
/// half of byte 3, byte 4 and byte 5, most significant first. Byte 0, the
/// status, and byte 6, the checksum, play no part.
pub open spec fn codes(frame: Seq<u8>) -> Codes
    recommends
        frame.len() == FRAME_LENGTH,
{
    Codes {
        humidity: (frame[1] * 4096 + frame[2] * 16 + frame[3] / 16) as nat,
        temperature: ((frame[3] % 16) * 65536 + frame[4] * 256 + frame[5]) as nat,
    }
}

/// Relative humidity in percent, times 2^20, for a humidity code.
pub open spec fn humidity_scaled(code: nat) -> int {
    code as int * HUMIDITY_SPAN
}

/// Temperature in degrees Celsius, times 2^20, for a temperature code.
pub open spec fn temperature_scaled(code: nat) -> int {
    code as int * TEMPERATURE_SPAN - TEMPERATURE_OFFSET * SCALE
}

/// Every twenty-bit humidity code stands for a humidity from 0 up to, not
/// including, 100 percent, and every twenty-bit temperature code for a
/// temperature from -50 up to, not including, 150 degrees.
pub proof fn lemma_physical_ranges(code: nat)
    requires
        code < SCALE,
    ensures
        0 <= humidity_scaled(code) < 100 * SCALE,
        -50 * SCALE <= temperature_scaled(code) < 150 * SCALE,
{
}

/// The codes are twenty bits wide whatever the answer holds.
pub proof fn lemma_codes_in_range(frame: Seq<u8>)
    requires
        frame.len() == FRAME_LENGTH,
    ensures
        codes(frame).humidity < SCALE,
        codes(frame).temperature < SCALE,
{
}

/// What the shifts and masks of the decoding compute, in arithmetic.
proof fn lemma_code_bits(b1: u8, b2: u8, b3: u8, b4: u8, b5: u8)
    by (bit_vector)
    ensures
        ((b1 as u32) << 12) | ((b2 as u32) << 4) | ((b3 as u32) >> 4) == b1 * 4096 + b2 * 16 + b3
            / 16,
        (((b3 as u32) & 0x0F) << 16) | ((b4 as u32) << 8) | (b5 as u32) == (b3 % 16) * 65536 + b4
            * 256 + b5,
{
}

/// One measurement: the two codes as the sensor sent them, each below 2^20.
#[derive(Debug, Clone, Copy, PartialEq, Eq)]
pub struct Reading {
    temperature_raw: u32,
    humidity_raw: u32,
}

impl View for Reading {
    type V = Codes;

    closed spec fn view(&self) -> Codes {
        Codes { humidity: self.humidity_raw as nat, temperature: self.temperature_raw as nat }
    }
}

impl Reading {
    #[verifier::type_invariant]
    spec fn in_range(self) -> bool {
        self.temperature_raw < SCALE && self.humidity_raw < SCALE
    }

    /// The temperature code.
    pub fn temperature_raw(&self) -> (code: u32)
        ensures
            code == self@.temperature,
            code < SCALE,
    {
        proof {
            use_type_invariant(self);
        }
        self.temperature_raw
    }

    /// The humidity code.
    pub fn humidity_raw(&self) -> (code: u32)
        ensures
            code == self@.humidity,
            code < SCALE,
    {
        proof {
            use_type_invariant(self);
        }
        self.humidity_raw
    }

    /// Temperature in degrees Celsius, times 2^20. It lies from -50 up to,
    /// not including, 150 degrees.
    pub fn temperature_scaled(&self) -> (scaled: i32)
        ensures
            scaled == temperature_scaled(self@.temperature),
            -50 * SCALE <= scaled < 150 * SCALE,
    {
        proof {
            use_type_invariant(self);
        }
        let above_floor: u32 = self.temperature_raw * TEMPERATURE_SPAN;
        let floor: u32 = TEMPERATURE_OFFSET * SCALE;
        above_floor as i32 - floor as i32
    }

    /// Relative humidity in percent, times 2^20. It lies from 0 up to, not
    /// including, 100 percent.
    pub fn humidity_scaled(&self) -> (scaled: u32)
        ensures
            scaled == humidity_scaled(self@.humidity),
            scaled < 100 * SCALE,
    {
        proof {
            use_type_invariant(self);
        }
        self.humidity_raw * HUMIDITY_SPAN
    }
}

/// A sensor at a fixed bus address.
#[derive(Debug, Clone, Copy, PartialEq, Eq)]
pub struct AHT20 {
    address: u8,
}

impl AHT20 {
    /// The bus address of the sensor.
    pub closed spec fn address(&self) -> u8 {
        self.address
    }

    /// A driver for the sensor that answers at `address`.
    pub fn new(address: u8) -> (sensor: Self)
        ensures
            sensor.address() == address,
    {
        AHT20 { address }
    }

    /// Starts the sensor. Nothing may be sent to it before the wait at the
    /// end is over.
    pub fn init(&self) -> (script: Vec<Operation>)
        ensures
            steps(script@) == init_steps(self.address()),
    {
        let mut script: Vec<Operation> = Vec::new();
        script.push(Operation::Write { address: self.address, bytes: vec![0xBE, 0x08, 0x00] });
        script.push(Operation::Delay { micros: INIT_WAIT });
        script
    }

    /// Starts one conversion, waits for it and reads the answer, which goes
    /// to [`AHT20::read_values`].
    pub fn measure(&self) -> (script: Vec<Operation>)
        ensures
            steps(script@) == measurement_steps(self.address()),
    {
        let mut script: Vec<Operation> = Vec::new();
        script.push(Operation::Write { address: self.address, bytes: vec![0xAC, 0x33, 0x00] });
        script.push(Operation::Delay { micros: MEASUREMENT_WAIT });
        script.push(Operation::Read { address: self.address, length: FRAME_LENGTH });
        script
    }

    /// Takes the two codes out of the sensor's answer.
    pub fn read_values(&self, frame: &[u8; 7]) -> (reading: Reading)
        ensures
            reading@ == codes(frame@),
    {
        let humidity_raw: u32 = ((frame[1] as u32) << 12) | ((frame[2] as u32) << 4) | (
        (frame[3] as u32) >> 4);
        let temperature_raw: u32 = (((frame[3] as u32) & 0x0F) << 16) | ((frame[4] as u32) << 8)
            | (frame[5] as u32);
        proof {
            lemma_code_bits(frame[1], frame[2], frame[3], frame[4], frame[5]);
        }
        Reading { temperature_raw, humidity_raw }
    }
}

} // verus!
