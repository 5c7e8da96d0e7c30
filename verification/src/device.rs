//! The HDC1000 device model: fixed addresses, the configuration word, and the
//! decoding of raw conversion codes into physical units.

use vstd::prelude::*;
use crate::text::FixedValue;

verus! {

/// 7-bit bus address of the sensor.
pub const I2C_ADDR: u8 = 0x40;

/// Register holding the conversion result; writing its address triggers a
/// conversion.
pub const REGP_TEMP: u8 = 0x00;

/// Configuration register.
pub const REGP_CONFIG: u8 = 0x02;

/// Configuration word: acquire temperature and humidity together, on demand.
pub const CONF_MODE_AT_ONCE: u16 = 0x1000;

/// Worst-case conversion time of the device in milliseconds, rounded up from
/// the datasheet's 12.85 ms.
pub const CONVERSION_WAIT_MILLIS: u64 = 13;

/// Number of bytes of one conversion result.
pub const RESULT_LEN: usize = 4;

/// The three bytes of a configuration write: the register address, then the
/// configuration word big-endian.
pub open spec fn spec_config_bytes() -> Seq<u8> {
    seq![REGP_CONFIG, (CONF_MODE_AT_ONCE >> 8) as u8, (CONF_MODE_AT_ONCE & 0xff) as u8]
}

/// The single byte of a conversion-trigger write.
pub open spec fn spec_trigger_bytes() -> Seq<u8> {
    seq![REGP_TEMP]
}

/// The bytes written to the configuration register.
pub fn config_bytes() -> (r: Vec<u8>)
    ensures
        r@ == spec_config_bytes(),
{
    let mut v: Vec<u8> = Vec::new();
    v.push(REGP_CONFIG);
    v.push((CONF_MODE_AT_ONCE >> 8) as u8);
    v.push((CONF_MODE_AT_ONCE & 0xff) as u8);
    proof {
        assert(v@ =~= spec_config_bytes());
    }
    v
}

/// The byte written to trigger a conversion.
pub fn trigger_bytes() -> (r: Vec<u8>)
    ensures
        r@ == spec_trigger_bytes(),
{
    let mut v: Vec<u8> = Vec::new();
    v.push(REGP_TEMP);
    proof {
        assert(v@ =~= spec_trigger_bytes());
    }
    v
}

/// The two raw 16-bit codes read back from the device.
#[derive(Clone, Copy, Debug, PartialEq, Eq, Structural)]
pub struct RawSample {
    pub raw_temperature: u16,
    pub raw_humidity: u16,
}

/// One decoded measurement, in exact fixed-point units: degrees Celsius and
/// percent relative humidity, both in 1/65536ths.
#[derive(Clone, Copy, Debug, PartialEq, Eq, Structural)]
pub struct Reading {
    pub temperature: FixedValue,
    pub humidity: FixedValue,
}

/// The raw codes held in a 4-byte result: bytes 0-1 are the big-endian raw
/// temperature code, bytes 2-3 the big-endian raw humidity code.
pub open spec fn spec_raw_sample_of(data: Seq<u8>) -> RawSample
    recommends
        data.len() == 4,
{
    RawSample {
        raw_temperature: (data[0] * 256 + data[1]) as u16,
        raw_humidity: (data[2] * 256 + data[3]) as u16,
    }
}

/// Temperature transfer function of the device, in 1/65536 degC ticks:
/// degC = raw / 65536 * 165 - 40, so ticks = 165 * raw - 40 * 65536.
pub open spec fn spec_temperature_ticks(raw: int) -> int {
    165 * raw - 40 * 65536
}

/// Humidity transfer function of the device, in 1/65536 %RH ticks:
/// %RH = raw / 65536 * 100, so ticks = 100 * raw.
pub open spec fn spec_humidity_ticks(raw: int) -> int {
    100 * raw
}

/// The reading decoded from a raw sample.
pub open spec fn spec_decode(s: RawSample) -> Reading {
    Reading {
        temperature: FixedValue { ticks: spec_temperature_ticks(s.raw_temperature as int) as i64 },
        humidity: FixedValue { ticks: spec_humidity_ticks(s.raw_humidity as int) as i64 },
    }
}

/// The reading decoded from a 4-byte result.
pub open spec fn spec_reading_of(data: Seq<u8>) -> Reading
    recommends
        data.len() == 4,
{
    spec_decode(spec_raw_sample_of(data))
}

/// Interpret a 4-byte conversion result as the two big-endian raw codes.
pub fn raw_sample_of(data: &Vec<u8>) -> (r: RawSample)
    requires
        data@.len() == 4,
    ensures
        r == spec_raw_sample_of(data@),
{
    let raw_temperature: u16 = (data[0] as u16) * 256 + (data[1] as u16);
    let raw_humidity: u16 = (data[2] as u16) * 256 + (data[3] as u16);
    RawSample { raw_temperature, raw_humidity }
}

/// Decode the raw temperature code with the device's transfer function.
pub fn decode_temperature(raw: u16) -> (r: FixedValue)
    ensures
        r.ticks == spec_temperature_ticks(raw as int),
{
    FixedValue { ticks: 165 * (raw as i64) - 2621440 }
}

/// Decode the raw humidity code with the device's transfer function.
pub fn decode_humidity(raw: u16) -> (r: FixedValue)
    ensures
        r.ticks == spec_humidity_ticks(raw as int),
{
    FixedValue { ticks: 100 * (raw as i64) }
}

/// Decode both raw codes of one sample.
pub fn decode(s: RawSample) -> (r: Reading)
    ensures
        r == spec_decode(s),
{
    Reading {
        temperature: decode_temperature(s.raw_temperature),
        humidity: decode_humidity(s.raw_humidity),
    }
}

} // verus!
