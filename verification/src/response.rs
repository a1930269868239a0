//! Decoding of raw bus responses. Every 16-bit word arrives as
//! `{data_msb, data_lsb, checksum}`; a word whose trailing checksum byte
//! does not match is rejected before its value reaches any caller.

use vstd::prelude::*;
use crate::checksum::{checksum_matches, spec_checksum_ok};
use crate::error::DriverError;
use crate::protocol::MANUFACTURER_ID_TEXAS_INSTRUMENTS;
use vstd::slice::slice_subrange;

verus! {

/// The 16-bit word carried by two bytes, most significant byte first.
pub open spec fn spec_word_be(hi: u8, lo: u8) -> u16 {
    (hi * 256 + lo) as u16
}

/// Assembles a 16-bit word from its two big-endian bytes.
pub fn word_be(hi: u8, lo: u8) -> (r: u16)
    ensures
        r == spec_word_be(hi, lo),
{
    (hi as u16) * 256 + (lo as u16)
}

/// The outcome of decoding one `{msb, lsb, checksum}` triple: the word on
/// a matching checksum, rejection of the whole triple otherwise.
pub open spec fn spec_parse_word(data: Seq<u8>) -> Result<u16, DriverError>
    recommends
        data.len() == 3,
{
    if spec_checksum_ok(data.subrange(0, 2), data[2]) {
        Ok(spec_word_be(data[0], data[1]))
    } else {
        Err(DriverError::ChecksumMismatch)
    }
}

/// Decodes one checksummed 16-bit word from a 3-byte response.
pub fn parse_word(data: &[u8]) -> (r: Result<u16, DriverError>)
    requires
        data@.len() == 3,
    ensures
        r == spec_parse_word(data@),
{
    let payload = slice_subrange(data, 0, 2);
    if checksum_matches(payload, data[2]) {
        Ok(word_be(data[0], data[1]))
    } else {
        Err(DriverError::ChecksumMismatch)
    }
}

/// Two raw 16-bit ADC codes of one measurement, temperature then relative
/// humidity, as taken from a checksum-validated 6-byte response.
#[derive(Clone, Copy, Debug, PartialEq, Eq, Structural)]
pub struct RawMeasurement {
    /// the raw temperature ADC code
    pub temp_raw: u16,
    /// the raw relative-humidity ADC code
    pub humid_raw: u16,
}

/// The outcome of decoding a 6-byte measurement response: the temperature
/// triple comes first, the humidity triple second, and either failing its
/// checksum rejects the response whole, with no partial value.
pub open spec fn spec_parse_measurement(data: Seq<u8>) -> Result<RawMeasurement, DriverError>
    recommends
        data.len() == 6,
{
    if !spec_checksum_ok(data.subrange(0, 2), data[2]) {
        Err(DriverError::ChecksumMismatch)
    } else if !spec_checksum_ok(data.subrange(3, 5), data[5]) {
        Err(DriverError::ChecksumMismatch)
    } else {
        Ok(
            RawMeasurement {
                temp_raw: spec_word_be(data[0], data[1]),
                humid_raw: spec_word_be(data[3], data[4]),
            },
        )
    }
}

/// Decodes a 6-byte measurement response into its two raw ADC codes,
/// validating both checksums independently.
pub fn parse_measurement(data: &[u8]) -> (r: Result<RawMeasurement, DriverError>)
    requires
        data@.len() == 6,
    ensures
        r == spec_parse_measurement(data@),
{
    let temp_payload = slice_subrange(data, 0, 2);
    if !checksum_matches(temp_payload, data[2]) {
        return Err(DriverError::ChecksumMismatch);
    }
    let humid_payload = slice_subrange(data, 3, 5);
    if !checksum_matches(humid_payload, data[5]) {
        return Err(DriverError::ChecksumMismatch);
    }
    Ok(RawMeasurement { temp_raw: word_be(data[0], data[1]), humid_raw: word_be(data[3], data[4]) })
}

/// The outcome of decoding the manufacturer-ID response: the raw ID when
/// its checksum matches and it equals the Texas Instruments constant, a
/// distinguishable rejection when it is a valid-but-unexpected identity.
pub open spec fn spec_decode_manufacturer_id(data: Seq<u8>) -> Result<u16, DriverError>
    recommends
        data.len() == 3,
{
    match spec_parse_word(data) {
        Ok(id) => if id == MANUFACTURER_ID_TEXAS_INSTRUMENTS {
            Ok(id)
        } else {
            Err(DriverError::UnexpectedValue(id))
        },
        Err(e) => Err(e),
    }
}

/// Decodes the manufacturer-ID response, accepting only the known
/// Texas Instruments identity.
pub fn decode_manufacturer_id(data: &[u8]) -> (r: Result<u16, DriverError>)
    requires
        data@.len() == 3,
    ensures
        r == spec_decode_manufacturer_id(data@),
{
    match parse_word(data) {
        Ok(id) => if id == MANUFACTURER_ID_TEXAS_INSTRUMENTS {
            Ok(id)
        } else {
            Err(DriverError::UnexpectedValue(id))
        },
        Err(e) => Err(e),
    }
}

/// The 48-bit serial number packed from its three 16-bit segments,
/// highest segment first.
pub open spec fn spec_combine_serial(high: u16, mid: u16, low: u16) -> u64 {
    (high * 0x1_0000_0000 + mid * 0x1_0000 + low) as u64
}

/// Packs the three 16-bit serial-number segments into one 48-bit value.
pub fn combine_serial(high: u16, mid: u16, low: u16) -> (r: u64)
    ensures
        r == spec_combine_serial(high, mid, low),
{
    (high as u64) * 0x1_0000_0000 + (mid as u64) * 0x1_0000 + (low as u64)
}

/// A corrupted trailing checksum byte on either word of a measurement
/// response is rejected with a checksum error, never silently accepted.
pub proof fn lemma_corrupt_measurement_rejected(data: Seq<u8>)
    requires
        data.len() == 6,
        !spec_checksum_ok(data.subrange(0, 2), data[2]) || !spec_checksum_ok(
            data.subrange(3, 5),
            data[5],
        ),
    ensures
        spec_parse_measurement(data) == Err::<RawMeasurement, DriverError>(
            DriverError::ChecksumMismatch,
        ),
{
}

} // verus!
