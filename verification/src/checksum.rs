//! CRC-8 checksum over bus payloads: polynomial 0x31, initial value 0xFF,
//! no reflection, no final xor. Every 16-bit word read from the device is
//! followed by one checksum byte computed this way over the two data bytes.

use vstd::prelude::*;

verus! {

/// One shift-and-conditionally-xor round of the CRC register.
pub open spec fn spec_crc8_round(crc: u8) -> u8 {
    if crc & 0x80 != 0 {
        (crc << 1) ^ 0x31
    } else {
        crc << 1
    }
}

/// The CRC register after `n` rounds.
pub open spec fn spec_crc8_rounds(crc: u8, n: nat) -> u8
    decreases n,
{
    if n == 0 {
        crc
    } else {
        spec_crc8_round(spec_crc8_rounds(crc, (n - 1) as nat))
    }
}

/// The CRC register after absorbing the first `i` bytes of `data`,
/// starting from the initial value 0xFF.
pub open spec fn spec_crc8_state(data: Seq<u8>, i: nat) -> u8
    decreases i,
{
    if i == 0 {
        0xff
    } else {
        spec_crc8_rounds(spec_crc8_state(data, (i - 1) as nat) ^ data[i - 1], 8)
    }
}

/// The checksum byte of a payload: the CRC register after absorbing all of it.
pub open spec fn spec_crc8(data: Seq<u8>) -> u8 {
    spec_crc8_state(data, data.len())
}

/// Whether `check` is the correct checksum byte for `data`.
pub open spec fn spec_checksum_ok(data: Seq<u8>, check: u8) -> bool {
    check == spec_crc8(data)
}

/// Computes the CRC-8 checksum byte of `data`.
pub fn crc8(data: &[u8]) -> (r: u8)
    ensures
        r == spec_crc8(data@),
{
    let mut crc: u8 = 0xff;
    let mut i: usize = 0;
    while i < data.len()
        invariant
            i <= data@.len(),
            crc == spec_crc8_state(data@, i as nat),
        decreases data@.len() - i,
    {
        let mut c: u8 = crc ^ data[i];
        let ghost absorbed = c;
        let mut bit: usize = 0;
        while bit < 8
            invariant
                bit <= 8,
                c == spec_crc8_rounds(absorbed, bit as nat),
            decreases 8 - bit,
        {
            if c & 0x80 != 0 {
                c = (c << 1u8) ^ 0x31;
            } else {
                c = c << 1u8;
            }
            bit = bit + 1;
        }
        crc = c;
        i = i + 1;
    }
    crc
}

/// Whether `check` is the correct checksum byte for `data`.
pub fn checksum_matches(data: &[u8], check: u8) -> (r: bool)
    ensures
        r == spec_checksum_ok(data@, check),
{
    crc8(data) == check
}

/// A response whose trailing checksum byte was corrupted — any byte other
/// than the checksum of the data it follows — is never accepted.
pub proof fn lemma_corrupt_checksum_rejected(data: Seq<u8>, check: u8)
    requires
        check != spec_crc8(data),
    ensures
        !spec_checksum_ok(data, check),
{
}

} // verus!
