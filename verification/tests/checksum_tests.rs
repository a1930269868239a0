use rht_driver::checksum::{checksum_matches, crc8};
use rht_driver::error::DriverError;
use rht_driver::response::{
    combine_serial, decode_manufacturer_id, parse_measurement, parse_word, word_be, RawMeasurement,
};

#[test]
fn crc8_known_vectors() {
    assert_eq!(crc8(&[0xbe, 0xef]), 0x92);
    assert_eq!(crc8(b"123456789"), 0xf7);
    assert_eq!(crc8(&[]), 0xff);
    assert_eq!(crc8(&[0x30, 0x00]), 0x33);
    assert_eq!(crc8(&[0x80, 0x00]), 0xa2);
}

#[test]
fn checksum_matches_accepts_correct_byte_only() {
    assert!(checksum_matches(&[0xbe, 0xef], 0x92));
    assert!(!checksum_matches(&[0xbe, 0xef], 0x93));
    assert!(!checksum_matches(&[0xbe, 0xef], 0x00));
}

#[test]
fn word_be_assembles_msb_first() {
    assert_eq!(word_be(0x12, 0x34), 0x1234);
    assert_eq!(word_be(0x00, 0x00), 0x0000);
    assert_eq!(word_be(0xff, 0xff), 0xffff);
}

#[test]
fn parse_word_accepts_valid_response() {
    assert_eq!(parse_word(&[0xbe, 0xef, 0x92]), Ok(0xbeef));
}

#[test]
fn parse_word_rejects_corrupted_trailing_byte() {
    assert_eq!(
        parse_word(&[0xbe, 0xef, 0x91]),
        Err(DriverError::ChecksumMismatch)
    );
}

#[test]
fn parse_measurement_accepts_valid_response() {
    assert_eq!(
        parse_measurement(&[0x66, 0x66, 0x93, 0x80, 0x00, 0xa2]),
        Ok(RawMeasurement {
            temp_raw: 0x6666,
            humid_raw: 0x8000,
        })
    );
}

#[test]
fn parse_measurement_rejects_corrupt_temperature_checksum() {
    assert_eq!(
        parse_measurement(&[0x66, 0x66, 0x94, 0x80, 0x00, 0xa2]),
        Err(DriverError::ChecksumMismatch)
    );
}

#[test]
fn parse_measurement_rejects_corrupt_humidity_checksum() {
    assert_eq!(
        parse_measurement(&[0x66, 0x66, 0x93, 0x80, 0x00, 0xa3]),
        Err(DriverError::ChecksumMismatch)
    );
}

#[test]
fn decode_manufacturer_id_accepts_texas_instruments() {
    assert_eq!(decode_manufacturer_id(&[0x30, 0x00, 0x33]), Ok(0x3000));
}

#[test]
fn decode_manufacturer_id_rejects_other_identity() {
    assert_eq!(
        decode_manufacturer_id(&[0x30, 0x01, 0x02]),
        Err(DriverError::UnexpectedValue(0x3001))
    );
}

#[test]
fn decode_manufacturer_id_rejects_corrupt_checksum() {
    assert_eq!(
        decode_manufacturer_id(&[0x30, 0x00, 0x34]),
        Err(DriverError::ChecksumMismatch)
    );
}

#[test]
fn combine_serial_packs_48_bits() {
    assert_eq!(combine_serial(0x1234, 0x5678, 0x9abc), 0x1234_5678_9abc);
    assert_eq!(combine_serial(0, 0, 0), 0);
    assert_eq!(combine_serial(0xffff, 0xffff, 0xffff), 0xffff_ffff_ffff);
}
