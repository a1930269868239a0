//! Status register layout: ten named one-bit fields at fixed positions
//! inside the device's 16-bit status word, and the decoder that produces a
//! fresh set of named flags from each status read.

use vstd::prelude::*;

verus! {

pub const STATUS_FIELD_LSBIT_AT_LEAST_ONE_ALERT: u16 = 15;

pub const STATUS_FIELD_LSBIT_HEATER_ENABLED: u16 = 13;

pub const STATUS_FIELD_LSBIT_RH_TRACKING_ALERT: u16 = 11;

pub const STATUS_FIELD_LSBIT_T_TRACKING_ALERT: u16 = 10;

pub const STATUS_FIELD_LSBIT_RH_HIGH_TRACKING_ALERT: u16 = 9;

pub const STATUS_FIELD_LSBIT_RH_LOW_TRACKING_ALERT: u16 = 8;

pub const STATUS_FIELD_LSBIT_T_HIGH_TRACKING_ALERT: u16 = 7;

pub const STATUS_FIELD_LSBIT_T_LOW_TRACKING_ALERT: u16 = 6;

pub const STATUS_FIELD_LSBIT_RESET_SINCE_CLEAR: u16 = 4;

pub const STATUS_FIELD_LSBIT_CHECKSUM_FAILURE: u16 = 0;

/// The ten named fields of the status register.
#[derive(Clone, Copy, Debug, PartialEq, Eq, Structural)]
pub enum StatusField {
    AtLeastOneAlert,
    HeaterEnabled,
    RhTrackingAlert,
    TTrackingAlert,
    RhHighTrackingAlert,
    RhLowTrackingAlert,
    THighTrackingAlert,
    TLowTrackingAlert,
    ResetSinceClear,
    ChecksumFailure,
}

/// The least-significant-bit offset of each named status field.
pub open spec fn spec_status_field_lsbit(field: StatusField) -> u16 {
    match field {
        StatusField::AtLeastOneAlert => STATUS_FIELD_LSBIT_AT_LEAST_ONE_ALERT,
        StatusField::HeaterEnabled => STATUS_FIELD_LSBIT_HEATER_ENABLED,
        StatusField::RhTrackingAlert => STATUS_FIELD_LSBIT_RH_TRACKING_ALERT,
        StatusField::TTrackingAlert => STATUS_FIELD_LSBIT_T_TRACKING_ALERT,
        StatusField::RhHighTrackingAlert => STATUS_FIELD_LSBIT_RH_HIGH_TRACKING_ALERT,
        StatusField::RhLowTrackingAlert => STATUS_FIELD_LSBIT_RH_LOW_TRACKING_ALERT,
        StatusField::THighTrackingAlert => STATUS_FIELD_LSBIT_T_HIGH_TRACKING_ALERT,
        StatusField::TLowTrackingAlert => STATUS_FIELD_LSBIT_T_LOW_TRACKING_ALERT,
        StatusField::ResetSinceClear => STATUS_FIELD_LSBIT_RESET_SINCE_CLEAR,
        StatusField::ChecksumFailure => STATUS_FIELD_LSBIT_CHECKSUM_FAILURE,
    }
}

/// Every field of this device is one bit wide; the table still carries the
/// width so that the layout stays generic over multi-bit devices.
pub open spec fn spec_status_field_width(field: StatusField) -> u16 {
    match field {
        _ => 1,
    }
}

/// The (least-significant-bit offset, width) of a named status field.
pub fn status_field(field: StatusField) -> (r: (u16, u16))
    ensures
        r.0 == spec_status_field_lsbit(field),
        r.1 == spec_status_field_width(field),
{
    let lsbit: u16 = match field {
        StatusField::AtLeastOneAlert => STATUS_FIELD_LSBIT_AT_LEAST_ONE_ALERT,
        StatusField::HeaterEnabled => STATUS_FIELD_LSBIT_HEATER_ENABLED,
        StatusField::RhTrackingAlert => STATUS_FIELD_LSBIT_RH_TRACKING_ALERT,
        StatusField::TTrackingAlert => STATUS_FIELD_LSBIT_T_TRACKING_ALERT,
        StatusField::RhHighTrackingAlert => STATUS_FIELD_LSBIT_RH_HIGH_TRACKING_ALERT,
        StatusField::RhLowTrackingAlert => STATUS_FIELD_LSBIT_RH_LOW_TRACKING_ALERT,
        StatusField::THighTrackingAlert => STATUS_FIELD_LSBIT_T_HIGH_TRACKING_ALERT,
        StatusField::TLowTrackingAlert => STATUS_FIELD_LSBIT_T_LOW_TRACKING_ALERT,
        StatusField::ResetSinceClear => STATUS_FIELD_LSBIT_RESET_SINCE_CLEAR,
        StatusField::ChecksumFailure => STATUS_FIELD_LSBIT_CHECKSUM_FAILURE,
    };
    (lsbit, 1)
}

/// Whether the one-bit field at `lsbit` is set in the status word.
pub open spec fn spec_status_bit(word: u16, lsbit: u16) -> bool {
    (word >> lsbit) & 1 == 1
}

/// A decoded 16-bit status register: one named flag per one-bit field.
/// Produced fresh on each status read; never cached.
#[derive(Clone, Copy, Debug, PartialEq, Eq, Structural)]
pub struct StatusFields {
    /// at least one of the alert conditions is pending
    pub at_least_one_alert: bool,
    /// the on-device heater is currently enabled
    pub heater_enabled: bool,
    /// a relative-humidity tracking alert is pending
    pub rh_tracking_alert: bool,
    /// a temperature tracking alert is pending
    pub t_tracking_alert: bool,
    /// a relative-humidity high-threshold tracking alert is pending
    pub rh_high_tracking_alert: bool,
    /// a relative-humidity low-threshold tracking alert is pending
    pub rh_low_tracking_alert: bool,
    /// a temperature high-threshold tracking alert is pending
    pub t_high_tracking_alert: bool,
    /// a temperature low-threshold tracking alert is pending
    pub t_low_tracking_alert: bool,
    /// the device was reset since the status register was last cleared
    pub reset_since_clear: bool,
    /// the checksum of the last write the device received did not match
    pub checksum_failure: bool,
}

/// The decoded form of a raw 16-bit status word.
pub open spec fn spec_decode_status(word: u16) -> StatusFields {
    StatusFields {
        at_least_one_alert: spec_status_bit(word, STATUS_FIELD_LSBIT_AT_LEAST_ONE_ALERT),
        heater_enabled: spec_status_bit(word, STATUS_FIELD_LSBIT_HEATER_ENABLED),
        rh_tracking_alert: spec_status_bit(word, STATUS_FIELD_LSBIT_RH_TRACKING_ALERT),
        t_tracking_alert: spec_status_bit(word, STATUS_FIELD_LSBIT_T_TRACKING_ALERT),
        rh_high_tracking_alert: spec_status_bit(word, STATUS_FIELD_LSBIT_RH_HIGH_TRACKING_ALERT),
        rh_low_tracking_alert: spec_status_bit(word, STATUS_FIELD_LSBIT_RH_LOW_TRACKING_ALERT),
        t_high_tracking_alert: spec_status_bit(word, STATUS_FIELD_LSBIT_T_HIGH_TRACKING_ALERT),
        t_low_tracking_alert: spec_status_bit(word, STATUS_FIELD_LSBIT_T_LOW_TRACKING_ALERT),
        reset_since_clear: spec_status_bit(word, STATUS_FIELD_LSBIT_RESET_SINCE_CLEAR),
        checksum_failure: spec_status_bit(word, STATUS_FIELD_LSBIT_CHECKSUM_FAILURE),
    }
}

/// Decodes a raw 16-bit status word into its named one-bit flags.
pub fn decode_status(word: u16) -> (r: StatusFields)
    ensures
        r == spec_decode_status(word),
{
    StatusFields {
        at_least_one_alert: (word >> STATUS_FIELD_LSBIT_AT_LEAST_ONE_ALERT) & 1 == 1,
        heater_enabled: (word >> STATUS_FIELD_LSBIT_HEATER_ENABLED) & 1 == 1,
        rh_tracking_alert: (word >> STATUS_FIELD_LSBIT_RH_TRACKING_ALERT) & 1 == 1,
        t_tracking_alert: (word >> STATUS_FIELD_LSBIT_T_TRACKING_ALERT) & 1 == 1,
        rh_high_tracking_alert: (word >> STATUS_FIELD_LSBIT_RH_HIGH_TRACKING_ALERT) & 1 == 1,
        rh_low_tracking_alert: (word >> STATUS_FIELD_LSBIT_RH_LOW_TRACKING_ALERT) & 1 == 1,
        t_high_tracking_alert: (word >> STATUS_FIELD_LSBIT_T_HIGH_TRACKING_ALERT) & 1 == 1,
        t_low_tracking_alert: (word >> STATUS_FIELD_LSBIT_T_LOW_TRACKING_ALERT) & 1 == 1,
        reset_since_clear: (word >> STATUS_FIELD_LSBIT_RESET_SINCE_CLEAR) & 1 == 1,
        checksum_failure: (word >> STATUS_FIELD_LSBIT_CHECKSUM_FAILURE) & 1 == 1,
    }
}

} // verus!
