//! Protocol table: pure, total mappings from enumerated configuration
//! values to the device's 16-bit command codes and numeric constants.

use vstd::prelude::*;
use crate::checksum::{crc8, spec_crc8};

verus! {

/// I2C device address options, which are selected via the ADDR1 and ADDR0 pins.
#[derive(Clone, Copy, Debug, PartialEq, Eq, Structural)]
pub enum I2cAddr {
    /// ADDR1 = 0, ADDR0 = 0
    Addr00,
    /// ADDR1 = 0, ADDR0 = 1
    Addr01,
    /// ADDR1 = 1, ADDR0 = 0
    Addr10,
    /// ADDR1 = 1, ADDR0 = 1
    Addr11,
}

/// The 7-bit bus address selected by each address-pin configuration.
pub open spec fn spec_i2c_addr(addr: I2cAddr) -> u8 {
    match addr {
        I2cAddr::Addr00 => 0x44,
        I2cAddr::Addr01 => 0x45,
        I2cAddr::Addr10 => 0x46,
        I2cAddr::Addr11 => 0x47,
    }
}

impl I2cAddr {
    pub fn as_u8(&self) -> (r: u8)
        ensures
            r == spec_i2c_addr(*self),
    {
        match self {
            Self::Addr00 => 0x44,
            Self::Addr01 => 0x45,
            Self::Addr10 => 0x46,
            Self::Addr11 => 0x47,
        }
    }
}

/// Sample rate options, covering both the one-shot and auto modes.
#[derive(Clone, Copy, Debug, PartialEq, Eq, Structural)]
pub enum SampleRate {
    /// initiate and read a single measurement, returning the device back to sleep afterward
    OneShot,
    /// device self-times 1 sample every 2 seconds
    Auto500mHz,
    /// device self-times 1 sample every 1 second
    Auto1Hz,
    /// device self-times 1 sample every 0.5 seconds
    Auto2Hz,
    /// device self-times 1 sample every 0.25 seconds
    Auto4Hz,
    /// device self-times 1 sample every 0.1 seconds
    Auto10Hz,
}

/// Low power mode options, which control the trade-off between power
/// consumption, measurement noise, and sample latency.
#[derive(Clone, Copy, Debug, PartialEq, Eq, Structural)]
pub enum LowPowerMode {
    /// lowest noise
    LPM0,
    /// lower noise
    LPM1,
    /// lower power
    LPM2,
    /// lowest power
    LPM3,
}

impl LowPowerMode {
    /// Returns LPM0, the lowest noise (highest power) mode
    pub fn lowest_noise() -> (r: Self)
        ensures
            r == LowPowerMode::LPM0,
    {
        Self::LPM0
    }

    /// Returns LPM1, a lower noise (higher power) mode
    pub fn lower_noise() -> (r: Self)
        ensures
            r == LowPowerMode::LPM1,
    {
        Self::LPM1
    }

    /// Returns LPM2, a lower power (higher noise) mode
    pub fn lower_power() -> (r: Self)
        ensures
            r == LowPowerMode::LPM2,
    {
        Self::LPM2
    }

    /// Returns LPM3, the lowest power (highest noise) mode
    pub fn lowest_power() -> (r: Self)
        ensures
            r == LowPowerMode::LPM3,
    {
        Self::LPM3
    }
}

/// Options for what to read from the device when in auto mode.
#[derive(Clone, Copy, Debug, PartialEq, Eq, Structural)]
pub enum AutoReadTarget {
    /// most recently sampled temperature and relative humidity
    LastTempAndRelHumid,
    /// minimum temperature since auto mode was started
    MinTemp,
    /// maximum temperature since auto mode was started
    MaxTemp,
    /// minimum relative humidity since auto mode was started
    MinRelHumid,
    /// maximum relative humidity since auto mode was started
    MaxRelHumid,
}

/// Options for the on-device heater. The datasheet claims this may be
/// useful to drive off condensation.
#[derive(Clone, Copy, Debug, PartialEq, Eq, Structural)]
pub enum HeaterLevel {
    /// heater off (post-reset default)
    Off,
    /// heater on at 25% power
    On25Percent,
    /// heater on at 50% power
    On50Percent,
    /// heater on at 100% power
    On100Percent,
}

/// The 14-bit heater duty value written for each level; `Off` maps to
/// "do not issue a heater-config write".
pub open spec fn spec_heater_setting(level: HeaterLevel) -> Option<u16> {
    match level {
        HeaterLevel::Off => None,
        HeaterLevel::On25Percent => Some(0x9fu16),
        HeaterLevel::On50Percent => Some(0x3ffu16),
        HeaterLevel::On100Percent => Some(0x3fffu16),
    }
}

impl HeaterLevel {
    pub fn setting(&self) -> (r: Option<u16>)
        ensures
            r == spec_heater_setting(*self),
    {
        match self {
            HeaterLevel::Off => None,
            HeaterLevel::On25Percent => Some(0x9f),
            HeaterLevel::On50Percent => Some(0x3ff),
            HeaterLevel::On100Percent => Some(0x3FFF),
        }
    }
}

/// The heater duty values are strictly increasing across the three
/// non-`Off` levels, and `Off` yields no configuration write at all.
pub proof fn lemma_heater_setting_strictly_increasing()
    ensures
        spec_heater_setting(HeaterLevel::Off) is None,
        spec_heater_setting(HeaterLevel::On25Percent) is Some,
        spec_heater_setting(HeaterLevel::On50Percent) is Some,
        spec_heater_setting(HeaterLevel::On100Percent) is Some,
        spec_heater_setting(HeaterLevel::On25Percent)->0
            < spec_heater_setting(HeaterLevel::On50Percent)->0,
        spec_heater_setting(HeaterLevel::On50Percent)->0
            < spec_heater_setting(HeaterLevel::On100Percent)->0,
{
}

/// The command code that starts a measurement for each combination of
/// sample rate and low power mode, exactly as the device's command
/// reference fixes it. One-shot codes live in the 0x24xx family; auto
/// codes additionally select a periodic measurement loop on-device and
/// live in the 0x20xx..0x27xx families.
pub open spec fn spec_start_sampling_command(
    sample_rate: SampleRate,
    low_power_mode: LowPowerMode,
) -> u16 {
    match (sample_rate, low_power_mode) {
        (SampleRate::OneShot, LowPowerMode::LPM0) => 0x2400,
        (SampleRate::OneShot, LowPowerMode::LPM1) => 0x240b,
        (SampleRate::OneShot, LowPowerMode::LPM2) => 0x2416,
        (SampleRate::OneShot, LowPowerMode::LPM3) => 0x24ff,
        (SampleRate::Auto500mHz, LowPowerMode::LPM0) => 0x2032,
        (SampleRate::Auto500mHz, LowPowerMode::LPM1) => 0x2024,
        (SampleRate::Auto500mHz, LowPowerMode::LPM2) => 0x202f,
        (SampleRate::Auto500mHz, LowPowerMode::LPM3) => 0x20ff,
        (SampleRate::Auto1Hz, LowPowerMode::LPM0) => 0x2130,
        (SampleRate::Auto1Hz, LowPowerMode::LPM1) => 0x2126,
        (SampleRate::Auto1Hz, LowPowerMode::LPM2) => 0x212d,
        (SampleRate::Auto1Hz, LowPowerMode::LPM3) => 0x21ff,
        (SampleRate::Auto2Hz, LowPowerMode::LPM0) => 0x2236,
        (SampleRate::Auto2Hz, LowPowerMode::LPM1) => 0x2220,
        (SampleRate::Auto2Hz, LowPowerMode::LPM2) => 0x222b,
        (SampleRate::Auto2Hz, LowPowerMode::LPM3) => 0x22ff,
        (SampleRate::Auto4Hz, LowPowerMode::LPM0) => 0x2334,
        (SampleRate::Auto4Hz, LowPowerMode::LPM1) => 0x2322,
        (SampleRate::Auto4Hz, LowPowerMode::LPM2) => 0x2329,
        (SampleRate::Auto4Hz, LowPowerMode::LPM3) => 0x23ff,
        (SampleRate::Auto10Hz, LowPowerMode::LPM0) => 0x2737,
        (SampleRate::Auto10Hz, LowPowerMode::LPM1) => 0x2721,
        (SampleRate::Auto10Hz, LowPowerMode::LPM2) => 0x272a,
        (SampleRate::Auto10Hz, LowPowerMode::LPM3) => 0x27ff,
    }
}

pub fn start_sampling_command(sample_rate: SampleRate, low_power_mode: LowPowerMode) -> (r: u16)
    ensures
        r == spec_start_sampling_command(sample_rate, low_power_mode),
{
    match (sample_rate, low_power_mode) {
        (SampleRate::OneShot, LowPowerMode::LPM0) => 0x2400,
        (SampleRate::OneShot, LowPowerMode::LPM1) => 0x240b,
        (SampleRate::OneShot, LowPowerMode::LPM2) => 0x2416,
        (SampleRate::OneShot, LowPowerMode::LPM3) => 0x24ff,
        (SampleRate::Auto500mHz, LowPowerMode::LPM0) => 0x2032,
        (SampleRate::Auto500mHz, LowPowerMode::LPM1) => 0x2024,
        (SampleRate::Auto500mHz, LowPowerMode::LPM2) => 0x202f,
        (SampleRate::Auto500mHz, LowPowerMode::LPM3) => 0x20ff,
        (SampleRate::Auto1Hz, LowPowerMode::LPM0) => 0x2130,
        (SampleRate::Auto1Hz, LowPowerMode::LPM1) => 0x2126,
        (SampleRate::Auto1Hz, LowPowerMode::LPM2) => 0x212d,
        (SampleRate::Auto1Hz, LowPowerMode::LPM3) => 0x21ff,
        (SampleRate::Auto2Hz, LowPowerMode::LPM0) => 0x2236,
        (SampleRate::Auto2Hz, LowPowerMode::LPM1) => 0x2220,
        (SampleRate::Auto2Hz, LowPowerMode::LPM2) => 0x222b,
        (SampleRate::Auto2Hz, LowPowerMode::LPM3) => 0x22ff,
        (SampleRate::Auto4Hz, LowPowerMode::LPM0) => 0x2334,
        (SampleRate::Auto4Hz, LowPowerMode::LPM1) => 0x2322,
        (SampleRate::Auto4Hz, LowPowerMode::LPM2) => 0x2329,
        (SampleRate::Auto4Hz, LowPowerMode::LPM3) => 0x23ff,
        (SampleRate::Auto10Hz, LowPowerMode::LPM0) => 0x2737,
        (SampleRate::Auto10Hz, LowPowerMode::LPM1) => 0x2721,
        (SampleRate::Auto10Hz, LowPowerMode::LPM2) => 0x272a,
        (SampleRate::Auto10Hz, LowPowerMode::LPM3) => 0x27ff,
    }
}

/// One-shot codes differ structurally from auto codes: every one-shot
/// command lives in the 0x24xx family, and no auto-mode command does,
/// since an auto code additionally selects the on-device sampling loop.
pub proof fn lemma_one_shot_family_distinct_from_auto()
    ensures
        forall|m: LowPowerMode|
            #[trigger] spec_start_sampling_command(SampleRate::OneShot, m) / 256 == 0x24,
        forall|r: SampleRate, m: LowPowerMode|
            r != SampleRate::OneShot ==> #[trigger] spec_start_sampling_command(r, m) / 256
                != 0x24,
{
}

/// Every one of the 24 (sample rate, low power mode) combinations resolves
/// to its own command code: the table has no two entries alike.
pub proof fn lemma_start_sampling_command_injective()
    ensures
        forall|r1: SampleRate, l1: LowPowerMode, r2: SampleRate, l2: LowPowerMode|
            spec_start_sampling_command(r1, l1) == spec_start_sampling_command(r2, l2) ==> r1 == r2
                && l1 == l2,
{
}

/// The status-register value the device reports immediately after a
/// power-on or soft reset for each configuration. Used only for
/// diagnostic verification, not for normal operation.
pub open spec fn spec_reset_state_value(
    sample_rate: SampleRate,
    low_power_mode: LowPowerMode,
) -> u16 {
    match (sample_rate, low_power_mode) {
        (SampleRate::OneShot, _) => 0x0081,
        (SampleRate::Auto500mHz, LowPowerMode::LPM0) => 0x03b0,
        (SampleRate::Auto500mHz, LowPowerMode::LPM1) => 0x13f3,
        (SampleRate::Auto500mHz, LowPowerMode::LPM2) => 0x2336,
        (SampleRate::Auto500mHz, LowPowerMode::LPM3) => 0x3375,
        (SampleRate::Auto1Hz, LowPowerMode::LPM0) => 0x05d2,
        (SampleRate::Auto1Hz, LowPowerMode::LPM1) => 0x1591,
        (SampleRate::Auto1Hz, LowPowerMode::LPM2) => 0x2554,
        (SampleRate::Auto1Hz, LowPowerMode::LPM3) => 0x3517,
        (SampleRate::Auto2Hz, LowPowerMode::LPM0) => 0x0774,
        (SampleRate::Auto2Hz, LowPowerMode::LPM1) => 0x1737,
        (SampleRate::Auto2Hz, LowPowerMode::LPM2) => 0x27f2,
        (SampleRate::Auto2Hz, LowPowerMode::LPM3) => 0x37b1,
        (SampleRate::Auto4Hz, LowPowerMode::LPM0) => 0x0916,
        (SampleRate::Auto4Hz, LowPowerMode::LPM1) => 0x1955,
        (SampleRate::Auto4Hz, LowPowerMode::LPM2) => 0x2990,
        (SampleRate::Auto4Hz, LowPowerMode::LPM3) => 0x39d3,
        (SampleRate::Auto10Hz, LowPowerMode::LPM0) => 0x0b09,
        (SampleRate::Auto10Hz, LowPowerMode::LPM1) => 0x1b4a,
        (SampleRate::Auto10Hz, LowPowerMode::LPM2) => 0x2b8f,
        (SampleRate::Auto10Hz, LowPowerMode::LPM3) => 0x3bcc,
    }
}

pub fn reset_state_value(sample_rate: SampleRate, low_power_mode: LowPowerMode) -> (r: u16)
    ensures
        r == spec_reset_state_value(sample_rate, low_power_mode),
{
    match (sample_rate, low_power_mode) {
        (SampleRate::OneShot, _) => 0x0081,
        (SampleRate::Auto500mHz, LowPowerMode::LPM0) => 0x03b0,
        (SampleRate::Auto500mHz, LowPowerMode::LPM1) => 0x13f3,
        (SampleRate::Auto500mHz, LowPowerMode::LPM2) => 0x2336,
        (SampleRate::Auto500mHz, LowPowerMode::LPM3) => 0x3375,
        (SampleRate::Auto1Hz, LowPowerMode::LPM0) => 0x05d2,
        (SampleRate::Auto1Hz, LowPowerMode::LPM1) => 0x1591,
        (SampleRate::Auto1Hz, LowPowerMode::LPM2) => 0x2554,
        (SampleRate::Auto1Hz, LowPowerMode::LPM3) => 0x3517,
        (SampleRate::Auto2Hz, LowPowerMode::LPM0) => 0x0774,
        (SampleRate::Auto2Hz, LowPowerMode::LPM1) => 0x1737,
        (SampleRate::Auto2Hz, LowPowerMode::LPM2) => 0x27f2,
        (SampleRate::Auto2Hz, LowPowerMode::LPM3) => 0x37b1,
        (SampleRate::Auto4Hz, LowPowerMode::LPM0) => 0x0916,
        (SampleRate::Auto4Hz, LowPowerMode::LPM1) => 0x1955,
        (SampleRate::Auto4Hz, LowPowerMode::LPM2) => 0x2990,
        (SampleRate::Auto4Hz, LowPowerMode::LPM3) => 0x39d3,
        (SampleRate::Auto10Hz, LowPowerMode::LPM0) => 0x0b09,
        (SampleRate::Auto10Hz, LowPowerMode::LPM1) => 0x1b4a,
        (SampleRate::Auto10Hz, LowPowerMode::LPM2) => 0x2b8f,
        (SampleRate::Auto10Hz, LowPowerMode::LPM3) => 0x3bcc,
    }
}

/// Fixed-code protocol operations besides the measurement-start family.
/// Alert-threshold and non-volatile-offset commands are exposed as codes
/// only; the sequencer does not implement their persistence logic.
#[derive(Clone, Copy, Debug, PartialEq, Eq, Structural)]
pub enum Command {
    AutoExit,
    AutoReadTempAndRelHumid,
    AutoReadMinTemp,
    AutoReadMaxTemp,
    AutoReadMinRelHumid,
    AutoReadMaxRelHumid,
    WriteSetLowAlert,
    WriteSetHighAlert,
    WriteClearLowAlert,
    WriteClearHighAlert,
    AlertToNV,
    ReadSetLowAlert,
    ReadSetHighAlert,
    ReadClearLowAlert,
    ReadClearHighAlert,
    HeaterEnable,
    HeaterDisable,
    HeaterConfig,
    StatusRead,
    StatusClear,
    NVOffset,
    SoftReset,
    SerialID54,
    SerialID32,
    SerialID10,
    ManufacturerID,
    ResetState,
}

/// The 16-bit code of each fixed-code command.
pub open spec fn spec_command_code(command: Command) -> u16 {
    match command {
        Command::AutoExit => 0x3093,
        Command::AutoReadTempAndRelHumid => 0xe000,
        Command::AutoReadMinTemp => 0xe002,
        Command::AutoReadMaxTemp => 0xe003,
        Command::AutoReadMinRelHumid => 0xe004,
        Command::AutoReadMaxRelHumid => 0xe005,
        Command::WriteSetLowAlert => 0x6100,
        Command::WriteSetHighAlert => 0x611d,
        Command::WriteClearLowAlert => 0x610b,
        Command::WriteClearHighAlert => 0x6116,
        Command::AlertToNV => 0x6155,
        Command::ReadSetLowAlert => 0xe102,
        Command::ReadSetHighAlert => 0xe11f,
        Command::ReadClearLowAlert => 0xe109,
        Command::ReadClearHighAlert => 0xe114,
        Command::HeaterEnable => 0x306d,
        Command::HeaterDisable => 0x3066,
        Command::HeaterConfig => 0x306e,
        Command::StatusRead => 0xf32d,
        Command::StatusClear => 0x3041,
        Command::NVOffset => 0xa004,
        Command::SoftReset => 0x30a2,
        Command::SerialID54 => 0x3683,
        Command::SerialID32 => 0x3684,
        Command::SerialID10 => 0x3685,
        Command::ManufacturerID => 0x3781,
        Command::ResetState => 0x61bb,
    }
}

/// The most significant byte of a 16-bit wire word, sent first on the bus.
pub open spec fn spec_word_msb(word: u16) -> u8 {
    (word / 256) as u8
}

/// The least significant byte of a 16-bit wire word, sent second.
pub open spec fn spec_word_lsb(word: u16) -> u8 {
    (word % 256) as u8
}

/// Splits a 16-bit wire word into the two bytes written on the bus,
/// MSB first. Every command code and write payload goes out this way.
pub fn word_to_be_bytes(word: u16) -> (r: [u8; 2])
    ensures
        r@.len() == 2,
        r@[0] == spec_word_msb(word),
        r@[1] == spec_word_lsb(word),
{
    proof {
        assert(word >> 8u16 == word / 256 && word & 0xff == word % 256) by (bit_vector);
    }
    [(word >> 8u16) as u8, (word & 0xff) as u8]
}

impl Command {
    /// The command code as the two bytes written on the bus, MSB first.
    pub fn to_be_bytes(&self) -> (r: [u8; 2])
        ensures
            r@.len() == 2,
            r@[0] == spec_word_msb(spec_command_code(*self)),
            r@[1] == spec_word_lsb(spec_command_code(*self)),
    {
        let code: u16 = match self {
            Self::AutoExit => 0x3093,
            Self::AutoReadTempAndRelHumid => 0xe000,
            Self::AutoReadMinTemp => 0xe002,
            Self::AutoReadMaxTemp => 0xe003,
            Self::AutoReadMinRelHumid => 0xe004,
            Self::AutoReadMaxRelHumid => 0xe005,
            Self::WriteSetLowAlert => 0x6100,
            Self::WriteSetHighAlert => 0x611d,
            Self::WriteClearLowAlert => 0x610b,
            Self::WriteClearHighAlert => 0x6116,
            Self::AlertToNV => 0x6155,
            Self::ReadSetLowAlert => 0xe102,
            Self::ReadSetHighAlert => 0xe11f,
            Self::ReadClearLowAlert => 0xe109,
            Self::ReadClearHighAlert => 0xe114,
            Self::HeaterEnable => 0x306d,
            Self::HeaterDisable => 0x3066,
            Self::HeaterConfig => 0x306e,
            Self::StatusRead => 0xf32d,
            Self::StatusClear => 0x3041,
            Self::NVOffset => 0xa004,
            Self::SoftReset => 0x30a2,
            Self::SerialID54 => 0x3683,
            Self::SerialID32 => 0x3684,
            Self::SerialID10 => 0x3685,
            Self::ManufacturerID => 0x3781,
            Self::ResetState => 0x61bb,
        };
        word_to_be_bytes(code)
    }
}

/// The heater-config write frame: the two heater-config command bytes,
/// the 14-bit duty payload MSB first, then the payload's checksum byte —
/// the write-side shape of every multi-byte value on this bus.
pub fn heater_config_frame(duty: u16) -> (r: [u8; 5])
    ensures
        r@.len() == 5,
        r@[0] == spec_word_msb(spec_command_code(Command::HeaterConfig)),
        r@[1] == spec_word_lsb(spec_command_code(Command::HeaterConfig)),
        r@[2] == spec_word_msb(duty),
        r@[3] == spec_word_lsb(duty),
        r@[4] == spec_crc8(seq![spec_word_msb(duty), spec_word_lsb(duty)]),
{
    let cmd = Command::HeaterConfig.to_be_bytes();
    let payload = word_to_be_bytes(duty);
    let check = crc8(payload.as_slice());
    proof {
        assert(payload@ =~= seq![spec_word_msb(duty), spec_word_lsb(duty)]);
    }
    [cmd[0], cmd[1], payload[0], payload[1], check]
}

/// The raw manufacturer ID that identifies Texas Instruments.
pub const MANUFACTURER_ID_TEXAS_INSTRUMENTS: u16 = 0x3000;

/// The worst-case measurement conversion time in milliseconds for each
/// low power mode. Conversion time grows as noise shrinks: the lowest
/// noise mode needs the longest wait before its result may be read back.
pub open spec fn spec_conversion_time_ms(low_power_mode: LowPowerMode) -> u32 {
    match low_power_mode {
        LowPowerMode::LPM0 => 13,
        LowPowerMode::LPM1 => 9,
        LowPowerMode::LPM2 => 7,
        LowPowerMode::LPM3 => 4,
    }
}

pub fn conversion_time_ms(low_power_mode: LowPowerMode) -> (r: u32)
    ensures
        r == spec_conversion_time_ms(low_power_mode),
{
    match low_power_mode {
        LowPowerMode::LPM0 => 13,
        LowPowerMode::LPM1 => 9,
        LowPowerMode::LPM2 => 7,
        LowPowerMode::LPM3 => 4,
    }
}

/// Conversion time strictly shrinks from the lowest-noise mode to the
/// lowest-power mode, so the lowest-noise mode always waits the longest.
pub proof fn lemma_conversion_time_strictly_decreasing()
    ensures
        spec_conversion_time_ms(LowPowerMode::LPM0) > spec_conversion_time_ms(LowPowerMode::LPM1),
        spec_conversion_time_ms(LowPowerMode::LPM1) > spec_conversion_time_ms(LowPowerMode::LPM2),
        spec_conversion_time_ms(LowPowerMode::LPM2) > spec_conversion_time_ms(LowPowerMode::LPM3),
        forall|m: LowPowerMode|
            spec_conversion_time_ms(LowPowerMode::LPM0) >= #[trigger] spec_conversion_time_ms(m),
{
}

} // verus!
