//! Measurement sequencer: owns one bus handle and one delay provider,
//! issues commands built from the protocol table, enforces the
//! conversion-time wait of a one-shot measurement, validates the checksum
//! of every multi-byte response, and mirrors the device's idle/auto mode.

use vstd::prelude::*;
use crate::error::{BusError, DriverError};
use crate::protocol::{
    conversion_time_ms, heater_config_frame, start_sampling_command, word_to_be_bytes, Command,
    I2cAddr, LowPowerMode, SampleRate, AutoReadTarget, HeaterLevel,
    MANUFACTURER_ID_TEXAS_INSTRUMENTS,
};
use crate::response::{
    combine_serial, decode_manufacturer_id, parse_measurement, parse_word,
};
use crate::status::{decode_status, StatusFields};

verus! {

/// The bus transport the sequencer drives: clocked writes and
/// write-then-read transactions against a 7-bit device address. An empty
/// `data` on a write-then-read is a plain read of the most recent
/// command's output. Implementations live outside this crate; the one
/// promise the sequencer relies on is that a successful read hands back
/// exactly the requested number of bytes.
pub trait Bus {
    /// Writes `data` to the device at `addr`.
    fn write(&mut self, addr: u8, data: &[u8]) -> (r: Result<(), BusError>);

    /// Writes `data` to the device at `addr`, then reads back `n` bytes.
    fn write_then_read(&mut self, addr: u8, data: &[u8], n: usize) -> (r: Result<
        Vec<u8>,
        BusError,
    >)
        ensures
            r matches Ok(v) ==> v@.len() == n,
    ;
}

/// The timing provider the sequencer suspends on: a call returns no
/// earlier than the given number of milliseconds of wall-clock time.
pub trait DelayProvider {
    /// Suspends the caller for at least `ms` milliseconds.
    fn delay_ms(&mut self, ms: u32);
}

/// The sequencer's best-effort mirror of the device's sampling mode. The
/// device itself stays authoritative: an uncommanded reset can make the
/// mirror stale, which a caller of auto reads must account for.
#[derive(Clone, Copy, Debug, PartialEq, Eq, Structural)]
pub enum DriverState {
    /// no self-timed sampling is running
    Idle,
    /// the device self-times periodic sampling at the recorded rate
    AutoSampling(SampleRate),
}

/// A decoded reading, still as raw 16-bit ADC codes. Conversion to
/// physical units is floating-point arithmetic and lives with the
/// application around this crate.
#[derive(Clone, Copy, Debug, PartialEq, Eq, Structural)]
pub enum Datum {
    /// the most recent temperature and relative-humidity pair
    TempAndRelHumid { temp_raw: u16, humid_raw: u16 },
    /// minimum temperature since auto mode was started
    MinTemp(u16),
    /// maximum temperature since auto mode was started
    MaxTemp(u16),
    /// minimum relative humidity since auto mode was started
    MinRelHumid(u16),
    /// maximum relative humidity since auto mode was started
    MaxRelHumid(u16),
}

/// Whether a datum is of the variant that the given auto-read target
/// selects.
pub open spec fn spec_datum_matches_target(target: AutoReadTarget, datum: Datum) -> bool {
    match target {
        AutoReadTarget::LastTempAndRelHumid => datum is TempAndRelHumid,
        AutoReadTarget::MinTemp => datum is MinTemp,
        AutoReadTarget::MaxTemp => datum is MaxTemp,
        AutoReadTarget::MinRelHumid => datum is MinRelHumid,
        AutoReadTarget::MaxRelHumid => datum is MaxRelHumid,
    }
}

/// The measurement sequencer. It assumes exclusive ownership of its bus
/// handle; two sequencers must not drive one device address without
/// external serialization.
pub struct Driver<B: Bus, D: DelayProvider> {
    bus: B,
    delay: D,
    addr: I2cAddr,
    state: DriverState,
}

impl<B: Bus, D: DelayProvider> Driver<B, D> {
    /// The sequencer's mirror of the device's sampling mode.
    pub closed spec fn spec_state(&self) -> DriverState {
        self.state
    }

    /// The device address this sequencer drives, fixed at construction.
    pub closed spec fn spec_addr(&self) -> I2cAddr {
        self.addr
    }

    /// Builds a sequencer over a bus handle and a delay provider. The
    /// mirror starts out idle.
    pub fn new(bus: B, delay: D, addr: I2cAddr) -> (r: Self)
        ensures
            r.spec_state() == DriverState::Idle,
            r.spec_addr() == addr,
    {
        Driver { bus, delay, addr, state: DriverState::Idle }
    }

    /// Reads back the mirrored sampling mode.
    pub fn state(&self) -> (s: DriverState)
        ensures
            s == self.spec_state(),
    {
        self.state
    }

    /// Reads back the device address this sequencer drives.
    pub fn addr(&self) -> (a: I2cAddr)
        ensures
            a == self.spec_addr(),
    {
        self.addr
    }

    /// Writes one fixed-code command, MSB first.
    fn write_command(&mut self, command: Command) -> (r: Result<(), DriverError>)
        ensures
            final(self).spec_state() == old(self).spec_state(),
            final(self).spec_addr() == old(self).spec_addr(),
            r matches Err(e) ==> e matches DriverError::Bus(_),
    {
        let bytes = command.to_be_bytes();
        let addr = self.addr.as_u8();
        match self.bus.write(addr, bytes.as_slice()) {
            Ok(()) => Ok(()),
            Err(e) => Err(DriverError::Bus(e)),
        }
    }

    /// Writes one fixed-code command and reads back an `n`-byte response.
    fn transact(&mut self, command: Command, n: usize) -> (r: Result<Vec<u8>, DriverError>)
        ensures
            final(self).spec_state() == old(self).spec_state(),
            final(self).spec_addr() == old(self).spec_addr(),
            r matches Ok(v) ==> v@.len() == n,
            r matches Err(e) ==> e matches DriverError::Bus(_),
    {
        let bytes = command.to_be_bytes();
        let addr = self.addr.as_u8();
        match self.bus.write_then_read(addr, bytes.as_slice(), n) {
            Ok(v) => Ok(v),
            Err(e) => Err(DriverError::Bus(e)),
        }
    }

    /// Writes the manufacturer-ID command, reads two data bytes plus one
    /// checksum byte, validates the checksum, and accepts only the known
    /// Texas Instruments identity; any other well-formed value surfaces
    /// as a distinguishable unexpected-value rejection.
    pub fn read_manufacturer_id(&mut self) -> (r: Result<u16, DriverError>)
        ensures
            final(self).spec_state() == old(self).spec_state(),
            final(self).spec_addr() == old(self).spec_addr(),
            r matches Ok(id) ==> id == MANUFACTURER_ID_TEXAS_INSTRUMENTS,
            r matches Err(DriverError::UnexpectedValue(id)) ==> id
                != MANUFACTURER_ID_TEXAS_INSTRUMENTS,
    {
        let resp = match self.transact(Command::ManufacturerID, 3) {
            Ok(v) => v,
            Err(e) => { return Err(e); },
        };
        decode_manufacturer_id(resp.as_slice())
    }

    /// Reads one 16-bit serial-number segment.
    fn read_serial_word(&mut self, command: Command) -> (r: Result<u16, DriverError>)
        ensures
            final(self).spec_state() == old(self).spec_state(),
            final(self).spec_addr() == old(self).spec_addr(),
    {
        let resp = match self.transact(command, 3) {
            Ok(v) => v,
            Err(e) => { return Err(e); },
        };
        parse_word(resp.as_slice())
    }

    /// Issues the three serial-number read commands, validates each
    /// segment's checksum individually, and packs the 48-bit serial
    /// number into a 64-bit result.
    pub fn read_serial_number(&mut self) -> (r: Result<u64, DriverError>)
        ensures
            final(self).spec_state() == old(self).spec_state(),
            final(self).spec_addr() == old(self).spec_addr(),
            r matches Ok(serial) ==> serial < 0x1_0000_0000_0000,
    {
        let high = match self.read_serial_word(Command::SerialID54) {
            Ok(w) => w,
            Err(e) => { return Err(e); },
        };
        let mid = match self.read_serial_word(Command::SerialID32) {
            Ok(w) => w,
            Err(e) => { return Err(e); },
        };
        let low = match self.read_serial_word(Command::SerialID10) {
            Ok(w) => w,
            Err(e) => { return Err(e); },
        };
        Ok(combine_serial(high, mid, low))
    }

    /// Writes the status-read command, reads the 16-bit status word plus
    /// its checksum byte, and decodes the named flags. When asked to, it
    /// then issues the status-clear command best-effort: a failure of the
    /// clear does not invalidate the already-decoded status.
    pub fn read_status(&mut self, clear_after_read: bool) -> (r: Result<StatusFields, DriverError>)
        ensures
            final(self).spec_state() == old(self).spec_state(),
            final(self).spec_addr() == old(self).spec_addr(),
    {
        let resp = match self.transact(Command::StatusRead, 3) {
            Ok(v) => v,
            Err(e) => { return Err(e); },
        };
        let word = match parse_word(resp.as_slice()) {
            Ok(w) => w,
            Err(e) => { return Err(e); },
        };
        let fields = decode_status(word);
        if clear_after_read {
            let _ = self.write_command(Command::StatusClear);
        }
        Ok(fields)
    }

    /// Takes one measurement: writes the one-shot command for the given
    /// power mode, waits at least the mode's worst-case conversion time,
    /// reads the four data bytes and two checksum bytes back, validates
    /// both checksums independently, and returns the raw pair. Either
    /// checksum failing rejects the measurement whole.
    pub fn one_shot(&mut self, low_power_mode: LowPowerMode) -> (r: Result<Datum, DriverError>)
        ensures
            final(self).spec_state() == old(self).spec_state(),
            final(self).spec_addr() == old(self).spec_addr(),
            r matches Ok(d) ==> d is TempAndRelHumid,
    {
        let code = start_sampling_command(SampleRate::OneShot, low_power_mode);
        let cmd = word_to_be_bytes(code);
        let addr = self.addr.as_u8();
        match self.bus.write(addr, cmd.as_slice()) {
            Ok(()) => {},
            Err(e) => { return Err(DriverError::Bus(e)); },
        }
        let wait = conversion_time_ms(low_power_mode);
        self.delay.delay_ms(wait);
        let none_written: [u8; 0] = [];
        let resp = match self.bus.write_then_read(addr, none_written.as_slice(), 6) {
            Ok(v) => v,
            Err(e) => { return Err(DriverError::Bus(e)); },
        };
        match parse_measurement(resp.as_slice()) {
            Ok(m) => Ok(Datum::TempAndRelHumid { temp_raw: m.temp_raw, humid_raw: m.humid_raw }),
            Err(e) => Err(e),
        }
    }

    /// Writes the auto-mode command for the given rate and power mode;
    /// the device begins self-timed periodic sampling and the mirror
    /// moves to auto. Does not wait or read back.
    pub fn enter_auto(&mut self, sample_rate: SampleRate, low_power_mode: LowPowerMode) -> (r:
        Result<(), DriverError>)
        requires
            sample_rate != SampleRate::OneShot,
        ensures
            final(self).spec_addr() == old(self).spec_addr(),
            r is Ok ==> final(self).spec_state() == DriverState::AutoSampling(sample_rate),
            r is Err ==> final(self).spec_state() == old(self).spec_state(),
            r matches Err(e) ==> e matches DriverError::Bus(_),
    {
        let code = start_sampling_command(sample_rate, low_power_mode);
        let cmd = word_to_be_bytes(code);
        let addr = self.addr.as_u8();
        match self.bus.write(addr, cmd.as_slice()) {
            Ok(()) => {
                self.state = DriverState::AutoSampling(sample_rate);
                Ok(())
            },
            Err(e) => Err(DriverError::Bus(e)),
        }
    }

    /// Writes the auto-exit command. On success the mirror reads back
    /// idle whatever it was before, so the operation is idempotent: an
    /// exit while already idle succeeds the same way.
    pub fn exit_auto(&mut self) -> (r: Result<(), DriverError>)
        ensures
            final(self).spec_addr() == old(self).spec_addr(),
            r is Ok ==> final(self).spec_state() == DriverState::Idle,
            r is Err ==> final(self).spec_state() == old(self).spec_state(),
            r matches Err(e) ==> e matches DriverError::Bus(_),
    {
        match self.write_command(Command::AutoExit) {
            Ok(()) => {
                self.state = DriverState::Idle;
                Ok(())
            },
            Err(e) => Err(e),
        }
    }

    /// Reads one auto-mode target: the matching read command goes out,
    /// the checksummed response comes back, and the decoded value arrives
    /// in the datum variant of the chosen target. Meaningful only while
    /// the device itself is in auto mode; the device, not the mirror, is
    /// authoritative, and a stale query returns stale device data rather
    /// than a driver-detected error.
    pub fn read_auto(&mut self, target: AutoReadTarget) -> (r: Result<Datum, DriverError>)
        ensures
            final(self).spec_state() == old(self).spec_state(),
            final(self).spec_addr() == old(self).spec_addr(),
            r matches Ok(d) ==> spec_datum_matches_target(target, d),
    {
        match target {
            AutoReadTarget::LastTempAndRelHumid => {
                let resp = match self.transact(Command::AutoReadTempAndRelHumid, 6) {
                    Ok(v) => v,
                    Err(e) => { return Err(e); },
                };
                match parse_measurement(resp.as_slice()) {
                    Ok(m) => Ok(
                        Datum::TempAndRelHumid { temp_raw: m.temp_raw, humid_raw: m.humid_raw },
                    ),
                    Err(e) => Err(e),
                }
            },
            AutoReadTarget::MinTemp => {
                match self.read_auto_word(Command::AutoReadMinTemp) {
                    Ok(w) => Ok(Datum::MinTemp(w)),
                    Err(e) => Err(e),
                }
            },
            AutoReadTarget::MaxTemp => {
                match self.read_auto_word(Command::AutoReadMaxTemp) {
                    Ok(w) => Ok(Datum::MaxTemp(w)),
                    Err(e) => Err(e),
                }
            },
            AutoReadTarget::MinRelHumid => {
                match self.read_auto_word(Command::AutoReadMinRelHumid) {
                    Ok(w) => Ok(Datum::MinRelHumid(w)),
                    Err(e) => Err(e),
                }
            },
            AutoReadTarget::MaxRelHumid => {
                match self.read_auto_word(Command::AutoReadMaxRelHumid) {
                    Ok(w) => Ok(Datum::MaxRelHumid(w)),
                    Err(e) => Err(e),
                }
            },
        }
    }

    /// Reads one checksummed single-word auto-mode value.
    fn read_auto_word(&mut self, command: Command) -> (r: Result<u16, DriverError>)
        ensures
            final(self).spec_state() == old(self).spec_state(),
            final(self).spec_addr() == old(self).spec_addr(),
    {
        let resp = match self.transact(command, 3) {
            Ok(v) => v,
            Err(e) => { return Err(e); },
        };
        parse_word(resp.as_slice())
    }

    /// Turns the heater off, or configures its 14-bit duty value and then
    /// enables it. The configure and enable are two bus writes in
    /// sequence; if the first succeeds and the second fails, the device
    /// is left half-configured, which surfaces as an error and is not
    /// rolled back.
    pub fn set_heater(&mut self, level: HeaterLevel) -> (r: Result<(), DriverError>)
        ensures
            final(self).spec_state() == old(self).spec_state(),
            final(self).spec_addr() == old(self).spec_addr(),
            r matches Err(e) ==> e matches DriverError::Bus(_),
    {
        match level.setting() {
            None => self.write_command(Command::HeaterDisable),
            Some(duty) => {
                let frame = heater_config_frame(duty);
                let addr = self.addr.as_u8();
                match self.bus.write(addr, frame.as_slice()) {
                    Ok(()) => {},
                    Err(e) => { return Err(DriverError::Bus(e)); },
                }
                self.write_command(Command::HeaterEnable)
            },
        }
    }

    /// Writes the soft-reset command. The device resets its own mode, so
    /// the mirror reads back idle on success. The caller must let the
    /// device's power-on settle time pass before the next command; the
    /// sequencer does not insert that wait itself, since a reset is
    /// typically followed by reconfiguration the caller controls.
    pub fn soft_reset(&mut self) -> (r: Result<(), DriverError>)
        ensures
            final(self).spec_addr() == old(self).spec_addr(),
            r is Ok ==> final(self).spec_state() == DriverState::Idle,
            r is Err ==> final(self).spec_state() == old(self).spec_state(),
            r matches Err(e) ==> e matches DriverError::Bus(_),
    {
        match self.write_command(Command::SoftReset) {
            Ok(()) => {
                self.state = DriverState::Idle;
                Ok(())
            },
            Err(e) => Err(e),
        }
    }
}

} // verus!
