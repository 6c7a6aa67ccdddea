//! Values that the driver takes and gives: errors, direction, microstep
//! resolution, decoded status, and the shadow copies of write-only registers.

use crate::bits::{decode_fits, Field};
use crate::registers::Register;
use vstd::prelude::*;

verus! {

/// Why an operation of the driver failed. `SpiE` is what the bus reports on a
/// failure, `PinE` what a digital output line reports.
#[derive(Debug, PartialEq, Eq)]
pub enum Error<SpiE, PinE> {
    /// The bus failed during a transaction.
    Spi(SpiE),
    /// A digital output line could not be set.
    Pin(PinE),
    /// An argument lies outside the accepted range.
    InvalidArgument,
    /// The driver has not been initialized. No operation reports this yet.
    NotInitialized,
}

/// Direction of rotation.
#[derive(Debug, Clone, Copy, PartialEq, Eq)]
pub enum Direction {
    /// Clockwise.
    CW,
    /// Counterclockwise.
    CCW,
}

/// Microstep resolution: the number of microsteps per full step.
#[derive(Debug, Clone, Copy, PartialEq, Eq)]
pub enum MicrostepResolution {
    /// 1 microstep per full step.
    Full,
    /// 2 microsteps per full step.
    Half,
    /// 4 microsteps per full step.
    Quarter,
    /// 8 microsteps per full step.
    Eighth,
    /// 16 microsteps per full step.
    Sixteenth,
    /// 32 microsteps per full step.
    ThirtySecond,
    /// 64 microsteps per full step.
    SixtyFourth,
    /// 128 microsteps per full step.
    OneTwentyEighth,
    /// 256 microsteps per full step.
    TwoFiftySixth,
}

impl MicrostepResolution {
    /// The code of the resolution in the MRES field of the chopper
    /// configuration: 0 for full step, rising by one with each doubling, 8 for
    /// 256 microsteps.
    pub open spec fn code(self) -> u8 {
        match self {
            MicrostepResolution::Full => 0,
            MicrostepResolution::Half => 1,
            MicrostepResolution::Quarter => 2,
            MicrostepResolution::Eighth => 3,
            MicrostepResolution::Sixteenth => 4,
            MicrostepResolution::ThirtySecond => 5,
            MicrostepResolution::SixtyFourth => 6,
            MicrostepResolution::OneTwentyEighth => 7,
            MicrostepResolution::TwoFiftySixth => 8,
        }
    }

    /// The number of microsteps per full step.
    pub open spec fn microsteps(self) -> nat {
        match self {
            MicrostepResolution::Full => 1,
            MicrostepResolution::Half => 2,
            MicrostepResolution::Quarter => 4,
            MicrostepResolution::Eighth => 8,
            MicrostepResolution::Sixteenth => 16,
            MicrostepResolution::ThirtySecond => 32,
            MicrostepResolution::SixtyFourth => 64,
            MicrostepResolution::OneTwentyEighth => 128,
            MicrostepResolution::TwoFiftySixth => 256,
        }
    }

    /// The code of the resolution in the MRES field of the chopper configuration.
    #[verifier::when_used_as_spec(code)]
    pub fn to_bits(self) -> (bits: u8)
        ensures
            bits == self.code(),
            bits <= 8,
    {
        match self {
            MicrostepResolution::Full => 0,
            MicrostepResolution::Half => 1,
            MicrostepResolution::Quarter => 2,
            MicrostepResolution::Eighth => 3,
            MicrostepResolution::Sixteenth => 4,
            MicrostepResolution::ThirtySecond => 5,
            MicrostepResolution::SixtyFourth => 6,
            MicrostepResolution::OneTwentyEighth => 7,
            MicrostepResolution::TwoFiftySixth => 8,
        }
    }
}

/// The codes rise with the resolution: a finer resolution has the larger code,
/// and no two resolutions share one.
pub proof fn codes_rise_with_resolution(a: MicrostepResolution, b: MicrostepResolution)
    ensures
        a.microsteps() < b.microsteps() <==> a.code() < b.code(),
        a.code() == b.code() ==> a == b,
{
}

/// A snapshot of the chip's diagnostics, decoded from the global status and
/// the driver status registers.
#[derive(Debug, Clone, Copy, PartialEq, Eq)]
pub struct DriverStatus {
    /// The chip has been reset since the flag was last cleared.
    pub reset_flag: bool,
    /// The driver has been shut down by an error.
    pub drv_err: bool,
    /// The charge pump is under voltage.
    pub uv_cp: bool,
    /// Short to ground on phase A. Not decoded: always `false`.
    pub short_to_gnd_a: bool,
    /// Short to ground on phase B. Not decoded: always `false`.
    pub short_to_gnd_b: bool,
    /// Open load on phase A. Not decoded: always `false`.
    pub open_load_a: bool,
    /// Open load on phase B. Not decoded: always `false`.
    pub open_load_b: bool,
    /// A stall has been detected.
    pub stallguard_status: bool,
    /// The quiet PWM mode is active.
    pub stealth_mode: bool,
    /// The current scale that the chip actually applies.
    pub cs_actual: u8,
}

impl DriverStatus {
    /// What the raw values of the global status register and of the driver
    /// status register say: bits 0, 1 and 2 of the first are the reset, error
    /// and undervoltage flags; bits 14 and 15 of the second are the stall and
    /// quiet-mode flags, and its bits 16 to 23 the actual current scale.
    pub open spec fn decoded(gstat: u32, drv_status: u32) -> DriverStatus {
        DriverStatus {
            reset_flag: Field::bit(0).is_set(gstat),
            drv_err: Field::bit(1).is_set(gstat),
            uv_cp: Field::bit(2).is_set(gstat),
            short_to_gnd_a: false,
            short_to_gnd_b: false,
            open_load_a: false,
            open_load_b: false,
            stallguard_status: Field::bit(14).is_set(drv_status),
            stealth_mode: Field::bit(15).is_set(drv_status),
            cs_actual: (Field { offset: 16, width: 8 }).decode(drv_status) as u8,
        }
    }

    /// Decodes the raw values of the global status register and of the driver
    /// status register.
    pub fn decode(gstat: u32, drv_status: u32) -> (status: DriverStatus)
        ensures
            status == DriverStatus::decoded(gstat, drv_status),
    {
        let scale_field = Field { offset: 16, width: 8 };
        let scale: u32 = scale_field.get(drv_status);
        proof {
            decode_fits(scale_field, drv_status);
            assert(!(u32::MAX << 8u32) == 255u32) by (bit_vector);
        }
        DriverStatus {
            reset_flag: Field::bit(0).test(gstat),
            drv_err: Field::bit(1).test(gstat),
            uv_cp: Field::bit(2).test(gstat),
            short_to_gnd_a: false,
            short_to_gnd_b: false,
            open_load_a: false,
            open_load_b: false,
            stallguard_status: Field::bit(14).test(drv_status),
            stealth_mode: Field::bit(15).test(drv_status),
            cs_actual: scale as u8,
        }
    }
}

/// Shadow copies of the registers that the chip cannot read back: for each of
/// them the value that was last written with success, 0 before the first write.
#[derive(Debug, Clone, Copy, PartialEq, Eq)]
pub struct RegisterCache {
    /// Last value written to the hold and run current register.
    pub ihold_irun: u32,
    /// Last value written to the PWM velocity threshold register.
    pub tpwmthrs: u32,
    /// Last value written to the CoolStep and StallGuard configuration register.
    pub coolconf: u32,
    /// Last value written to the PWM configuration register.
    pub pwmconf: u32,
}

impl View for RegisterCache {
    type V = Map<Register, u32>;

    /// The cache as a mapping from the tracked registers to their last values.
    open spec fn view(&self) -> Map<Register, u32> {
        Map::new(
            |reg: Register| RegisterCache::tracks(reg),
            |reg: Register|
                match reg {
                    Register::IHoldIrun => self.ihold_irun,
                    Register::TPwmThrs => self.tpwmthrs,
                    Register::CoolConf => self.coolconf,
                    _ => self.pwmconf,
                },
        )
    }
}

impl Default for RegisterCache {
    /// The cache before any write: every tracked register at 0.
    fn default() -> (cache: RegisterCache)
        ensures
            cache.ihold_irun == 0,
            cache.tpwmthrs == 0,
            cache.coolconf == 0,
            cache.pwmconf == 0,
    {
        RegisterCache { ihold_irun: 0, tpwmthrs: 0, coolconf: 0, pwmconf: 0 }
    }
}

impl RegisterCache {
    /// The registers that the cache tracks: those that the chip cannot read back.
    pub open spec fn tracks(reg: Register) -> bool {
        reg == Register::IHoldIrun || reg == Register::TPwmThrs || reg == Register::CoolConf
            || reg == Register::PwmConf
    }

    /// The cache after a write of `value` to `reg` has succeeded: the value is
    /// recorded for a tracked register, and nothing changes for any other.
    pub open spec fn updated(self, reg: Register, value: u32) -> RegisterCache {
        match reg {
            Register::IHoldIrun => RegisterCache { ihold_irun: value, ..self },
            Register::TPwmThrs => RegisterCache { tpwmthrs: value, ..self },
            Register::CoolConf => RegisterCache { coolconf: value, ..self },
            Register::PwmConf => RegisterCache { pwmconf: value, ..self },
            _ => self,
        }
    }

    /// Whether the cache tracks `reg`.
    #[verifier::when_used_as_spec(tracks)]
    pub fn is_tracked(reg: Register) -> (known: bool)
        ensures
            known == RegisterCache::tracks(reg),
    {
        match reg {
            Register::IHoldIrun => true,
            Register::TPwmThrs => true,
            Register::CoolConf => true,
            Register::PwmConf => true,
            _ => false,
        }
    }

    /// The last value written to `reg`, or `None` for a register that is not
    /// tracked.
    pub fn get(&self, reg: Register) -> (value: Option<u32>)
        ensures
            value == (if self@.dom().contains(reg) {
                Some(self@[reg])
            } else {
                None
            }),
            value is Some <==> RegisterCache::tracks(reg),
    {
        match reg {
            Register::IHoldIrun => Some(self.ihold_irun),
            Register::TPwmThrs => Some(self.tpwmthrs),
            Register::CoolConf => Some(self.coolconf),
            Register::PwmConf => Some(self.pwmconf),
            _ => None,
        }
    }

    /// Records `value` as the last value written to `reg`. A register that is
    /// not tracked is not recorded.
    pub fn put(&mut self, reg: Register, value: u32)
        ensures
            *final(self) == old(self).updated(reg, value),
            final(self)@ == (if RegisterCache::tracks(reg) {
                old(self)@.insert(reg, value)
            } else {
                old(self)@
            }),
    {
        match reg {
            Register::IHoldIrun => {
                self.ihold_irun = value;
            },
            Register::TPwmThrs => {
                self.tpwmthrs = value;
            },
            Register::CoolConf => {
                self.coolconf = value;
            },
            Register::PwmConf => {
                self.pwmconf = value;
            },
            _ => {},
        }
    }
}

/// The cache after an update holds the written value for a tracked register,
/// holds for every other tracked register what it held before, and never holds
/// a register that is not tracked.
pub proof fn update_records_one_register(
    cache: RegisterCache,
    reg: Register,
    value: u32,
    other: Register,
)
    ensures
        cache.updated(reg, value)@.dom() == cache@.dom(),
        cache@.dom().contains(other) <==> RegisterCache::tracks(other),
        RegisterCache::tracks(reg) ==> cache.updated(reg, value)@[reg] == value,
        other != reg && RegisterCache::tracks(other) ==> cache.updated(reg, value)@[other]
            == cache@[other],
        !RegisterCache::tracks(reg) ==> cache.updated(reg, value) == cache,
{
    assert(cache.updated(reg, value)@.dom() =~= cache@.dom());
}

} // verus!
