//! Register map: the registers of the chip, their bus addresses and the
//! layout of their fields.

use vstd::prelude::*;

pub mod chopconf;
pub mod coolconf;
pub mod gconf;
pub mod ihold_irun;
pub mod pwmconf;

pub use chopconf::{ChopConf, ChopConfField};
pub use coolconf::{CoolConf, CoolConfField};
pub use gconf::{GConf, GConfFlag};
pub use ihold_irun::{IHoldIrun, IHoldIrunField};
pub use pwmconf::{PwmConf, PwmConfField};

verus! {

/// The registers of the chip that this driver knows by name.
///
/// The bus address of a register is what [`Register::address`] returns; it is
/// not the position of the name in this list.
#[derive(Clone, Copy, Debug, PartialEq, Eq)]
pub enum Register {
    /// Global configuration.
    GConf,
    /// Global status flags.
    GStat,
    /// Input pin states.
    IOIN,
    /// OTP memory programming.
    OtpProg,
    /// OTP memory read.
    OtpRead,
    /// Factory configuration.
    FactoryConf,
    /// Short-circuit detection.
    ShortConf,
    /// Driver strength and protection.
    DrvConf,
    /// Global current scaler.
    GlobalScaler,
    /// Offset calibration result.
    OffsetRead,
    /// Hold current, run current and hold delay.
    IHoldIrun,
    /// Delay before power-down at standstill.
    TPowerdown,
    /// Measured time between two steps.
    TStep,
    /// Upper velocity for the PWM mode.
    TPwmThrs,
    /// Lower velocity for CoolStep and StallGuard.
    TCoolThrs,
    /// High-velocity threshold.
    THigh,
    /// Minimum velocity for DcStep.
    VdcMin,
    /// Segmentation of the microstep look-up table.
    MSLutSel,
    /// Start values of the microstep look-up table.
    MSLutStart,
    /// Microstep counter.
    MsCnt,
    /// Actual motor phase currents.
    MsCurAct,
    /// Chopper configuration.
    ChopConf,
    /// CoolStep and StallGuard configuration.
    CoolConf,
    /// DcStep control.
    DcCtrl,
    /// Driver status and StallGuard result.
    DrvStatus,
    /// PWM configuration.
    PwmConf,
    /// PWM scaling result.
    PwmScale,
    /// Automatically determined PWM values.
    PwmAuto,
    /// Lost-step counter.
    LostSteps,
}

impl Register {
    /// The 7-bit bus address of the register.
    pub open spec fn spec_address(self) -> u8 {
        match self {
            Register::GConf => 0x00,
            Register::GStat => 0x01,
            Register::IOIN => 0x04,
            Register::OtpProg => 0x06,
            Register::OtpRead => 0x07,
            Register::FactoryConf => 0x08,
            Register::ShortConf => 0x09,
            Register::DrvConf => 0x0A,
            Register::GlobalScaler => 0x0B,
            Register::OffsetRead => 0x0C,
            Register::IHoldIrun => 0x10,
            Register::TPowerdown => 0x11,
            Register::TStep => 0x12,
            Register::TPwmThrs => 0x13,
            Register::TCoolThrs => 0x14,
            Register::THigh => 0x15,
            Register::VdcMin => 0x33,
            Register::MSLutSel => 0x68,
            Register::MSLutStart => 0x69,
            Register::MsCnt => 0x6A,
            Register::MsCurAct => 0x6B,
            Register::ChopConf => 0x6C,
            Register::CoolConf => 0x6D,
            Register::DcCtrl => 0x6E,
            Register::DrvStatus => 0x6F,
            Register::PwmConf => 0x70,
            Register::PwmScale => 0x71,
            Register::PwmAuto => 0x72,
            Register::LostSteps => 0x73,
        }
    }

    /// The 7-bit bus address of the register.
    #[verifier::when_used_as_spec(spec_address)]
    pub fn address(self) -> (a: u8)
        ensures
            a == self.spec_address(),
            a < 0x80,
    {
        match self {
            Register::GConf => 0x00,
            Register::GStat => 0x01,
            Register::IOIN => 0x04,
            Register::OtpProg => 0x06,
            Register::OtpRead => 0x07,
            Register::FactoryConf => 0x08,
            Register::ShortConf => 0x09,
            Register::DrvConf => 0x0A,
            Register::GlobalScaler => 0x0B,
            Register::OffsetRead => 0x0C,
            Register::IHoldIrun => 0x10,
            Register::TPowerdown => 0x11,
            Register::TStep => 0x12,
            Register::TPwmThrs => 0x13,
            Register::TCoolThrs => 0x14,
            Register::THigh => 0x15,
            Register::VdcMin => 0x33,
            Register::MSLutSel => 0x68,
            Register::MSLutStart => 0x69,
            Register::MsCnt => 0x6A,
            Register::MsCurAct => 0x6B,
            Register::ChopConf => 0x6C,
            Register::CoolConf => 0x6D,
            Register::DcCtrl => 0x6E,
            Register::DrvStatus => 0x6F,
            Register::PwmConf => 0x70,
            Register::PwmScale => 0x71,
            Register::PwmAuto => 0x72,
            Register::LostSteps => 0x73,
        }
    }
}

/// The global status flags (0x01): 3 bits.
#[derive(Debug, Clone, Copy, PartialEq, Eq)]
pub struct GStat(pub u8);

/// The input pin states (0x04): 8 bits.
#[derive(Debug, Clone, Copy, PartialEq, Eq)]
pub struct IOIn(pub u8);

/// The OTP programming register (0x06), which can only be written.
#[derive(Debug, Clone, Copy, PartialEq, Eq)]
pub struct OtpProg(pub u32);

/// The OTP read register (0x07).
#[derive(Debug, Clone, Copy, PartialEq, Eq)]
pub struct OtpRead(pub u32);

/// The factory configuration (0x08): 5 bits.
#[derive(Debug, Clone, Copy, PartialEq, Eq)]
pub struct FactoryConf(pub u8);

/// The short-circuit detection configuration (0x09): 19 bits.
#[derive(Debug, Clone, Copy, PartialEq, Eq)]
pub struct ShortConf(pub u32);

/// The driver strength and protection configuration (0x0A): 22 bits.
#[derive(Debug, Clone, Copy, PartialEq, Eq)]
pub struct DrvConf(pub u32);

/// The global current scaler (0x0B): 8 bits.
#[derive(Debug, Clone, Copy, PartialEq, Eq)]
pub struct GlobalScaler(pub u8);

/// The offset calibration result (0x0C): 16 bits.
#[derive(Debug, Clone, Copy, PartialEq, Eq)]
pub struct OffsetRead(pub u16);

/// The delay before power-down at standstill (0x11): 8 bits.
#[derive(Debug, Clone, Copy, PartialEq, Eq)]
pub struct TPowerdown(pub u8);

/// The measured time between two steps (0x12): 20 bits.
#[derive(Debug, Clone, Copy, PartialEq, Eq)]
pub struct TStep(pub u32);

/// The upper velocity for the PWM mode (0x13): 20 bits.
#[derive(Debug, Clone, Copy, PartialEq, Eq)]
pub struct TPwmThrs(pub u32);

/// The lower velocity for CoolStep and StallGuard (0x14): 20 bits.
#[derive(Debug, Clone, Copy, PartialEq, Eq)]
pub struct TCoolThrs(pub u32);

/// The high-velocity threshold (0x15): 20 bits.
#[derive(Debug, Clone, Copy, PartialEq, Eq)]
pub struct THigh(pub u32);

/// The minimum velocity for DcStep (0x33): 23 bits.
#[derive(Debug, Clone, Copy, PartialEq, Eq)]
pub struct VdcMin(pub u32);

/// One entry of the microstep look-up table (0x60 to 0x67): 32 bits.
#[derive(Debug, Clone, Copy, PartialEq, Eq)]
pub struct MSLut(pub u32);

/// The segmentation of the microstep look-up table (0x68): 32 bits.
#[derive(Debug, Clone, Copy, PartialEq, Eq)]
pub struct MSLutSel(pub u32);

/// The start values of the microstep look-up table (0x69): 16 bits.
#[derive(Debug, Clone, Copy, PartialEq, Eq)]
pub struct MSLutStart(pub u16);

/// The microstep counter (0x6A): 10 bits.
#[derive(Debug, Clone, Copy, PartialEq, Eq)]
pub struct MsCnt(pub u16);

/// The actual motor phase currents (0x6B): two values of 9 bits.
#[derive(Debug, Clone, Copy, PartialEq, Eq)]
pub struct MsCurAct {
    /// The current of phase A.
    pub phase_a: u16,
    /// The current of phase B.
    pub phase_b: u16,
}

/// The DcStep control register (0x6E): 24 bits.
#[derive(Debug, Clone, Copy, PartialEq, Eq)]
pub struct DcCtrl(pub u32);

/// The driver status and StallGuard result (0x6F): 32 bits.
#[derive(Debug, Clone, Copy, PartialEq, Eq)]
pub struct DrvStatus(pub u32);

/// The PWM scaling result (0x71).
#[derive(Debug, Clone, Copy, PartialEq, Eq)]
pub struct PwmScale(pub u16);

/// The automatically determined PWM values (0x72): 16 bits.
#[derive(Debug, Clone, Copy, PartialEq, Eq)]
pub struct PwmAuto(pub u16);

/// The lost-step counter (0x73): 20 bits.
#[derive(Debug, Clone, Copy, PartialEq, Eq)]
pub struct LostSteps(pub u32);

/// No two registers share an address.
pub proof fn addresses_are_distinct(a: Register, b: Register)
    ensures
        a.address() == b.address() ==> a == b,
{
}

} // verus!
