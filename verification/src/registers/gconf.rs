//! The global configuration register.

use crate::bits::{encode_keeps_disjoint_field, flag_round_trip, Field};
use vstd::prelude::*;

verus! {

/// The flags of [`GConf`].
#[derive(Clone, Copy, Debug, PartialEq, Eq)]
pub enum GConfFlag {
    /// Zero-crossing recalibration during driver disable.
    Recalibrate,
    /// Shortened timeout for standstill detection.
    FastStandstill,
    /// The quiet PWM mode is enabled.
    EnPwmMode,
    /// Step input filtering is enabled.
    MultistepFilt,
    /// The motor direction is inverted.
    Shaft,
    /// DIAG0 is active on driver errors.
    Diag0Error,
    /// DIAG0 is active on the overtemperature warning.
    Diag0Otpw,
    /// DIAG0 is active on a motor stall.
    Diag0Stall,
    /// DIAG1 is active on a motor stall.
    Diag1Stall,
    /// DIAG1 is active on the index position.
    Diag1Index,
    /// DIAG1 is active while the chopper is on.
    Diag1Onstate,
    /// DIAG1 toggles on skipped steps.
    Diag1StepsSkipped,
    /// DIAG0 is a push-pull output.
    Diag0IntPushpull,
    /// DIAG1 is a push-pull output.
    Diag1Pushpull,
    /// The hysteresis for step frequency comparison is small.
    SmallHysteresis,
    /// The emergency stop input is enabled.
    StopEnable,
    /// The coil currents are set directly over the bus.
    DirectMode,
}

impl GConfFlag {
    /// The bit of the register that holds the flag.
    pub open spec fn spec_index(self) -> u32 {
        match self {
            GConfFlag::Recalibrate => 0,
            GConfFlag::FastStandstill => 1,
            GConfFlag::EnPwmMode => 2,
            GConfFlag::MultistepFilt => 3,
            GConfFlag::Shaft => 4,
            GConfFlag::Diag0Error => 5,
            GConfFlag::Diag0Otpw => 6,
            GConfFlag::Diag0Stall => 7,
            GConfFlag::Diag1Stall => 8,
            GConfFlag::Diag1Index => 9,
            GConfFlag::Diag1Onstate => 10,
            GConfFlag::Diag1StepsSkipped => 11,
            GConfFlag::Diag0IntPushpull => 12,
            GConfFlag::Diag1Pushpull => 13,
            GConfFlag::SmallHysteresis => 14,
            GConfFlag::StopEnable => 15,
            GConfFlag::DirectMode => 16,
        }
    }

    /// The bit of the register that holds the flag.
    #[verifier::when_used_as_spec(spec_index)]
    pub fn index(self) -> (bit: u32)
        ensures
            bit == self.spec_index(),
            bit <= 16,
    {
        match self {
            GConfFlag::Recalibrate => 0,
            GConfFlag::FastStandstill => 1,
            GConfFlag::EnPwmMode => 2,
            GConfFlag::MultistepFilt => 3,
            GConfFlag::Shaft => 4,
            GConfFlag::Diag0Error => 5,
            GConfFlag::Diag0Otpw => 6,
            GConfFlag::Diag0Stall => 7,
            GConfFlag::Diag1Stall => 8,
            GConfFlag::Diag1Index => 9,
            GConfFlag::Diag1Onstate => 10,
            GConfFlag::Diag1StepsSkipped => 11,
            GConfFlag::Diag0IntPushpull => 12,
            GConfFlag::Diag1Pushpull => 13,
            GConfFlag::SmallHysteresis => 14,
            GConfFlag::StopEnable => 15,
            GConfFlag::DirectMode => 16,
        }
    }

    /// Where the flag lies in the register.
    pub open spec fn spec_layout(self) -> Field {
        Field::bit(self.index())
    }

    /// Where the flag lies in the register.
    #[verifier::when_used_as_spec(spec_layout)]
    pub fn layout(self) -> (f: Field)
        ensures
            f == self.spec_layout(),
            f.valid(),
    {
        Field::bit(self.index())
    }
}

/// The global configuration register (0x00).
#[derive(Clone, Copy, Debug, PartialEq, Eq)]
pub struct GConf(pub u32);

impl GConf {
    /// Whether `flag` is set.
    pub open spec fn spec_get(&self, flag: GConfFlag) -> bool {
        flag.layout().is_set(self.0)
    }

    /// The register with `flag` set to `on` and every other bit kept.
    pub open spec fn with(self, flag: GConfFlag, on: bool) -> GConf {
        GConf(flag.layout().assign(self.0, on))
    }

    /// Reads `flag`.
    #[verifier::when_used_as_spec(spec_get)]
    pub fn get(&self, flag: GConfFlag) -> (on: bool)
        ensures
            on == self.spec_get(flag),
    {
        flag.layout().test(self.0)
    }

    /// Sets `flag` to `on`.
    pub fn set(&mut self, flag: GConfFlag, on: bool)
        ensures
            *final(self) == old(self).with(flag, on),
    {
        self.0 = flag.layout().put(self.0, on);
    }

    /// Reads bit 0: zero-crossing recalibration during driver disable.
    pub fn recalibrate(&self) -> (on: bool)
        ensures
            on == self.get(GConfFlag::Recalibrate),
    {
        self.get(GConfFlag::Recalibrate)
    }

    /// Writes bit 0: zero-crossing recalibration during driver disable.
    pub fn set_recalibrate(&mut self, on: bool)
        ensures
            *final(self) == old(self).with(GConfFlag::Recalibrate, on),
    {
        self.set(GConfFlag::Recalibrate, on);
    }

    /// Reads bit 1: shortened timeout for standstill detection.
    pub fn faststandstill(&self) -> (on: bool)
        ensures
            on == self.get(GConfFlag::FastStandstill),
    {
        self.get(GConfFlag::FastStandstill)
    }

    /// Writes bit 1: shortened timeout for standstill detection.
    pub fn set_faststandstill(&mut self, on: bool)
        ensures
            *final(self) == old(self).with(GConfFlag::FastStandstill, on),
    {
        self.set(GConfFlag::FastStandstill, on);
    }

    /// Reads bit 2: the quiet PWM mode is enabled.
    pub fn en_pwm_mode(&self) -> (on: bool)
        ensures
            on == self.get(GConfFlag::EnPwmMode),
    {
        self.get(GConfFlag::EnPwmMode)
    }

    /// Writes bit 2: the quiet PWM mode is enabled.
    pub fn set_en_pwm_mode(&mut self, on: bool)
        ensures
            *final(self) == old(self).with(GConfFlag::EnPwmMode, on),
    {
        self.set(GConfFlag::EnPwmMode, on);
    }

    /// Reads bit 3: step input filtering is enabled.
    pub fn multistep_filt(&self) -> (on: bool)
        ensures
            on == self.get(GConfFlag::MultistepFilt),
    {
        self.get(GConfFlag::MultistepFilt)
    }

    /// Writes bit 3: step input filtering is enabled.
    pub fn set_multistep_filt(&mut self, on: bool)
        ensures
            *final(self) == old(self).with(GConfFlag::MultistepFilt, on),
    {
        self.set(GConfFlag::MultistepFilt, on);
    }

    /// Reads bit 4: the motor direction is inverted.
    pub fn shaft(&self) -> (on: bool)
        ensures
            on == self.get(GConfFlag::Shaft),
    {
        self.get(GConfFlag::Shaft)
    }

    /// Writes bit 4: the motor direction is inverted.
    pub fn set_shaft(&mut self, on: bool)
        ensures
            *final(self) == old(self).with(GConfFlag::Shaft, on),
    {
        self.set(GConfFlag::Shaft, on);
    }

    /// Reads bit 5: dIAG0 is active on driver errors.
    pub fn diag0_error(&self) -> (on: bool)
        ensures
            on == self.get(GConfFlag::Diag0Error),
    {
        self.get(GConfFlag::Diag0Error)
    }

    /// Writes bit 5: dIAG0 is active on driver errors.
    pub fn set_diag0_error(&mut self, on: bool)
        ensures
            *final(self) == old(self).with(GConfFlag::Diag0Error, on),
    {
        self.set(GConfFlag::Diag0Error, on);
    }

    /// Reads bit 6: dIAG0 is active on the overtemperature warning.
    pub fn diag0_otpw(&self) -> (on: bool)
        ensures
            on == self.get(GConfFlag::Diag0Otpw),
    {
        self.get(GConfFlag::Diag0Otpw)
    }

    /// Writes bit 6: dIAG0 is active on the overtemperature warning.
    pub fn set_diag0_otpw(&mut self, on: bool)
        ensures
            *final(self) == old(self).with(GConfFlag::Diag0Otpw, on),
    {
        self.set(GConfFlag::Diag0Otpw, on);
    }

    /// Reads bit 7: dIAG0 is active on a motor stall.
    pub fn diag0_stall(&self) -> (on: bool)
        ensures
            on == self.get(GConfFlag::Diag0Stall),
    {
        self.get(GConfFlag::Diag0Stall)
    }

    /// Writes bit 7: dIAG0 is active on a motor stall.
    pub fn set_diag0_stall(&mut self, on: bool)
        ensures
            *final(self) == old(self).with(GConfFlag::Diag0Stall, on),
    {
        self.set(GConfFlag::Diag0Stall, on);
    }

    /// Reads bit 8: dIAG1 is active on a motor stall.
    pub fn diag1_stall(&self) -> (on: bool)
        ensures
            on == self.get(GConfFlag::Diag1Stall),
    {
        self.get(GConfFlag::Diag1Stall)
    }

    /// Writes bit 8: dIAG1 is active on a motor stall.
    pub fn set_diag1_stall(&mut self, on: bool)
        ensures
            *final(self) == old(self).with(GConfFlag::Diag1Stall, on),
    {
        self.set(GConfFlag::Diag1Stall, on);
    }

    /// Reads bit 9: dIAG1 is active on the index position.
    pub fn diag1_index(&self) -> (on: bool)
        ensures
            on == self.get(GConfFlag::Diag1Index),
    {
        self.get(GConfFlag::Diag1Index)
    }

    /// Writes bit 9: dIAG1 is active on the index position.
    pub fn set_diag1_index(&mut self, on: bool)
        ensures
            *final(self) == old(self).with(GConfFlag::Diag1Index, on),
    {
        self.set(GConfFlag::Diag1Index, on);
    }

    /// Reads bit 10: dIAG1 is active while the chopper is on.
    pub fn diag1_onstate(&self) -> (on: bool)
        ensures
            on == self.get(GConfFlag::Diag1Onstate),
    {
        self.get(GConfFlag::Diag1Onstate)
    }

    /// Writes bit 10: dIAG1 is active while the chopper is on.
    pub fn set_diag1_onstate(&mut self, on: bool)
        ensures
            *final(self) == old(self).with(GConfFlag::Diag1Onstate, on),
    {
        self.set(GConfFlag::Diag1Onstate, on);
    }

    /// Reads bit 11: dIAG1 toggles on skipped steps.
    pub fn diag1_steps_skipped(&self) -> (on: bool)
        ensures
            on == self.get(GConfFlag::Diag1StepsSkipped),
    {
        self.get(GConfFlag::Diag1StepsSkipped)
    }

    /// Writes bit 11: dIAG1 toggles on skipped steps.
    pub fn set_diag1_steps_skipped(&mut self, on: bool)
        ensures
            *final(self) == old(self).with(GConfFlag::Diag1StepsSkipped, on),
    {
        self.set(GConfFlag::Diag1StepsSkipped, on);
    }

    /// Reads bit 12: dIAG0 is a push-pull output.
    pub fn diag0_int_pushpull(&self) -> (on: bool)
        ensures
            on == self.get(GConfFlag::Diag0IntPushpull),
    {
        self.get(GConfFlag::Diag0IntPushpull)
    }

    /// Writes bit 12: dIAG0 is a push-pull output.
    pub fn set_diag0_int_pushpull(&mut self, on: bool)
        ensures
            *final(self) == old(self).with(GConfFlag::Diag0IntPushpull, on),
    {
        self.set(GConfFlag::Diag0IntPushpull, on);
    }

    /// Reads bit 13: dIAG1 is a push-pull output.
    pub fn diag1_pushpull(&self) -> (on: bool)
        ensures
            on == self.get(GConfFlag::Diag1Pushpull),
    {
        self.get(GConfFlag::Diag1Pushpull)
    }

    /// Writes bit 13: dIAG1 is a push-pull output.
    pub fn set_diag1_pushpull(&mut self, on: bool)
        ensures
            *final(self) == old(self).with(GConfFlag::Diag1Pushpull, on),
    {
        self.set(GConfFlag::Diag1Pushpull, on);
    }

    /// Reads bit 14: the hysteresis for step frequency comparison is small.
    pub fn small_hysteresis(&self) -> (on: bool)
        ensures
            on == self.get(GConfFlag::SmallHysteresis),
    {
        self.get(GConfFlag::SmallHysteresis)
    }

    /// Writes bit 14: the hysteresis for step frequency comparison is small.
    pub fn set_small_hysteresis(&mut self, on: bool)
        ensures
            *final(self) == old(self).with(GConfFlag::SmallHysteresis, on),
    {
        self.set(GConfFlag::SmallHysteresis, on);
    }

    /// Reads bit 15: the emergency stop input is enabled.
    pub fn stop_enable(&self) -> (on: bool)
        ensures
            on == self.get(GConfFlag::StopEnable),
    {
        self.get(GConfFlag::StopEnable)
    }

    /// Writes bit 15: the emergency stop input is enabled.
    pub fn set_stop_enable(&mut self, on: bool)
        ensures
            *final(self) == old(self).with(GConfFlag::StopEnable, on),
    {
        self.set(GConfFlag::StopEnable, on);
    }

    /// Reads bit 16: the coil currents are set directly over the bus.
    pub fn direct_mode(&self) -> (on: bool)
        ensures
            on == self.get(GConfFlag::DirectMode),
    {
        self.get(GConfFlag::DirectMode)
    }

    /// Writes bit 16: the coil currents are set directly over the bus.
    pub fn set_direct_mode(&mut self, on: bool)
        ensures
            *final(self) == old(self).with(GConfFlag::DirectMode, on),
    {
        self.set(GConfFlag::DirectMode, on);
    }
}

/// Every flag of the register is a valid field, and no two flags share a bit.
pub proof fn gconf_flags_are_apart(a: GConfFlag, b: GConfFlag)
    ensures
        a.layout().valid(),
        a != b ==> a.layout().disjoint(b.layout()),
{
}

/// Writing one flag and reading any flag: the written flag reads as it was
/// written, every other flag as before.
pub proof fn gconf_set_then_get(reg: GConf, written: GConfFlag, on: bool, read: GConfFlag)
    ensures
        reg.with(written, on).get(read) == (if read == written {
            on
        } else {
            reg.get(read)
        }),
{
    if read == written {
        flag_round_trip(written.layout(), reg.0, on);
    } else {
        encode_keeps_disjoint_field(
            written.layout(),
            read.layout(),
            reg.0,
            if on { 1u32 } else { 0u32 },
        );
    }
}

} // verus!
