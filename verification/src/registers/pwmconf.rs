//! The PWM configuration register.

use crate::bits::{encode_keeps_disjoint_field, truncation, Field};
use vstd::arithmetic::power2::pow2;
use vstd::prelude::*;

verus! {

/// The fields of [`PwmConf`].
#[derive(Clone, Copy, Debug, PartialEq, Eq)]
pub enum PwmConfField {
    /// The PWM frequency setting.
    PwmFreq,
}

impl PwmConfField {
    /// Where the field lies in the register.
    pub open spec fn spec_layout(self) -> Field {
        match self {
            PwmConfField::PwmFreq => Field { offset: 0, width: 4 },
        }
    }

    /// Where the field lies in the register.
    #[verifier::when_used_as_spec(spec_layout)]
    pub fn layout(self) -> (f: Field)
        ensures
            f == self.spec_layout(),
            f.valid(),
    {
        match self {
            PwmConfField::PwmFreq => Field { offset: 0, width: 4 },
        }
    }
}

/// The PWM configuration register (0x70).
///
/// The chip cannot read this register back.
#[derive(Clone, Copy, Debug, PartialEq, Eq)]
pub struct PwmConf(pub u32);

impl PwmConf {
    /// The value that `field` holds.
    pub open spec fn spec_get(&self, field: PwmConfField) -> u32 {
        field.layout().decode(self.0)
    }

    /// The register with `field` replaced by the low bits of `value` and every
    /// other bit kept.
    pub open spec fn with(self, field: PwmConfField, value: u32) -> PwmConf {
        PwmConf(field.layout().encode(self.0, value))
    }

    /// Reads `field`.
    #[verifier::when_used_as_spec(spec_get)]
    pub fn get(&self, field: PwmConfField) -> (value: u32)
        ensures
            value == self.spec_get(field),
    {
        field.layout().get(self.0)
    }

    /// Writes `value` to `field`. A value wider than the field is cut down to
    /// the width of the field.
    pub fn set(&mut self, field: PwmConfField, value: u32)
        ensures
            *final(self) == old(self).with(field, value),
    {
        self.0 = field.layout().set(self.0, value);
    }

    /// Reads the PWM frequency setting, bits 0 to 3.
    pub fn pwm_freq(&self) -> (value: u32)
        ensures
            value == self.get(PwmConfField::PwmFreq),
    {
        self.get(PwmConfField::PwmFreq)
    }

    /// Writes the PWM frequency setting, bits 0 to 3.
    pub fn set_pwm_freq(&mut self, value: u32)
        ensures
            *final(self) == old(self).with(PwmConfField::PwmFreq, value),
    {
        self.set(PwmConfField::PwmFreq, value);
    }
}

/// Every field of the register is valid, and no two of them overlap.
pub proof fn pwmconf_fields_are_apart(a: PwmConfField, b: PwmConfField)
    ensures
        a.layout().valid(),
        a != b ==> a.layout().disjoint(b.layout()),
{
}

/// Writing one field and reading any field: the written field reads as the
/// value modulo two to the width of the field, every other field as before.
pub proof fn pwmconf_set_then_get(
    reg: PwmConf,
    written: PwmConfField,
    value: u32,
    read: PwmConfField,
)
    ensures
        reg.with(written, value).get(read) == (if read == written {
            value as int % pow2(written.layout().width as nat) as int
        } else {
            reg.get(read) as int
        }),
{
    if read == written {
        truncation(written.layout(), reg.0, value);
    } else {
        encode_keeps_disjoint_field(written.layout(), read.layout(), reg.0, value);
    }
}

} // verus!
