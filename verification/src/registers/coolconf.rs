//! The CoolStep and StallGuard configuration register.

use crate::bits::{encode_keeps_disjoint_field, truncation, Field};
use vstd::arithmetic::power2::pow2;
use vstd::prelude::*;

verus! {

/// The fields of [`CoolConf`].
#[derive(Clone, Copy, Debug, PartialEq, Eq)]
pub enum CoolConfField {
    /// The StallGuard threshold.
    SgThrs,
    /// The CoolStep threshold.
    CoolThrs,
}

impl CoolConfField {
    /// Where the field lies in the register.
    pub open spec fn spec_layout(self) -> Field {
        match self {
            CoolConfField::SgThrs => Field { offset: 0, width: 8 },
            CoolConfField::CoolThrs => Field { offset: 8, width: 8 },
        }
    }

    /// Where the field lies in the register.
    #[verifier::when_used_as_spec(spec_layout)]
    pub fn layout(self) -> (f: Field)
        ensures
            f == self.spec_layout(),
            f.valid(),
    {
        match self {
            CoolConfField::SgThrs => Field { offset: 0, width: 8 },
            CoolConfField::CoolThrs => Field { offset: 8, width: 8 },
        }
    }
}

/// The CoolStep and StallGuard configuration register (0x6D).
///
/// The chip cannot read this register back.
#[derive(Clone, Copy, Debug, PartialEq, Eq)]
pub struct CoolConf(pub u32);

impl CoolConf {
    /// The value that `field` holds.
    pub open spec fn spec_get(&self, field: CoolConfField) -> u32 {
        field.layout().decode(self.0)
    }

    /// The register with `field` replaced by the low bits of `value` and every
    /// other bit kept.
    pub open spec fn with(self, field: CoolConfField, value: u32) -> CoolConf {
        CoolConf(field.layout().encode(self.0, value))
    }

    /// Reads `field`.
    #[verifier::when_used_as_spec(spec_get)]
    pub fn get(&self, field: CoolConfField) -> (value: u32)
        ensures
            value == self.spec_get(field),
    {
        field.layout().get(self.0)
    }

    /// Writes `value` to `field`. A value wider than the field is cut down to
    /// the width of the field.
    pub fn set(&mut self, field: CoolConfField, value: u32)
        ensures
            *final(self) == old(self).with(field, value),
    {
        self.0 = field.layout().set(self.0, value);
    }

    /// Reads the StallGuard threshold, bits 0 to 7.
    pub fn sg_thrs(&self) -> (value: u32)
        ensures
            value == self.get(CoolConfField::SgThrs),
    {
        self.get(CoolConfField::SgThrs)
    }

    /// Writes the StallGuard threshold, bits 0 to 7.
    pub fn set_sg_thrs(&mut self, value: u32)
        ensures
            *final(self) == old(self).with(CoolConfField::SgThrs, value),
    {
        self.set(CoolConfField::SgThrs, value);
    }

    /// Reads the CoolStep threshold, bits 8 to 15.
    pub fn cool_thrs(&self) -> (value: u32)
        ensures
            value == self.get(CoolConfField::CoolThrs),
    {
        self.get(CoolConfField::CoolThrs)
    }

    /// Writes the CoolStep threshold, bits 8 to 15.
    pub fn set_cool_thrs(&mut self, value: u32)
        ensures
            *final(self) == old(self).with(CoolConfField::CoolThrs, value),
    {
        self.set(CoolConfField::CoolThrs, value);
    }
}

/// Every field of the register is valid, and no two of them overlap.
pub proof fn coolconf_fields_are_apart(a: CoolConfField, b: CoolConfField)
    ensures
        a.layout().valid(),
        a != b ==> a.layout().disjoint(b.layout()),
{
}

/// Writing one field and reading any field: the written field reads as the
/// value modulo two to the width of the field, every other field as before.
pub proof fn coolconf_set_then_get(
    reg: CoolConf,
    written: CoolConfField,
    value: u32,
    read: CoolConfField,
)
    ensures
        reg.with(written, value).get(read) == (if read == written {
            value as int % pow2(written.layout().width as nat) as int
        } else {
            reg.get(read) as int
        }),
{
    if read == written {
        truncation(written.layout(), reg.0, value);
    } else {
        encode_keeps_disjoint_field(written.layout(), read.layout(), reg.0, value);
    }
}

} // verus!
