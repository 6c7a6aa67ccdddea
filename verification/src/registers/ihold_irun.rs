//! The hold and run current register.

use crate::bits::{encode_keeps_disjoint_field, truncation, Field};
use vstd::arithmetic::power2::pow2;
use vstd::prelude::*;

verus! {

/// The fields of [`IHoldIrun`].
#[derive(Clone, Copy, Debug, PartialEq, Eq)]
pub enum IHoldIrunField {
    /// The standstill current, from 0 for 1/32 to 31 for 32/32 of the full
    /// scale.
    IHold,
    /// The run current, from 0 for 1/32 to 31 for 32/32 of the full scale.
    IRun,
    /// The delay of each step down to the standstill current, in units of 2^18
    /// clock cycles; 0 powers down at once.
    IHoldDelay,
}

impl IHoldIrunField {
    /// Where the field lies in the register.
    pub open spec fn spec_layout(self) -> Field {
        match self {
            IHoldIrunField::IHold => Field { offset: 0, width: 5 },
            IHoldIrunField::IRun => Field { offset: 8, width: 5 },
            IHoldIrunField::IHoldDelay => Field { offset: 16, width: 4 },
        }
    }

    /// Where the field lies in the register.
    #[verifier::when_used_as_spec(spec_layout)]
    pub fn layout(self) -> (f: Field)
        ensures
            f == self.spec_layout(),
            f.valid(),
    {
        match self {
            IHoldIrunField::IHold => Field { offset: 0, width: 5 },
            IHoldIrunField::IRun => Field { offset: 8, width: 5 },
            IHoldIrunField::IHoldDelay => Field { offset: 16, width: 4 },
        }
    }
}

/// The hold and run current register (0x10).
///
/// The chip cannot read this register back.
#[derive(Clone, Copy, Debug, PartialEq, Eq)]
pub struct IHoldIrun(pub u32);

impl IHoldIrun {
    /// The value that `field` holds.
    pub open spec fn spec_get(&self, field: IHoldIrunField) -> u32 {
        field.layout().decode(self.0)
    }

    /// The register with `field` replaced by the low bits of `value` and every
    /// other bit kept.
    pub open spec fn with(self, field: IHoldIrunField, value: u32) -> IHoldIrun {
        IHoldIrun(field.layout().encode(self.0, value))
    }

    /// Reads `field`.
    #[verifier::when_used_as_spec(spec_get)]
    pub fn get(&self, field: IHoldIrunField) -> (value: u32)
        ensures
            value == self.spec_get(field),
    {
        field.layout().get(self.0)
    }

    /// Writes `value` to `field`. A value wider than the field is cut down to
    /// the width of the field.
    pub fn set(&mut self, field: IHoldIrunField, value: u32)
        ensures
            *final(self) == old(self).with(field, value),
    {
        self.0 = field.layout().set(self.0, value);
    }

    /// Reads the standstill current, bits 0 to 4.
    pub fn ihold(&self) -> (value: u32)
        ensures
            value == self.get(IHoldIrunField::IHold),
    {
        self.get(IHoldIrunField::IHold)
    }

    /// Writes the standstill current, bits 0 to 4.
    pub fn set_ihold(&mut self, value: u32)
        ensures
            *final(self) == old(self).with(IHoldIrunField::IHold, value),
    {
        self.set(IHoldIrunField::IHold, value);
    }

    /// Reads the run current, bits 8 to 12.
    pub fn irun(&self) -> (value: u32)
        ensures
            value == self.get(IHoldIrunField::IRun),
    {
        self.get(IHoldIrunField::IRun)
    }

    /// Writes the run current, bits 8 to 12.
    pub fn set_irun(&mut self, value: u32)
        ensures
            *final(self) == old(self).with(IHoldIrunField::IRun, value),
    {
        self.set(IHoldIrunField::IRun, value);
    }

    /// Reads the hold delay, bits 16 to 19.
    pub fn iholddelay(&self) -> (value: u32)
        ensures
            value == self.get(IHoldIrunField::IHoldDelay),
    {
        self.get(IHoldIrunField::IHoldDelay)
    }

    /// Writes the hold delay, bits 16 to 19.
    pub fn set_iholddelay(&mut self, value: u32)
        ensures
            *final(self) == old(self).with(IHoldIrunField::IHoldDelay, value),
    {
        self.set(IHoldIrunField::IHoldDelay, value);
    }
}

/// Every field of the register is valid, and no two of them overlap.
pub proof fn ihold_irun_fields_are_apart(a: IHoldIrunField, b: IHoldIrunField)
    ensures
        a.layout().valid(),
        a != b ==> a.layout().disjoint(b.layout()),
{
}

/// Writing one field and reading any field: the written field reads as the
/// value modulo two to the width of the field, every other field as before.
pub proof fn ihold_irun_set_then_get(
    reg: IHoldIrun,
    written: IHoldIrunField,
    value: u32,
    read: IHoldIrunField,
)
    ensures
        reg.with(written, value).get(read) == (if read == written {
            value as int % pow2(written.layout().width as nat) as int
        } else {
            reg.get(read) as int
        }),
{
    if read == written {
        truncation(written.layout(), reg.0, value);
    } else {
        encode_keeps_disjoint_field(written.layout(), read.layout(), reg.0, value);
    }
}

} // verus!
