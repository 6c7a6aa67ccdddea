//! The chopper configuration register.

use crate::bits::{encode_keeps_disjoint_field, truncation, Field};
use vstd::arithmetic::power2::pow2;
use vstd::prelude::*;

verus! {

/// The fields of [`ChopConf`].
#[derive(Clone, Copy, Debug, PartialEq, Eq)]
pub enum ChopConfField {
    /// The off time of the chopper; 0 switches the driver off.
    Toff,
    /// The hysteresis start value.
    Hstrt,
    /// The hysteresis end value.
    Hend,
    /// The comparator blank time.
    Tbl,
    /// The chopper mode.
    Chm,
    /// The microstep resolution.
    Mres,
}

impl ChopConfField {
    /// Where the field lies in the register.
    pub open spec fn spec_layout(self) -> Field {
        match self {
            ChopConfField::Toff => Field { offset: 0, width: 4 },
            ChopConfField::Hstrt => Field { offset: 4, width: 3 },
            ChopConfField::Hend => Field { offset: 7, width: 4 },
            ChopConfField::Tbl => Field { offset: 11, width: 2 },
            ChopConfField::Chm => Field { offset: 15, width: 1 },
            ChopConfField::Mres => Field { offset: 24, width: 4 },
        }
    }

    /// Where the field lies in the register.
    #[verifier::when_used_as_spec(spec_layout)]
    pub fn layout(self) -> (f: Field)
        ensures
            f == self.spec_layout(),
            f.valid(),
    {
        match self {
            ChopConfField::Toff => Field { offset: 0, width: 4 },
            ChopConfField::Hstrt => Field { offset: 4, width: 3 },
            ChopConfField::Hend => Field { offset: 7, width: 4 },
            ChopConfField::Tbl => Field { offset: 11, width: 2 },
            ChopConfField::Chm => Field { offset: 15, width: 1 },
            ChopConfField::Mres => Field { offset: 24, width: 4 },
        }
    }
}

/// The chopper configuration register (0x6C).
#[derive(Clone, Copy, Debug, PartialEq, Eq)]
pub struct ChopConf(pub u32);

impl ChopConf {
    /// The value that `field` holds.
    pub open spec fn spec_get(&self, field: ChopConfField) -> u32 {
        field.layout().decode(self.0)
    }

    /// The register with `field` replaced by the low bits of `value` and every
    /// other bit kept.
    pub open spec fn with(self, field: ChopConfField, value: u32) -> ChopConf {
        ChopConf(field.layout().encode(self.0, value))
    }

    /// Reads `field`.
    #[verifier::when_used_as_spec(spec_get)]
    pub fn get(&self, field: ChopConfField) -> (value: u32)
        ensures
            value == self.spec_get(field),
    {
        field.layout().get(self.0)
    }

    /// Writes `value` to `field`. A value wider than the field is cut down to
    /// the width of the field.
    pub fn set(&mut self, field: ChopConfField, value: u32)
        ensures
            *final(self) == old(self).with(field, value),
    {
        self.0 = field.layout().set(self.0, value);
    }

    /// Reads the off time, bits 0 to 3.
    pub fn toff(&self) -> (value: u32)
        ensures
            value == self.get(ChopConfField::Toff),
    {
        self.get(ChopConfField::Toff)
    }

    /// Writes the off time, bits 0 to 3.
    pub fn set_toff(&mut self, value: u32)
        ensures
            *final(self) == old(self).with(ChopConfField::Toff, value),
    {
        self.set(ChopConfField::Toff, value);
    }

    /// Reads the hysteresis start value, bits 4 to 6.
    pub fn hstrt(&self) -> (value: u32)
        ensures
            value == self.get(ChopConfField::Hstrt),
    {
        self.get(ChopConfField::Hstrt)
    }

    /// Writes the hysteresis start value, bits 4 to 6.
    pub fn set_hstrt(&mut self, value: u32)
        ensures
            *final(self) == old(self).with(ChopConfField::Hstrt, value),
    {
        self.set(ChopConfField::Hstrt, value);
    }

    /// Reads the hysteresis end value, bits 7 to 10.
    pub fn hend(&self) -> (value: u32)
        ensures
            value == self.get(ChopConfField::Hend),
    {
        self.get(ChopConfField::Hend)
    }

    /// Writes the hysteresis end value, bits 7 to 10.
    pub fn set_hend(&mut self, value: u32)
        ensures
            *final(self) == old(self).with(ChopConfField::Hend, value),
    {
        self.set(ChopConfField::Hend, value);
    }

    /// Reads the blank time, bits 11 to 12.
    pub fn tbl(&self) -> (value: u32)
        ensures
            value == self.get(ChopConfField::Tbl),
    {
        self.get(ChopConfField::Tbl)
    }

    /// Writes the blank time, bits 11 to 12.
    pub fn set_tbl(&mut self, value: u32)
        ensures
            *final(self) == old(self).with(ChopConfField::Tbl, value),
    {
        self.set(ChopConfField::Tbl, value);
    }

    /// Reads the chopper mode, bit 15.
    pub fn chm(&self) -> (value: u32)
        ensures
            value == self.get(ChopConfField::Chm),
    {
        self.get(ChopConfField::Chm)
    }

    /// Writes the chopper mode, bit 15.
    pub fn set_chm(&mut self, value: u32)
        ensures
            *final(self) == old(self).with(ChopConfField::Chm, value),
    {
        self.set(ChopConfField::Chm, value);
    }

    /// Reads the microstep resolution, bits 24 to 27.
    pub fn mres(&self) -> (value: u32)
        ensures
            value == self.get(ChopConfField::Mres),
    {
        self.get(ChopConfField::Mres)
    }

    /// Writes the microstep resolution, bits 24 to 27.
    pub fn set_mres(&mut self, value: u32)
        ensures
            *final(self) == old(self).with(ChopConfField::Mres, value),
    {
        self.set(ChopConfField::Mres, value);
    }
}

/// Every field of the register is valid, and no two of them overlap.
pub proof fn chopconf_fields_are_apart(a: ChopConfField, b: ChopConfField)
    ensures
        a.layout().valid(),
        a != b ==> a.layout().disjoint(b.layout()),
{
}

/// Writing one field and reading any field: the written field reads as the
/// value modulo two to the width of the field, every other field as before.
pub proof fn chopconf_set_then_get(
    reg: ChopConf,
    written: ChopConfField,
    value: u32,
    read: ChopConfField,
)
    ensures
        reg.with(written, value).get(read) == (if read == written {
            value as int % pow2(written.layout().width as nat) as int
        } else {
            reg.get(read) as int
        }),
{
    if read == written {
        truncation(written.layout(), reg.0, value);
    } else {
        encode_keeps_disjoint_field(written.layout(), read.layout(), reg.0, value);
    }
}

} // verus!
