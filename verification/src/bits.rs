//! Bitfield codec: packing and unpacking of named sub-ranges of a 32-bit register value.

use vstd::arithmetic::power2::pow2;
use vstd::prelude::*;

verus! {

/// A contiguous range of bits within a 32-bit register value.
#[derive(Clone, Copy, Debug, PartialEq, Eq)]
pub struct Field {
    /// Position of the least significant bit of the field.
    pub offset: u32,
    /// Number of bits in the field.
    pub width: u32,
}

impl Field {
    /// The field that is the single bit `index`.
    pub open spec fn spec_bit(index: u32) -> Field {
        Field { offset: index, width: 1 }
    }

    /// The field that is the single bit `index`.
    #[verifier::when_used_as_spec(spec_bit)]
    pub fn bit(index: u32) -> (f: Field)
        ensures
            f == Field::spec_bit(index),
    {
        Field { offset: index, width: 1 }
    }

    /// A field holds at least one bit and lies within the 32 bits of a register.
    pub open spec fn valid(self) -> bool {
        1 <= self.width && self.offset + self.width <= 32
    }

    /// The `width` lowest bits set, before they are moved to `offset`.
    pub open spec fn low_mask(self) -> u32 {
        !(u32::MAX << self.width)
    }

    /// The bits that belong to the field.
    pub open spec fn mask(self) -> u32 {
        self.low_mask() << self.offset
    }

    /// The value that the field holds in `raw`.
    pub open spec fn decode(self, raw: u32) -> u32 {
        (raw >> self.offset) & self.low_mask()
    }

    /// `raw` with the field replaced by the low `width` bits of `value`
    /// and every bit outside the field kept.
    pub open spec fn encode(self, raw: u32, value: u32) -> u32 {
        (raw & !self.mask()) | ((value << self.offset) & self.mask())
    }

    /// Whether the field, read as a flag, is set in `raw`.
    pub open spec fn is_set(self, raw: u32) -> bool {
        self.decode(raw) != 0
    }

    /// `raw` with the field, written as a flag, set to `on`.
    pub open spec fn assign(self, raw: u32, on: bool) -> u32 {
        self.encode(raw, if on { 1u32 } else { 0u32 })
    }

    /// Two fields are disjoint when no bit belongs to both.
    pub open spec fn disjoint(self, other: Field) -> bool {
        self.offset + self.width <= other.offset || other.offset + other.width <= self.offset
    }

    fn low_bits(self) -> (m: u32)
        requires
            self.valid(),
        ensures
            m == self.low_mask(),
    {
        let width: u32 = self.width;
        if width >= 32 {
            assert(!(u32::MAX << width) == u32::MAX) by (bit_vector)
                requires
                    width == 32,
            ;
            u32::MAX
        } else {
            assert((1u32 << width) >= 1 && ((1u32 << width) - 1) as u32 == !(u32::MAX << width))
                by (bit_vector)
                requires
                    width < 32,
            ;
            (1u32 << width) - 1
        }
    }

    /// Reads the field out of `raw`.
    pub fn get(self, raw: u32) -> (value: u32)
        requires
            self.valid(),
        ensures
            value == self.decode(raw),
    {
        (raw >> self.offset) & self.low_bits()
    }

    /// Writes `value` into the field of `raw`. A value wider than the field is
    /// cut down to its low `width` bits.
    pub fn set(self, raw: u32, value: u32) -> (updated: u32)
        requires
            self.valid(),
        ensures
            updated == self.encode(raw, value),
    {
        let mask: u32 = self.low_bits() << self.offset;
        (raw & !mask) | ((value << self.offset) & mask)
    }

    /// Reads the field as a flag: any bit set in it counts as `true`.
    pub fn test(self, raw: u32) -> (on: bool)
        requires
            self.valid(),
        ensures
            on == self.is_set(raw),
    {
        self.get(raw) != 0
    }

    /// Writes the field as a flag: 1 for `true`, 0 for `false`.
    pub fn put(self, raw: u32, on: bool) -> (updated: u32)
        requires
            self.valid(),
        ensures
            updated == self.assign(raw, on),
    {
        self.set(raw, if on { 1 } else { 0 })
    }
}

/// Round trip: a value that fits in the field is read back as it was written.
pub proof fn round_trip(f: Field, raw: u32, value: u32)
    requires
        f.valid(),
        value <= f.low_mask(),
    ensures
        f.decode(f.encode(raw, value)) == value,
{
    let o: u32 = f.offset;
    let w: u32 = f.width;
    assert(((((raw & !(!(u32::MAX << w) << o)) | ((value << o) & (!(u32::MAX << w) << o))) >> o)
        & !(u32::MAX << w)) == value) by (bit_vector)
        requires
            1 <= w,
            o + w <= 32,
            value <= !(u32::MAX << w),
    ;
}

/// What is read from a field fits in the field.
pub proof fn decode_fits(f: Field, raw: u32)
    requires
        f.valid(),
    ensures
        f.decode(raw) <= f.low_mask(),
        f.decode(raw) < pow2(f.width as nat),
{
    let o: u32 = f.offset;
    let w: u32 = f.width;
    assert(((raw >> o) & !(u32::MAX << w)) <= !(u32::MAX << w)) by (bit_vector);
    low_mask_is_pow2_minus_one(f);
}

/// A flag is read back as it was written.
pub proof fn flag_round_trip(f: Field, raw: u32, on: bool)
    requires
        f.valid(),
    ensures
        f.is_set(f.assign(raw, on)) == on,
{
    let w: u32 = f.width;
    assert(1u32 <= !(u32::MAX << w)) by (bit_vector)
        requires
            1 <= w,
    ;
    round_trip(f, raw, if on { 1u32 } else { 0u32 });
}

/// The largest value that fits in a field of `width` bits is `2^width - 1`.
pub proof fn low_mask_is_pow2_minus_one(f: Field)
    requires
        f.valid(),
    ensures
        f.low_mask() == pow2(f.width as nat) - 1,
{
    let w: u32 = f.width;
    if w == 32 {
        assert(!(u32::MAX << w) == 0xffff_ffffu32) by (bit_vector)
            requires
                w == 32,
        ;
        vstd::arithmetic::power2::lemma2_to64();
    } else {
        assert(!(u32::MAX << w) == ((1u32 << w) - 1) as u32 && (1u32 << w) >= 1) by (bit_vector)
            requires
                w < 32,
        ;
        vstd::bits::lemma_u32_pow2_no_overflow(w as nat);
        vstd::bits::lemma_u32_shl_is_mul(1u32, w);
    }
}

/// Truncation: writing any value and reading the field back gives the value
/// modulo `2^width`.
pub proof fn truncation(f: Field, raw: u32, value: u32)
    requires
        f.valid(),
    ensures
        f.decode(f.encode(raw, value)) == value as int % pow2(f.width as nat) as int,
{
    let o: u32 = f.offset;
    let w: u32 = f.width;
    assert(((((raw & !(!(u32::MAX << w) << o)) | ((value << o) & (!(u32::MAX << w) << o))) >> o)
        & !(u32::MAX << w)) == value & !(u32::MAX << w)) by (bit_vector)
        requires
            1 <= w,
            o + w <= 32,
    ;
    low_mask_is_pow2_minus_one(f);
    if w == 32 {
        assert(value & 0xffff_ffffu32 == value) by (bit_vector);
        vstd::arithmetic::power2::lemma2_to64();
    } else {
        vstd::bits::lemma_u32_pow2_no_overflow(w as nat);
        vstd::bits::lemma_u32_low_bits_mask_is_mod(value, w as nat);
    }
}

/// Writing a field changes no bit outside the field.
pub proof fn encode_keeps_outside_bits(f: Field, raw: u32, value: u32)
    requires
        f.valid(),
    ensures
        f.encode(raw, value) & !f.mask() == raw & !f.mask(),
{
    let o: u32 = f.offset;
    let w: u32 = f.width;
    assert(((raw & !(!(u32::MAX << w) << o)) | ((value << o) & (!(u32::MAX << w) << o))) & !(!(
        u32::MAX << w) << o) == raw & !(!(u32::MAX << w) << o)) by (bit_vector);
}

/// Writing one field leaves every field disjoint from it as it was.
pub proof fn encode_keeps_disjoint_field(f: Field, g: Field, raw: u32, value: u32)
    requires
        f.valid(),
        g.valid(),
        f.disjoint(g),
    ensures
        g.decode(f.encode(raw, value)) == g.decode(raw),
{
    let o: u32 = f.offset;
    let w: u32 = f.width;
    let p: u32 = g.offset;
    let q: u32 = g.width;
    assert((((raw & !(!(u32::MAX << w) << o)) | ((value << o) & (!(u32::MAX << w) << o))) >> p)
        & !(u32::MAX << q) == (raw >> p) & !(u32::MAX << q)) by (bit_vector)
        requires
            1 <= w,
            o + w <= 32,
            1 <= q,
            p + q <= 32,
            o + w <= p || p + q <= o,
    ;
}

/// Writing back what a field holds changes nothing.
pub proof fn encode_of_decode(f: Field, raw: u32)
    requires
        f.valid(),
    ensures
        f.encode(raw, f.decode(raw)) == raw,
{
    let o: u32 = f.offset;
    let w: u32 = f.width;
    assert(((raw & !(!(u32::MAX << w) << o)) | ((((raw >> o) & !(u32::MAX << w)) << o) & (!(
        u32::MAX << w) << o))) == raw) by (bit_vector)
        requires
            1 <= w,
            o + w <= 32,
    ;
}

/// Of two writes to one field only the second one shows.
pub proof fn encode_overwrites(f: Field, raw: u32, first: u32, second: u32)
    requires
        f.valid(),
    ensures
        f.encode(f.encode(raw, first), second) == f.encode(raw, second),
{
    let o: u32 = f.offset;
    let w: u32 = f.width;
    let m: u32 = !(u32::MAX << w) << o;
    assert(((((raw & !m) | ((first << o) & m)) & !m) | ((second << o) & m)) == ((raw & !m) | ((
        second << o) & m))) by (bit_vector);
}

} // verus!
