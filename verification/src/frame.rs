//! Bus framing: the 40-bit frame of one register access.

use crate::registers::Register;
use vstd::prelude::*;

verus! {

/// One frame on the bus: five bytes, a header byte and a 32-bit word.
///
/// In a request the header holds the direction in its top bit, 1 for a write
/// and 0 for a read, and the register address in the seven bits below. In a
/// response the header is the chip's status byte, which the driver does not
/// interpret. The word is the register value; the word of a read request is a
/// placeholder that the chip ignores.
#[derive(Clone, Copy, Debug, PartialEq, Eq)]
pub struct Frame {
    /// Byte 0 of the frame.
    pub header: u8,
    /// Bytes 1 to 4 of the frame, most significant byte first.
    pub word: u32,
}

impl Frame {
    /// The request that writes `value` to `reg`.
    pub open spec fn spec_write(reg: Register, value: u32) -> Frame {
        Frame { header: (reg.address() + 0x80) as u8, word: value }
    }

    /// The request that reads `reg`.
    pub open spec fn spec_read(reg: Register) -> Frame {
        Frame { header: reg.address(), word: 0 }
    }

    /// The five bytes of the frame in the order in which they go over the bus.
    pub open spec fn wire(self) -> Seq<u8> {
        seq![
            self.header,
            (self.word / 0x100_0000) as u8,
            (self.word / 0x1_0000 % 0x100) as u8,
            (self.word / 0x100 % 0x100) as u8,
            (self.word % 0x100) as u8,
        ]
    }

    /// The request that writes `value` to `reg`.
    #[verifier::when_used_as_spec(spec_write)]
    pub fn write(reg: Register, value: u32) -> (frame: Frame)
        ensures
            frame == Frame::spec_write(reg, value),
    {
        let address: u8 = reg.address();
        assert(address | 0x80 == address + 0x80) by (bit_vector)
            requires
                address < 0x80,
        ;
        Frame { header: address | 0x80, word: value }
    }

    /// The request that reads `reg`.
    #[verifier::when_used_as_spec(spec_read)]
    pub fn read(reg: Register) -> (frame: Frame)
        ensures
            frame == Frame::spec_read(reg),
    {
        Frame { header: reg.address(), word: 0 }
    }

    /// The five bytes of the frame in the order in which they go over the bus.
    pub fn to_bytes(self) -> (bytes: [u8; 5])
        ensures
            bytes@ == self.wire(),
    {
        let word: u32 = self.word;
        assert((word >> 24) == word / 0x100_0000 && (word >> 24) < 0x100) by (bit_vector);
        assert(((word >> 16) & 0xff) == word / 0x1_0000 % 0x100 && ((word >> 16) & 0xff) < 0x100)
            by (bit_vector);
        assert(((word >> 8) & 0xff) == word / 0x100 % 0x100 && ((word >> 8) & 0xff) < 0x100)
            by (bit_vector);
        assert((word & 0xff) == word % 0x100 && (word & 0xff) < 0x100) by (bit_vector);
        let bytes: [u8; 5] = [
            self.header,
            (word >> 24) as u8,
            ((word >> 16) & 0xff) as u8,
            ((word >> 8) & 0xff) as u8,
            (word & 0xff) as u8,
        ];
        assert(bytes@ =~= self.wire());
        bytes
    }

    /// The frame that `bytes` hold.
    pub fn from_bytes(bytes: [u8; 5]) -> (frame: Frame)
        ensures
            frame.wire() == bytes@,
            frame.header == bytes[0],
            frame.word == bytes[1] * 0x100_0000 + bytes[2] * 0x1_0000 + bytes[3] * 0x100 + bytes[4],
    {
        let b1: u8 = bytes[1];
        let b2: u8 = bytes[2];
        let b3: u8 = bytes[3];
        let b4: u8 = bytes[4];
        let word: u32 = ((b1 as u32) << 24) | ((b2 as u32) << 16) | ((b3 as u32) << 8) | (
        b4 as u32);
        assert(word == b1 * 0x100_0000 + b2 * 0x1_0000 + b3 * 0x100 + b4) by (bit_vector)
            requires
                word == ((b1 as u32) << 24) | ((b2 as u32) << 16) | ((b3 as u32) << 8) | (
                b4 as u32),
        ;
        assert(word / 0x100_0000 == b1 && word / 0x1_0000 % 0x100 == b2 && word / 0x100 % 0x100
            == b3 && word % 0x100 == b4) by (bit_vector)
            requires
                word == ((b1 as u32) << 24) | ((b2 as u32) << 16) | ((b3 as u32) << 8) | (
                b4 as u32),
        ;
        let frame = Frame { header: bytes[0], word };
        assert(frame.wire() =~= bytes@);
        frame
    }
}

/// A request tells its direction and its register: the header of a write is
/// the address with the top bit set, the header of a read is the address alone,
/// and an address never reaches the top bit.
pub proof fn request_header(reg: Register, value: u32)
    ensures
        reg.address() < 0x80,
        Frame::write(reg, value).header == reg.address() + 0x80,
        Frame::write(reg, value).word == value,
        Frame::read(reg).header == reg.address(),
        Frame::read(reg).header < 0x80 <= Frame::write(reg, value).header,
{
}

/// The bytes on the bus determine the frame: two frames with the same five
/// bytes are the same frame.
pub proof fn wire_determines_frame(f: Frame, g: Frame)
    requires
        f.wire() == g.wire(),
    ensures
        f == g,
{
    let a: u32 = f.word;
    let b: u32 = g.word;
    assert(a / 0x100_0000 < 0x100 && a / 0x1_0000 % 0x100 < 0x100 && a / 0x100 % 0x100 < 0x100 && a
        % 0x100 < 0x100) by (bit_vector);
    assert(b / 0x100_0000 < 0x100 && b / 0x1_0000 % 0x100 < 0x100 && b / 0x100 % 0x100 < 0x100 && b
        % 0x100 < 0x100) by (bit_vector);
    assert(f.wire()[0] == g.wire()[0]);
    assert(f.wire()[1] == g.wire()[1]);
    assert(f.wire()[2] == g.wire()[2]);
    assert(f.wire()[3] == g.wire()[3]);
    assert(f.wire()[4] == g.wire()[4]);
    assert(a == b) by (bit_vector)
        requires
            a / 0x100_0000 == b / 0x100_0000,
            a / 0x1_0000 % 0x100 == b / 0x1_0000 % 0x100,
            a / 0x100 % 0x100 == b / 0x100 % 0x100,
            a % 0x100 == b % 0x100,
    ;
}

/// The word of a frame is its bytes 1 to 4 read as a big-endian number.
pub proof fn word_is_big_endian(f: Frame)
    ensures
        f.wire().len() == 5,
        f.wire()[0] == f.header,
        f.word == f.wire()[1] * 0x100_0000 + f.wire()[2] * 0x1_0000 + f.wire()[3] * 0x100
            + f.wire()[4],
{
    let a: u32 = f.word;
    assert(a / 0x100_0000 < 0x100 && a / 0x1_0000 % 0x100 < 0x100 && a / 0x100 % 0x100 < 0x100 && a
        % 0x100 < 0x100) by (bit_vector);
    assert(a == (a / 0x100_0000) * 0x100_0000 + (a / 0x1_0000 % 0x100) * 0x1_0000 + (a / 0x100
        % 0x100) * 0x100 + a % 0x100) by (bit_vector);
}

} // verus!
