use tmc2160_driver::frame::Frame;
use tmc2160_driver::registers::Register;

#[test]
fn write_frame_exact_bytes() {
    let frame = Frame::write(Register::IHoldIrun, 0x0004_1008);
    assert_eq!(frame, Frame { header: 0x90, word: 0x0004_1008 });
    assert_eq!(frame.to_bytes(), [0x90, 0x00, 0x04, 0x10, 0x08]);
}

#[test]
fn write_frame_is_most_significant_byte_first() {
    let frame = Frame::write(Register::ChopConf, 0x1234_5678);
    assert_eq!(frame.to_bytes(), [0xEC, 0x12, 0x34, 0x56, 0x78]);
    let frame = Frame::write(Register::GConf, 0xFFFF_FFFF);
    assert_eq!(frame.to_bytes(), [0x80, 0xFF, 0xFF, 0xFF, 0xFF]);
    let frame = Frame::write(Register::LostSteps, 0);
    assert_eq!(frame.to_bytes(), [0xF3, 0x00, 0x00, 0x00, 0x00]);
}

#[test]
fn read_frame_exact_bytes() {
    let frame = Frame::read(Register::ChopConf);
    assert_eq!(frame, Frame { header: 0x6C, word: 0 });
    assert_eq!(frame.to_bytes(), [0x6C, 0x00, 0x00, 0x00, 0x00]);
    assert_eq!(Frame::read(Register::GConf).to_bytes(), [0x00, 0x00, 0x00, 0x00, 0x00]);
    assert_eq!(Frame::read(Register::DrvStatus).to_bytes(), [0x6F, 0x00, 0x00, 0x00, 0x00]);
}

#[test]
fn direction_bit_tells_write_from_read() {
    let registers = [
        Register::GConf,
        Register::GStat,
        Register::IHoldIrun,
        Register::VdcMin,
        Register::ChopConf,
        Register::LostSteps,
    ];
    for reg in registers {
        let write = Frame::write(reg, 0xDEAD_BEEF);
        let read = Frame::read(reg);
        assert_eq!(write.header & 0x80, 0x80);
        assert_eq!(read.header & 0x80, 0x00);
        assert_eq!(write.header & 0x7F, reg.address());
        assert_eq!(read.header & 0x7F, reg.address());
    }
}

#[test]
fn response_word_is_big_endian() {
    let frame = Frame::from_bytes([0xAA, 0x12, 0x34, 0x56, 0x78]);
    assert_eq!(frame.header, 0xAA);
    assert_eq!(frame.word, 0x1234_5678);
    let frame = Frame::from_bytes([0x00, 0x00, 0x00, 0xC0, 0x00]);
    assert_eq!(frame.word, 0x0000_C000);
    let frame = Frame::from_bytes([0xFF, 0xFF, 0xFF, 0xFF, 0xFF]);
    assert_eq!(frame.word, 0xFFFF_FFFF);
    let frame = Frame::from_bytes([0x01, 0x80, 0x00, 0x00, 0x01]);
    assert_eq!(frame.word, 0x8000_0001);
}

#[test]
fn bytes_and_frames_round_trip() {
    let samples = [
        [0u8, 0, 0, 0, 0],
        [0x90, 0x00, 0x04, 0x10, 0x08],
        [0xFF, 0xFF, 0xFF, 0xFF, 0xFF],
        [0x01, 0x02, 0x03, 0x04, 0x05],
        [0x7F, 0x80, 0x00, 0x00, 0x01],
    ];
    for bytes in samples {
        assert_eq!(Frame::from_bytes(bytes).to_bytes(), bytes);
    }
    for word in [0u32, 1, 0xFF, 0x100, 0xFFFF, 0x1_0000, 0x00FF_FFFF, 0x0100_0000, 0xFFFF_FFFF] {
        for header in [0u8, 0x10, 0x80, 0xFF] {
            let frame = Frame { header, word };
            assert_eq!(Frame::from_bytes(frame.to_bytes()), frame);
        }
    }
}
