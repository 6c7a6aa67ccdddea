use tmc2160_driver::registers::{
    ChopConf, ChopConfField, CoolConf, CoolConfField, GConf, GConfFlag, IHoldIrun, IHoldIrunField,
    PwmConf, PwmConfField, Register,
};
use tmc2160_driver::Field;

const ADDRESSES: [(Register, u8); 29] = [
    (Register::GConf, 0x00),
    (Register::GStat, 0x01),
    (Register::IOIN, 0x04),
    (Register::OtpProg, 0x06),
    (Register::OtpRead, 0x07),
    (Register::FactoryConf, 0x08),
    (Register::ShortConf, 0x09),
    (Register::DrvConf, 0x0A),
    (Register::GlobalScaler, 0x0B),
    (Register::OffsetRead, 0x0C),
    (Register::IHoldIrun, 0x10),
    (Register::TPowerdown, 0x11),
    (Register::TStep, 0x12),
    (Register::TPwmThrs, 0x13),
    (Register::TCoolThrs, 0x14),
    (Register::THigh, 0x15),
    (Register::VdcMin, 0x33),
    (Register::MSLutSel, 0x68),
    (Register::MSLutStart, 0x69),
    (Register::MsCnt, 0x6A),
    (Register::MsCurAct, 0x6B),
    (Register::ChopConf, 0x6C),
    (Register::CoolConf, 0x6D),
    (Register::DcCtrl, 0x6E),
    (Register::DrvStatus, 0x6F),
    (Register::PwmConf, 0x70),
    (Register::PwmScale, 0x71),
    (Register::PwmAuto, 0x72),
    (Register::LostSteps, 0x73),
];

#[test]
fn register_addresses() {
    for (reg, address) in ADDRESSES {
        assert_eq!(reg.address(), address, "{:?}", reg);
    }
}

#[test]
fn register_addresses_fit_seven_bits_and_differ() {
    for (i, (a, _)) in ADDRESSES.iter().enumerate() {
        assert!(a.address() < 0x80);
        for (b, _) in &ADDRESSES[i + 1..] {
            assert_ne!(a.address(), b.address());
        }
    }
}

#[test]
fn ihold_irun_layout() {
    assert_eq!(IHoldIrunField::IHold.layout(), Field { offset: 0, width: 5 });
    assert_eq!(IHoldIrunField::IRun.layout(), Field { offset: 8, width: 5 });
    assert_eq!(IHoldIrunField::IHoldDelay.layout(), Field { offset: 16, width: 4 });
}

#[test]
fn ihold_irun_accessors() {
    let mut reg = IHoldIrun(0);
    reg.set_ihold(8);
    assert_eq!(reg.0, 0x0000_0008);
    reg.set_irun(16);
    assert_eq!(reg.0, 0x0000_1008);
    reg.set_iholddelay(4);
    assert_eq!(reg.0, 0x0004_1008);
    assert_eq!(reg.ihold(), 8);
    assert_eq!(reg.irun(), 16);
    assert_eq!(reg.iholddelay(), 4);
    assert_eq!(reg.get(IHoldIrunField::IRun), 16);
    reg.set(IHoldIrunField::IRun, 31);
    assert_eq!(reg.0, 0x0004_1F08);
}

#[test]
fn ihold_irun_fields_are_independent() {
    let mut reg = IHoldIrun(0xFFFF_FFFF);
    reg.set_irun(0);
    assert_eq!(reg.0, 0xFFFF_E0FF);
    assert_eq!(reg.ihold(), 31);
    assert_eq!(reg.iholddelay(), 15);
    reg.set_ihold(0);
    reg.set_iholddelay(0);
    assert_eq!(reg.0, 0xFFF0_E0E0);
}

#[test]
fn ihold_irun_cuts_wide_values() {
    let mut reg = IHoldIrun(0);
    reg.set_ihold(32);
    assert_eq!(reg.0, 0);
    reg.set_irun(0xFF);
    assert_eq!(reg.0, 0x0000_1F00);
    reg.set_iholddelay(0x17);
    assert_eq!(reg.iholddelay(), 7);
}

#[test]
fn chopconf_layout() {
    assert_eq!(ChopConfField::Toff.layout(), Field { offset: 0, width: 4 });
    assert_eq!(ChopConfField::Hstrt.layout(), Field { offset: 4, width: 3 });
    assert_eq!(ChopConfField::Hend.layout(), Field { offset: 7, width: 4 });
    assert_eq!(ChopConfField::Tbl.layout(), Field { offset: 11, width: 2 });
    assert_eq!(ChopConfField::Chm.layout(), Field { offset: 15, width: 1 });
    assert_eq!(ChopConfField::Mres.layout(), Field { offset: 24, width: 4 });
}

#[test]
fn chopconf_accessors() {
    let mut reg = ChopConf(0);
    reg.set_toff(5);
    assert_eq!(reg.0, 0x0000_0005);
    reg.set_hstrt(7);
    assert_eq!(reg.0, 0x0000_0075);
    reg.set_hend(15);
    assert_eq!(reg.0, 0x0000_07F5);
    reg.set_tbl(3);
    assert_eq!(reg.0, 0x0000_1FF5);
    reg.set_chm(1);
    assert_eq!(reg.0, 0x0000_9FF5);
    reg.set_mres(8);
    assert_eq!(reg.0, 0x0800_9FF5);
    assert_eq!(reg.toff(), 5);
    assert_eq!(reg.hstrt(), 7);
    assert_eq!(reg.hend(), 15);
    assert_eq!(reg.tbl(), 3);
    assert_eq!(reg.chm(), 1);
    assert_eq!(reg.mres(), 8);
}

#[test]
fn chopconf_keeps_reserved_bits() {
    let mut reg = ChopConf(0xFFFF_FFFF);
    reg.set_toff(0);
    reg.set_hstrt(0);
    reg.set_hend(0);
    reg.set_tbl(0);
    reg.set_chm(0);
    reg.set_mres(0);
    assert_eq!(reg.0, 0xF0FF_6000);
}

#[test]
fn coolconf_accessors() {
    assert_eq!(CoolConfField::SgThrs.layout(), Field { offset: 0, width: 8 });
    assert_eq!(CoolConfField::CoolThrs.layout(), Field { offset: 8, width: 8 });
    let mut reg = CoolConf(0xABCD_0000);
    reg.set_sg_thrs(0x12);
    reg.set_cool_thrs(0x34);
    assert_eq!(reg.0, 0xABCD_3412);
    assert_eq!(reg.sg_thrs(), 0x12);
    assert_eq!(reg.cool_thrs(), 0x34);
    reg.set_sg_thrs(0x1FF);
    assert_eq!(reg.0, 0xABCD_34FF);
}

#[test]
fn pwmconf_accessors() {
    assert_eq!(PwmConfField::PwmFreq.layout(), Field { offset: 0, width: 4 });
    let mut reg = PwmConf(0xFFFF_FFF0);
    reg.set_pwm_freq(9);
    assert_eq!(reg.0, 0xFFFF_FFF9);
    assert_eq!(reg.pwm_freq(), 9);
    reg.set_pwm_freq(0x10);
    assert_eq!(reg.0, 0xFFFF_FFF0);
}

#[test]
fn gconf_flag_bits() {
    let flags = [
        GConfFlag::Recalibrate,
        GConfFlag::FastStandstill,
        GConfFlag::EnPwmMode,
        GConfFlag::MultistepFilt,
        GConfFlag::Shaft,
        GConfFlag::Diag0Error,
        GConfFlag::Diag0Otpw,
        GConfFlag::Diag0Stall,
        GConfFlag::Diag1Stall,
        GConfFlag::Diag1Index,
        GConfFlag::Diag1Onstate,
        GConfFlag::Diag1StepsSkipped,
        GConfFlag::Diag0IntPushpull,
        GConfFlag::Diag1Pushpull,
        GConfFlag::SmallHysteresis,
        GConfFlag::StopEnable,
        GConfFlag::DirectMode,
    ];
    for (bit, flag) in flags.into_iter().enumerate() {
        assert_eq!(flag.index() as usize, bit);
        assert_eq!(flag.layout(), Field { offset: bit as u32, width: 1 });
        let mut reg = GConf(0);
        reg.set(flag, true);
        assert_eq!(reg.0, 1u32 << bit);
        assert!(reg.get(flag));
        let mut reg = GConf(0xFFFF_FFFF);
        reg.set(flag, false);
        assert_eq!(reg.0, !(1u32 << bit));
        assert!(!reg.get(flag));
    }
}

#[test]
fn gconf_named_accessors() {
    let mut reg = GConf(0);
    reg.set_recalibrate(true);
    assert_eq!(reg.0, 1 << 0);
    reg.set_faststandstill(true);
    assert_eq!(reg.0, 0b11);
    reg.set_en_pwm_mode(true);
    reg.set_multistep_filt(true);
    reg.set_shaft(true);
    assert_eq!(reg.0, 0b1_1111);
    reg.set_diag0_error(true);
    reg.set_diag0_otpw(true);
    reg.set_diag0_stall(true);
    assert_eq!(reg.0, 0xFF);
    reg.set_diag1_stall(true);
    reg.set_diag1_index(true);
    reg.set_diag1_onstate(true);
    reg.set_diag1_steps_skipped(true);
    assert_eq!(reg.0, 0xFFF);
    reg.set_diag0_int_pushpull(true);
    reg.set_diag1_pushpull(true);
    reg.set_small_hysteresis(true);
    reg.set_stop_enable(true);
    assert_eq!(reg.0, 0xFFFF);
    reg.set_direct_mode(true);
    assert_eq!(reg.0, 0x1_FFFF);
    assert!(reg.recalibrate() && reg.faststandstill() && reg.en_pwm_mode());
    assert!(reg.multistep_filt() && reg.shaft() && reg.diag0_error() && reg.diag0_otpw());
    assert!(reg.diag0_stall() && reg.diag1_stall() && reg.diag1_index() && reg.diag1_onstate());
    assert!(reg.diag1_steps_skipped() && reg.diag0_int_pushpull() && reg.diag1_pushpull());
    assert!(reg.small_hysteresis() && reg.stop_enable() && reg.direct_mode());
    reg.set_shaft(false);
    assert_eq!(reg.0, 0x1_FFEF);
    assert!(!reg.shaft());
    assert!(reg.multistep_filt() && reg.diag0_error());
}
