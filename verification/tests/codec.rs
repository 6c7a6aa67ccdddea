use bitfield::{Bit, BitMut, BitRange, BitRangeMut};
use tmc2160_driver::bits::Field;
use tmc2160_driver::registers::{
    ChopConfField, CoolConfField, GConfFlag, IHoldIrunField, PwmConfField,
};

const PATTERNS: [u32; 6] = [
    0x0000_0000,
    0xFFFF_FFFF,
    0xA5A5_A5A5,
    0x5A5A_5A5A,
    0x8000_0001,
    0x1234_5678,
];

fn all_layouts() -> Vec<Field> {
    let mut layouts = vec![
        IHoldIrunField::IHold.layout(),
        IHoldIrunField::IRun.layout(),
        IHoldIrunField::IHoldDelay.layout(),
        ChopConfField::Toff.layout(),
        ChopConfField::Hstrt.layout(),
        ChopConfField::Hend.layout(),
        ChopConfField::Tbl.layout(),
        ChopConfField::Chm.layout(),
        ChopConfField::Mres.layout(),
        CoolConfField::SgThrs.layout(),
        CoolConfField::CoolThrs.layout(),
        PwmConfField::PwmFreq.layout(),
    ];
    for flag in all_flags() {
        layouts.push(flag.layout());
    }
    layouts
}

fn all_flags() -> [GConfFlag; 17] {
    [
        GConfFlag::Recalibrate,
        GConfFlag::FastStandstill,
        GConfFlag::EnPwmMode,
        GConfFlag::MultistepFilt,
        GConfFlag::Shaft,
        GConfFlag::Diag0Error,
        GConfFlag::Diag0Otpw,
        GConfFlag::Diag0Stall,
        GConfFlag::Diag1Stall,
        GConfFlag::Diag1Index,
        GConfFlag::Diag1Onstate,
        GConfFlag::Diag1StepsSkipped,
        GConfFlag::Diag0IntPushpull,
        GConfFlag::Diag1Pushpull,
        GConfFlag::SmallHysteresis,
        GConfFlag::StopEnable,
        GConfFlag::DirectMode,
    ]
}

fn max_of(field: Field) -> u32 {
    if field.width == 32 {
        u32::MAX
    } else {
        (1u32 << field.width) - 1
    }
}

fn mask_of(field: Field) -> u32 {
    max_of(field) << field.offset
}

#[test]
fn every_field_round_trips_at_min_mid_max() {
    for field in all_layouts() {
        let max = max_of(field);
        for value in [0, max / 2, max] {
            for raw in PATTERNS {
                let written = field.set(raw, value);
                assert_eq!(field.get(written), value, "{:?} in {:#x}", field, raw);
            }
        }
    }
}

#[test]
fn wide_value_is_cut_to_the_field_width() {
    for field in all_layouts() {
        let modulus = 1u64 << field.width;
        for value in [max_of(field) + 1, 0xFFFF_FFFF, 0x1234_5678, 0x8000_0000] {
            for raw in PATTERNS {
                let written = field.set(raw, value);
                assert_eq!(u64::from(field.get(written)), u64::from(value) % modulus);
            }
        }
    }
}

#[test]
fn truncation_exact_values() {
    let irun = Field { offset: 8, width: 5 };
    assert_eq!(irun.set(0, 32), 0);
    assert_eq!(irun.set(0, 33), 0x0000_0100);
    assert_eq!(irun.get(irun.set(0, 0xFF)), 31);
    let delay = Field { offset: 16, width: 4 };
    assert_eq!(delay.set(0, 0x1F), 0x000F_0000);
    assert_eq!(delay.get(delay.set(0xFFFF_FFFF, 0x10)), 0);
}

#[test]
fn set_changes_no_bit_outside_the_field() {
    for field in all_layouts() {
        let outside = !mask_of(field);
        for value in [0, 1, max_of(field), 0xFFFF_FFFF] {
            for raw in PATTERNS {
                assert_eq!(field.set(raw, value) & outside, raw & outside);
            }
        }
    }
}

#[test]
fn set_and_get_exact_values() {
    let irun = Field { offset: 8, width: 5 };
    assert_eq!(irun.set(0, 16), 0x0000_1000);
    assert_eq!(irun.set(0xFFFF_FFFF, 0), 0xFFFF_E0FF);
    assert_eq!(irun.get(0x0004_1008), 16);
    let ihold = Field { offset: 0, width: 5 };
    assert_eq!(ihold.get(0x0004_1008), 8);
    let delay = Field { offset: 16, width: 4 };
    assert_eq!(delay.get(0x0004_1008), 4);
    let mres = Field { offset: 24, width: 4 };
    assert_eq!(mres.set(0x1000_0053, 8), 0x1800_0053);
    assert_eq!(mres.get(0x1800_0053), 8);
}

#[test]
fn whole_word_field() {
    let whole = Field { offset: 0, width: 32 };
    for raw in PATTERNS {
        assert_eq!(whole.get(raw), raw);
        for value in PATTERNS {
            assert_eq!(whole.set(raw, value), value);
        }
    }
}

#[test]
fn top_bit_field() {
    let top = Field { offset: 31, width: 1 };
    assert_eq!(top.set(0, 1), 0x8000_0000);
    assert_eq!(top.set(0xFFFF_FFFF, 0), 0x7FFF_FFFF);
    assert_eq!(top.get(0x8000_0000), 1);
    assert_eq!(top.get(0x7FFF_FFFF), 0);
    assert_eq!(top.set(0, 2), 0);
}

#[test]
fn writing_back_what_was_read_changes_nothing() {
    for field in all_layouts() {
        for raw in PATTERNS {
            assert_eq!(field.set(raw, field.get(raw)), raw);
        }
    }
}

#[test]
fn second_write_hides_the_first() {
    for field in all_layouts() {
        for raw in PATTERNS {
            let twice = field.set(field.set(raw, 0x5555_5555), 0xAAAA_AAAA);
            assert_eq!(twice, field.set(raw, 0xAAAA_AAAA));
        }
    }
}

#[test]
fn flag_reads_back_as_written() {
    for flag in all_flags() {
        let field = flag.layout();
        for raw in PATTERNS {
            assert!(field.test(field.put(raw, true)));
            assert!(!field.test(field.put(raw, false)));
        }
    }
}

#[test]
fn flag_exact_values() {
    let bit = Field::bit(4);
    assert_eq!(bit, Field { offset: 4, width: 1 });
    assert_eq!(bit.put(0, true), 0x10);
    assert_eq!(bit.put(0xFFFF_FFFF, false), 0xFFFF_FFEF);
    assert!(bit.test(0x10));
    assert!(!bit.test(0xFFFF_FFEF));
}

#[test]
fn get_agrees_with_the_bitfield_crate() {
    for lsb in 0..32usize {
        for msb in lsb..32usize {
            let field = Field { offset: lsb as u32, width: (msb - lsb + 1) as u32 };
            for raw in PATTERNS {
                let expected: u32 = BitRange::<u32>::bit_range(&raw, msb, lsb);
                assert_eq!(field.get(raw), expected, "bits {}..={} of {:#x}", lsb, msb, raw);
            }
        }
    }
}

#[test]
fn set_agrees_with_the_bitfield_crate() {
    for lsb in 0..32usize {
        for msb in lsb..32usize {
            let field = Field { offset: lsb as u32, width: (msb - lsb + 1) as u32 };
            for raw in PATTERNS {
                for value in PATTERNS {
                    let mut expected = raw;
                    BitRangeMut::<u32>::set_bit_range(&mut expected, msb, lsb, value);
                    assert_eq!(field.set(raw, value), expected);
                }
            }
        }
    }
}

#[test]
fn flags_agree_with_the_bitfield_crate() {
    for index in 0..32usize {
        let field = Field::bit(index as u32);
        for raw in PATTERNS {
            assert_eq!(field.test(raw), Bit::bit(&raw, index));
            for on in [false, true] {
                let mut expected = raw;
                BitMut::set_bit(&mut expected, index, on);
                assert_eq!(field.put(raw, on), expected);
            }
        }
    }
}
