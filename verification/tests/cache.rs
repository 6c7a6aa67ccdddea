use tmc2160_driver::registers::Register;
use tmc2160_driver::types::RegisterCache;

const TRACKED: [Register; 4] =
    [Register::IHoldIrun, Register::TPwmThrs, Register::CoolConf, Register::PwmConf];

const UNTRACKED: [Register; 25] = [
    Register::GConf,
    Register::GStat,
    Register::IOIN,
    Register::OtpProg,
    Register::OtpRead,
    Register::FactoryConf,
    Register::ShortConf,
    Register::DrvConf,
    Register::GlobalScaler,
    Register::OffsetRead,
    Register::TPowerdown,
    Register::TStep,
    Register::TCoolThrs,
    Register::THigh,
    Register::VdcMin,
    Register::MSLutSel,
    Register::MSLutStart,
    Register::MsCnt,
    Register::MsCurAct,
    Register::ChopConf,
    Register::DcCtrl,
    Register::DrvStatus,
    Register::PwmScale,
    Register::PwmAuto,
    Register::LostSteps,
];

#[test]
fn new_cache_holds_zero_for_each_tracked_register() {
    let cache = RegisterCache::default();
    assert_eq!(cache, RegisterCache { ihold_irun: 0, tpwmthrs: 0, coolconf: 0, pwmconf: 0 });
    for reg in TRACKED {
        assert_eq!(cache.get(reg), Some(0));
    }
}

#[test]
fn tracked_set_is_the_four_write_only_registers() {
    for reg in TRACKED {
        assert!(RegisterCache::is_tracked(reg));
    }
    for reg in UNTRACKED {
        assert!(!RegisterCache::is_tracked(reg));
    }
}

#[test]
fn put_then_get_returns_the_value() {
    for reg in TRACKED {
        for value in [0u32, 1, 0x0004_1008, 0xFFFF_FFFF] {
            let mut cache = RegisterCache::default();
            cache.put(reg, value);
            assert_eq!(cache.get(reg), Some(value));
        }
    }
}

#[test]
fn put_leaves_the_other_registers() {
    let mut cache = RegisterCache { ihold_irun: 1, tpwmthrs: 2, coolconf: 3, pwmconf: 4 };
    cache.put(Register::TPwmThrs, 20);
    assert_eq!(cache, RegisterCache { ihold_irun: 1, tpwmthrs: 20, coolconf: 3, pwmconf: 4 });
    cache.put(Register::IHoldIrun, 10);
    assert_eq!(cache, RegisterCache { ihold_irun: 10, tpwmthrs: 20, coolconf: 3, pwmconf: 4 });
    cache.put(Register::PwmConf, 40);
    assert_eq!(cache, RegisterCache { ihold_irun: 10, tpwmthrs: 20, coolconf: 3, pwmconf: 40 });
    cache.put(Register::CoolConf, 30);
    assert_eq!(cache, RegisterCache { ihold_irun: 10, tpwmthrs: 20, coolconf: 30, pwmconf: 40 });
}

#[test]
fn untracked_register_is_never_cached() {
    for reg in UNTRACKED {
        let mut cache = RegisterCache { ihold_irun: 1, tpwmthrs: 2, coolconf: 3, pwmconf: 4 };
        assert_eq!(cache.get(reg), None);
        cache.put(reg, 0xDEAD_BEEF);
        assert_eq!(cache.get(reg), None);
        assert_eq!(cache, RegisterCache { ihold_irun: 1, tpwmthrs: 2, coolconf: 3, pwmconf: 4 });
    }
}
