use tmc2160_driver::protocol::{Command, Level, Line};
use tmc2160_driver::registers::{ChopConfField, Register};
use tmc2160_driver::tmc2160::{
    AfterRead, AfterWrite, Stage, DEFAULT_HOLD_CURRENT, DEFAULT_HOLD_DELAY, DEFAULT_OFF_TIME,
    DEFAULT_RUN_CURRENT, STEP_PULSE_NS,
};
use tmc2160_driver::Frame;

#[test]
fn idle_levels_of_the_lines() {
    assert_eq!(Line::ChipSelect.idle_level(), Level::High);
    assert_eq!(Line::Enable.idle_level(), Level::High);
    assert_eq!(Line::Direction.idle_level(), Level::Low);
    assert_eq!(Line::Step.idle_level(), Level::Low);
}

#[test]
fn lines_follow_in_construction_order() {
    assert_eq!(Line::ChipSelect.successor(), Some(Line::Enable));
    assert_eq!(Line::Enable.successor(), Some(Line::Direction));
    assert_eq!(Line::Direction.successor(), Some(Line::Step));
    assert_eq!(Line::Step.successor(), None);
}

#[test]
fn defaults_of_init_and_reset() {
    assert_eq!(DEFAULT_RUN_CURRENT, 16);
    assert_eq!(DEFAULT_HOLD_CURRENT, 8);
    assert_eq!(DEFAULT_HOLD_DELAY, 4);
    assert_eq!(DEFAULT_OFF_TIME, 5);
    assert_eq!(STEP_PULSE_NS, 1000);
}

#[test]
fn command_of_each_stage() {
    let select = Command::SetLine(Line::ChipSelect, Level::Low);
    let release = Command::SetLine(Line::ChipSelect, Level::High);
    let patch = AfterRead::Patch(ChopConfField::Toff, 5, AfterWrite::Finish);
    let expected = [
        (Stage::Construct(Line::ChipSelect), Command::SetLine(Line::ChipSelect, Level::High)),
        (Stage::Construct(Line::Enable), Command::SetLine(Line::Enable, Level::High)),
        (Stage::Construct(Line::Direction), Command::SetLine(Line::Direction, Level::Low)),
        (Stage::Construct(Line::Step), Command::SetLine(Line::Step, Level::Low)),
        (Stage::Switch(Line::Enable, Level::Low), Command::SetLine(Line::Enable, Level::Low)),
        (Stage::PulseRise, Command::SetLine(Line::Step, Level::High)),
        (Stage::PulseHold, Command::Delay(1000)),
        (Stage::PulseFall, Command::SetLine(Line::Step, Level::Low)),
        (Stage::ReadSelect(Register::ChopConf, patch), select),
        (
            Stage::ReadExchange(Register::ChopConf, patch),
            Command::Transfer(Frame { header: 0x6C, word: 0 }),
        ),
        (Stage::ReadRelease(Register::ChopConf, 7, patch), release),
        (Stage::WriteSelect(Register::PwmConf, 9, AfterWrite::Finish), select),
        (
            Stage::WriteExchange(Register::PwmConf, 9, AfterWrite::Finish),
            Command::Write(Frame { header: 0xF0, word: 9 }),
        ),
        (Stage::WriteRelease(Register::PwmConf, 9, AfterWrite::Finish), release),
        (Stage::Modify(Register::CoolConf, 0x1234), Command::Modify(0x1234)),
    ];
    for (stage, command) in expected {
        assert_eq!(stage.command(), command, "{:?}", stage);
    }
}
