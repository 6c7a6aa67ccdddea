//! The driver: motor-control operations, each carried out as a sequence of
//! commands to the host.
//!
//! An operation is begun by the method that bears its name, which returns the
//! operation's first command. The host carries the command out and reports the
//! result to [`Tmc2160::advance`], which returns the next command, or the
//! operation's reply when it has ended, or the error that ended it. A failed
//! command ends its operation at once: nothing is retried and nothing is
//! undone. To begin an operation while another is in progress is to abandon
//! the other where it stands.
//!
//! The contract of each method that begins an operation states the course of
//! the operation: all the commands that a host carries out if each of them
//! succeeds, the reply, and the cache at the end. What a failure does is the
//! same in every operation and is stated once, by [`Tmc2160::advance`].

use crate::course::{course_from, release, select, Course};
use crate::frame::Frame;
use crate::protocol::{Command, Level, Line, Reply, Response, Step};
use crate::registers::{ChopConf, ChopConfField, IHoldIrun, Register};
use crate::types::{Direction, DriverStatus, Error, MicrostepResolution, RegisterCache};
use vstd::prelude::*;

verus! {

/// Width of the pulse on the step line, in nanoseconds.
pub const STEP_PULSE_NS: u32 = 1000;

/// Run current that `init` and `reset` set, on the scale from 0 to 31.
pub const DEFAULT_RUN_CURRENT: u8 = 16;

/// Standstill current that `init` and `reset` set, on the scale from 0 to 31.
pub const DEFAULT_HOLD_CURRENT: u8 = 8;

/// Hold delay that `init` and `reset` set, in units of 2^18 clock cycles.
pub const DEFAULT_HOLD_DELAY: u8 = 4;

/// Chopper off time that `init` and `reset` set.
pub const DEFAULT_OFF_TIME: u32 = 5;

/// What follows a register write within an operation.
#[derive(Clone, Copy, Debug, PartialEq, Eq)]
pub enum AfterWrite {
    /// The operation ends.
    Finish,
    /// The microstep resolution is set to full step, then the off time.
    Microsteps,
    /// The chopper off time is set to its default, which ends the operation.
    OffTime,
}

/// What follows a register read within an operation.
#[derive(Clone, Copy, Debug, PartialEq, Eq)]
pub enum AfterRead {
    /// The operation ends with the value that was read.
    Report,
    /// The value goes to the caller's function, and what it returns is
    /// written back.
    Modify,
    /// The value is the chopper configuration; it is written back with one
    /// field replaced.
    Patch(ChopConfField, u32, AfterWrite),
    /// The value is the global status; the driver status is read next.
    DriverStatus,
    /// The value is the driver status; with the global status read before, it
    /// is decoded, which ends the operation.
    Decode(u32),
}

/// Where an operation stands: each stage waits for the host's response to one
/// command.
#[derive(Clone, Copy, Debug, PartialEq, Eq)]
pub enum Stage {
    /// Construction: the line is being brought to its idle level.
    Construct(Line),
    /// A single line is being set, which ends the operation.
    Switch(Line, Level),
    /// Step pulse: the step line is being raised.
    PulseRise,
    /// Step pulse: the pulse width is being waited out.
    PulseHold,
    /// Step pulse: the step line is being lowered.
    PulseFall,
    /// Register read: chip select is being asserted.
    ReadSelect(Register, AfterRead),
    /// Register read: the frames are being exchanged.
    ReadExchange(Register, AfterRead),
    /// Register read: the value has been received and chip select is being
    /// released.
    ReadRelease(Register, u32, AfterRead),
    /// Register write: chip select is being asserted.
    WriteSelect(Register, u32, AfterWrite),
    /// Register write: the frame is being sent.
    WriteExchange(Register, u32, AfterWrite),
    /// Register write: the frame has been sent and chip select is being
    /// released.
    WriteRelease(Register, u32, AfterWrite),
    /// Read-modify-write: the caller's function is being applied to the
    /// current value of the register.
    Modify(Register, u32),
}

/// Where an operation goes when the command of a stage has succeeded.
#[derive(Clone, Copy, Debug, PartialEq, Eq)]
pub enum Onward {
    /// The operation goes on at this stage.
    Goes(Stage),
    /// The operation ends well with this reply.
    Ends(Reply),
}

impl AfterWrite {
    /// Where the operation goes when a register has been written and chip
    /// select has been released.
    pub open spec fn onward(self) -> Onward {
        match self {
            AfterWrite::Finish => Onward::Ends(Reply::Done),
            AfterWrite::Microsteps => Onward::Goes(
                Stage::ReadSelect(
                    Register::ChopConf,
                    AfterRead::Patch(
                        ChopConfField::Mres,
                        MicrostepResolution::Full.code() as u32,
                        AfterWrite::OffTime,
                    ),
                ),
            ),
            AfterWrite::OffTime => Onward::Goes(
                Stage::ReadSelect(
                    Register::ChopConf,
                    AfterRead::Patch(ChopConfField::Toff, DEFAULT_OFF_TIME, AfterWrite::Finish),
                ),
            ),
        }
    }
}

impl AfterRead {
    /// Where the operation goes when `value` has been read from `reg` and
    /// chip select has been released.
    pub open spec fn onward(self, reg: Register, value: u32) -> Onward {
        match self {
            AfterRead::Report => Onward::Ends(Reply::Value(value)),
            AfterRead::Modify => Onward::Goes(Stage::Modify(reg, value)),
            AfterRead::Patch(field, bits, then) => Onward::Goes(
                Stage::WriteSelect(Register::ChopConf, ChopConf(value).with(field, bits).0, then),
            ),
            AfterRead::DriverStatus => Onward::Goes(
                Stage::ReadSelect(Register::DrvStatus, AfterRead::Decode(value)),
            ),
            AfterRead::Decode(gstat) => Onward::Ends(
                Reply::Status(DriverStatus::decoded(gstat, value)),
            ),
        }
    }
}

impl Stage {
    /// The command that the host is carrying out in this stage.
    pub open spec fn spec_command(self) -> Command {
        match self {
            Stage::Construct(line) => Command::SetLine(line, line.idle_level()),
            Stage::Switch(line, level) => Command::SetLine(line, level),
            Stage::PulseRise => Command::SetLine(Line::Step, Level::High),
            Stage::PulseHold => Command::Delay(STEP_PULSE_NS),
            Stage::PulseFall => Command::SetLine(Line::Step, Level::Low),
            Stage::ReadSelect(_, _) => Command::SetLine(Line::ChipSelect, Level::Low),
            Stage::ReadExchange(reg, _) => Command::Transfer(Frame::read(reg)),
            Stage::ReadRelease(_, _, _) => Command::SetLine(Line::ChipSelect, Level::High),
            Stage::WriteSelect(_, _, _) => Command::SetLine(Line::ChipSelect, Level::Low),
            Stage::WriteExchange(reg, value, _) => Command::Write(Frame::write(reg, value)),
            Stage::WriteRelease(_, _, _) => Command::SetLine(Line::ChipSelect, Level::High),
            Stage::Modify(_, current) => Command::Modify(current),
        }
    }

    /// The command that the host is carrying out in this stage.
    #[verifier::when_used_as_spec(spec_command)]
    pub fn command(self) -> (command: Command)
        ensures
            command == self.spec_command(),
    {
        match self {
            Stage::Construct(line) => Command::SetLine(line, line.idle_level()),
            Stage::Switch(line, level) => Command::SetLine(line, level),
            Stage::PulseRise => Command::SetLine(Line::Step, Level::High),
            Stage::PulseHold => Command::Delay(STEP_PULSE_NS),
            Stage::PulseFall => Command::SetLine(Line::Step, Level::Low),
            Stage::ReadSelect(_, _) => Command::SetLine(Line::ChipSelect, Level::Low),
            Stage::ReadExchange(reg, _) => Command::Transfer(Frame::read(reg)),
            Stage::ReadRelease(_, _, _) => Command::SetLine(Line::ChipSelect, Level::High),
            Stage::WriteSelect(_, _, _) => Command::SetLine(Line::ChipSelect, Level::Low),
            Stage::WriteExchange(reg, value, _) => Command::Write(Frame::write(reg, value)),
            Stage::WriteRelease(_, _, _) => Command::SetLine(Line::ChipSelect, Level::High),
            Stage::Modify(_, current) => Command::Modify(current),
        }
    }

    /// Where the operation goes when the command of this stage has succeeded;
    /// `payload` is the register value that the host's response carries.
    pub open spec fn onward(self, payload: u32) -> Onward {
        match self {
            Stage::Construct(line) => match line.successor() {
                Some(next) => Onward::Goes(Stage::Construct(next)),
                None => Onward::Ends(Reply::Done),
            },
            Stage::Switch(_, _) => Onward::Ends(Reply::Done),
            Stage::PulseRise => Onward::Goes(Stage::PulseHold),
            Stage::PulseHold => Onward::Goes(Stage::PulseFall),
            Stage::PulseFall => Onward::Ends(Reply::Done),
            Stage::ReadSelect(reg, then) => Onward::Goes(Stage::ReadExchange(reg, then)),
            Stage::ReadExchange(reg, then) => Onward::Goes(Stage::ReadRelease(reg, payload, then)),
            Stage::ReadRelease(reg, value, then) => then.onward(reg, value),
            Stage::WriteSelect(reg, value, then) => Onward::Goes(
                Stage::WriteExchange(reg, value, then),
            ),
            Stage::WriteExchange(reg, value, then) => Onward::Goes(
                Stage::WriteRelease(reg, value, then),
            ),
            Stage::WriteRelease(_, _, then) => then.onward(),
            Stage::Modify(reg, _) => Onward::Goes(
                Stage::WriteSelect(reg, payload, AfterWrite::Finish),
            ),
        }
    }

    /// The cache when the command of this stage has succeeded: a register
    /// write is complete when chip select has been released after it, and the
    /// cache then records the written value; at every other stage the cache
    /// stays as it is.
    pub open spec fn records(self, cache: RegisterCache) -> RegisterCache {
        match self {
            Stage::WriteRelease(reg, value, _) => cache.updated(reg, value),
            _ => cache,
        }
    }
}

/// The currents that the chip accepts: run and standstill current up to 31,
/// hold delay up to 7.
spec fn currents_in_range(run_current: u8, hold_current: u8, hold_delay: u8) -> bool {
    run_current <= 31 && hold_current <= 31 && hold_delay <= 7
}

/// The value of the current register for the given currents: the standstill
/// current in bits 0 to 4, the run current in bits 8 to 12, the hold delay from
/// bit 16 up.
spec fn current_word(run_current: u8, hold_current: u8, hold_delay: u8) -> u32 {
    ((hold_delay as u32) << 16) | ((run_current as u32) << 8) | (hold_current as u32)
}

/// Packs the currents into the value of the current register, field by field.
fn pack_currents(run_current: u8, hold_current: u8, hold_delay: u8) -> (word: u32)
    requires
        currents_in_range(run_current, hold_current, hold_delay),
    ensures
        word == current_word(run_current, hold_current, hold_delay),
{
    let hold: u32 = hold_current as u32;
    let run: u32 = run_current as u32;
    let delay: u32 = hold_delay as u32;
    let mut reg = IHoldIrun(0);
    reg.set_ihold(hold);
    let ghost first: u32 = reg.0;
    reg.set_irun(run);
    let ghost second: u32 = reg.0;
    reg.set_iholddelay(delay);
    let ghost third: u32 = reg.0;
    proof {
        assert(first == hold) by (bit_vector)
            requires
                first == (0u32 & !(!(u32::MAX << 5u32) << 0u32)) | ((hold << 0u32) & (!(u32::MAX
                    << 5u32) << 0u32)),
                hold <= 31,
        ;
        assert(second == (run << 8) | hold) by (bit_vector)
            requires
                second == (first & !(!(u32::MAX << 5u32) << 8u32)) | ((run << 8u32) & (!(u32::MAX
                    << 5u32) << 8u32)),
                first == hold,
                hold <= 31,
                run <= 31,
        ;
        assert(third == (delay << 16) | (run << 8) | hold) by (bit_vector)
            requires
                third == (second & !(!(u32::MAX << 4u32) << 16u32)) | ((delay << 16u32) & (!(
                u32::MAX << 4u32) << 16u32)),
                second == (run << 8) | hold,
                hold <= 31,
                run <= 31,
                delay <= 7,
        ;
    }
    reg.0
}

/// The default currents make the word 0x0004_1008.
proof fn default_currents_word()
    ensures
        current_word(DEFAULT_RUN_CURRENT, DEFAULT_HOLD_CURRENT, DEFAULT_HOLD_DELAY) == 0x0004_1008,
{
    assert(((4u8 as u32) << 16) | ((16u8 as u32) << 8) | (8u8 as u32) == 0x0004_1008u32)
        by (bit_vector);
}

/// The driver: the shadow copies of the write-only registers, and the stage
/// of the operation in progress.
#[derive(Clone, Copy, Debug, PartialEq, Eq)]
pub struct Tmc2160 {
    /// Shadow copies of the registers that the chip cannot read back.
    pub register_cache: RegisterCache,
    /// Where the operation in progress stands; `None` while the driver is idle.
    pub stage: Option<Stage>,
}

impl Tmc2160 {
    /// The driver at `stage` of an operation, with its cache as it is.
    pub open spec fn at(self, stage: Stage) -> Tmc2160 {
        Tmc2160 { stage: Some(stage), ..self }
    }

    /// The driver with no operation in progress, with its cache as it is.
    pub open spec fn idle(self) -> Tmc2160 {
        Tmc2160 { stage: None, ..self }
    }

    /// Whether the driver waits for a response, and `response` answers the
    /// command that it waits on.
    pub open spec fn spec_awaits<SpiE, PinE>(&self, response: &Response<SpiE, PinE>) -> bool {
        self.stage matches Some(stage) && response.answers(stage.command())
    }

    /// The driver and the step when the operation goes `onward`.
    pub open spec fn go(self, onward: Onward) -> (Tmc2160, Step) {
        match onward {
            Onward::Goes(stage) => (self.at(stage), Step::Next(stage.command())),
            Onward::Ends(reply) => (self.idle(), Step::Finished(reply)),
        }
    }

    /// The driver and the outcome after `response`.
    ///
    /// An idle driver stays idle: it has nothing left to do. A response that
    /// does not answer the pending command is passed over: the driver stays
    /// where it is and asks for the pending command again. Of the responses
    /// that do answer it, a failure ends the operation with its error and
    /// leaves the cache as it is, and a success moves the operation on.
    pub open spec fn after<SpiE, PinE>(self, response: Response<SpiE, PinE>) -> (
        Tmc2160,
        Result<Step, Error<SpiE, PinE>>,
    ) {
        match self.stage {
            None => (self, Ok(Step::Finished(Reply::Done))),
            Some(stage) => if !response.answers(stage.command()) {
                (self, Ok(Step::Next(stage.command())))
            } else {
                match response.failure() {
                    Some(error) => (self.idle(), Err(error)),
                    None => {
                        let recorded = Tmc2160 {
                            register_cache: stage.records(self.register_cache),
                            ..self
                        };
                        let (driver, step) = recorded.go(stage.onward(response.payload()));
                        (driver, Ok(step))
                    },
                }
            },
        }
    }

    /// The course of the operation in progress on a host that succeeds with
    /// every command, where `words` holds, in order, the register values that
    /// come in on the way: the word of each frame received, and each value
    /// that the caller's function returns. An idle driver has no course to
    /// run.
    pub open spec fn course(self, words: Seq<u32>) -> Course {
        match self.stage {
            Some(stage) => course_from(self.register_cache, stage, words, 0, Seq::empty()),
            None => Course {
                commands: Seq::empty(),
                reply: Reply::Done,
                cache: self.register_cache,
            },
        }
    }

    /// Creates the driver and begins its construction, which brings the lines
    /// to their idle levels: chip select high, enable high (motor off),
    /// direction low, step low, each once and in this order. The driver is
    /// ready when the operation has ended well; `init` is a separate
    /// operation.
    pub fn new() -> (created: (Tmc2160, Command))
        ensures
            created.0.register_cache == (RegisterCache {
                ihold_irun: 0,
                tpwmthrs: 0,
                coolconf: 0,
                pwmconf: 0,
            }),
            created.0.stage == Some(Stage::Construct(Line::ChipSelect)),
            created.1 == Command::SetLine(Line::ChipSelect, Level::High),
            forall|words: Seq<u32>|
                (#[trigger] created.0.course(words)).consists_of(
                    seq![
                        Command::SetLine(Line::ChipSelect, Level::High),
                        Command::SetLine(Line::Enable, Level::High),
                        Command::SetLine(Line::Direction, Level::Low),
                        Command::SetLine(Line::Step, Level::Low),
                    ],
                    Reply::Done,
                    created.0.register_cache,
                ),
    {
        let driver = Tmc2160 {
            register_cache: RegisterCache::default(),
            stage: Some(Stage::Construct(Line::ChipSelect)),
        };
        proof {
            reveal_with_fuel(course_from, 5);
        }
        (driver, Command::SetLine(Line::ChipSelect, Line::ChipSelect.idle_level()))
    }

    /// Begins the reading of the chip's status: the global status register is
    /// read, then the driver status register, and the operation replies with
    /// the two words decoded as [`DriverStatus::decoded`] says.
    pub fn get_driver_status(&mut self) -> (command: Command)
        ensures
            *final(self) == old(self).at(
                Stage::ReadSelect(Register::GStat, AfterRead::DriverStatus),
            ),
            command == select(),
            forall|words: Seq<u32>|
                words.len() >= 2 ==> (#[trigger] final(self).course(words)).consists_of(
                    seq![
                        select(),
                        Command::Transfer(Frame::read(Register::GStat)),
                        release(),
                        select(),
                        Command::Transfer(Frame::read(Register::DrvStatus)),
                        release(),
                    ],
                    Reply::Status(DriverStatus::decoded(words[0], words[1])),
                    old(self).register_cache,
                ),
    {
        proof {
            reveal_with_fuel(course_from, 7);
        }
        self.begin(Stage::ReadSelect(Register::GStat, AfterRead::DriverStatus))
    }

    /// Begins a read of `reg`: chip select goes low, the read request, which
    /// is the address with the top bit clear and a placeholder word, is
    /// exchanged for the chip's response, chip select goes high, and the
    /// operation replies with the word of the response. The cache stays as it
    /// is.
    pub fn read_register(&mut self, reg: Register) -> (command: Command)
        ensures
            *final(self) == old(self).at(Stage::ReadSelect(reg, AfterRead::Report)),
            command == select(),
            forall|words: Seq<u32>|
                words.len() >= 1 ==> (#[trigger] final(self).course(words)).consists_of(
                    seq![
                        select(),
                        Command::Transfer(Frame { header: reg.address(), word: 0 }),
                        release(),
                    ],
                    Reply::Value(words[0]),
                    old(self).register_cache,
                ),
    {
        proof {
            reveal_with_fuel(course_from, 4);
        }
        self.begin(Stage::ReadSelect(reg, AfterRead::Report))
    }

    /// Begins a write of `value` to `reg`: chip select goes low, the write
    /// request, which is the address with the top bit set and the value, is
    /// sent, and chip select goes high. After that the cache holds the value
    /// for a register that it tracks, and is as it was for any other register.
    pub fn write_register(&mut self, reg: Register, value: u32) -> (command: Command)
        ensures
            *final(self) == old(self).at(Stage::WriteSelect(reg, value, AfterWrite::Finish)),
            command == select(),
            forall|words: Seq<u32>|
                (#[trigger] final(self).course(words)).consists_of(
                    seq![
                        select(),
                        Command::Write(
                            Frame { header: (reg.address() + 0x80) as u8, word: value },
                        ),
                        release(),
                    ],
                    Reply::Done,
                    old(self).register_cache.updated(reg, value),
                ),
            RegisterCache::tracks(reg) ==> final(self).course(Seq::empty()).cache@[reg] == value,
            !RegisterCache::tracks(reg) ==> final(self).course(Seq::empty()).cache == old(
                self,
            ).register_cache,
    {
        proof {
            reveal_with_fuel(course_from, 4);
        }
        self.begin(Stage::WriteSelect(reg, value, AfterWrite::Finish))
    }

    /// Begins a read-modify-write of `reg`. The current value of a register
    /// that the cache tracks comes from the cache, since the chip cannot read
    /// such a register back; the current value of any other register is read
    /// from the chip. The host applies the caller's function to the current
    /// value when it is asked to with [`Command::Modify`], and what the function
    /// returns is written to the register.
    pub fn modify_register(&mut self, reg: Register) -> (command: Command)
        ensures
            RegisterCache::tracks(reg) ==> {
                let current = old(self).register_cache@[reg];
                &&& *final(self) == old(self).at(Stage::Modify(reg, current))
                &&& command == Command::Modify(current)
                &&& forall|words: Seq<u32>|
                    words.len() >= 1 ==> (#[trigger] final(self).course(words)).consists_of(
                        seq![
                            Command::Modify(current),
                            select(),
                            Command::Write(Frame::write(reg, words[0])),
                            release(),
                        ],
                        Reply::Done,
                        old(self).register_cache.updated(reg, words[0]),
                    )
            },
            !RegisterCache::tracks(reg) ==> {
                &&& *final(self) == old(self).at(Stage::ReadSelect(reg, AfterRead::Modify))
                &&& command == select()
                &&& forall|words: Seq<u32>|
                    words.len() >= 2 ==> (#[trigger] final(self).course(words)).consists_of(
                        seq![
                            select(),
                            Command::Transfer(Frame::read(reg)),
                            release(),
                            Command::Modify(words[0]),
                            select(),
                            Command::Write(Frame::write(reg, words[1])),
                            release(),
                        ],
                        Reply::Done,
                        old(self).register_cache,
                    )
            },
    {
        proof {
            reveal_with_fuel(course_from, 8);
        }
        match self.register_cache.get(reg) {
            Some(current) => self.begin(Stage::Modify(reg, current)),
            None => self.begin(Stage::ReadSelect(reg, AfterRead::Modify)),
        }
    }

    /// Begins setting the motor currents. A run current or a standstill
    /// current above 31, or a hold delay above 7, is refused before anything is
    /// asked of the host: no command is issued and the driver stays as it is.
    /// Else `(hold_delay << 16) | (run_current << 8) | hold_current` is
    /// written to the current register at address 0x10, and the cache holds
    /// that value afterwards.
    pub fn set_current<SpiE, PinE>(
        &mut self,
        run_current: u8,
        hold_current: u8,
        hold_delay: u8,
    ) -> (result: Result<Command, Error<SpiE, PinE>>)
        ensures
            run_current > 31 || hold_current > 31 || hold_delay > 7 ==> {
                &&& result == Err::<Command, Error<SpiE, PinE>>(Error::InvalidArgument)
                &&& *final(self) == *old(self)
            },
            run_current <= 31 && hold_current <= 31 && hold_delay <= 7 ==> {
                let word = ((hold_delay as u32) << 16) | ((run_current as u32) << 8) | (
                hold_current as u32);
                &&& result == Ok::<Command, Error<SpiE, PinE>>(select())
                &&& *final(self) == old(self).at(
                    Stage::WriteSelect(Register::IHoldIrun, word, AfterWrite::Finish),
                )
                &&& forall|words: Seq<u32>|
                    (#[trigger] final(self).course(words)).consists_of(
                        seq![select(), Command::Write(Frame { header: 0x90, word }), release()],
                        Reply::Done,
                        RegisterCache { ihold_irun: word, ..old(self).register_cache },
                    )
            },
    {
        if run_current > 31 || hold_current > 31 || hold_delay > 7 {
            return Err(Error::InvalidArgument);
        }
        let word: u32 = pack_currents(run_current, hold_current, hold_delay);
        proof {
            reveal_with_fuel(course_from, 4);
        }
        Ok(self.begin(Stage::WriteSelect(Register::IHoldIrun, word, AfterWrite::Finish)))
    }

    /// Begins the initialization: the default currents (run 16, hold 8, delay
    /// 4) are written, then the microstep resolution is set to full step, then
    /// the chopper off time is set to 5, each of the last two by a read of the
    /// chopper configuration and a write of what was read with the one field
    /// replaced. Afterwards the cache holds the default currents.
    pub fn init(&mut self) -> (command: Command)
        ensures
            *final(self) == old(self).at(
                Stage::WriteSelect(Register::IHoldIrun, 0x0004_1008, AfterWrite::Microsteps),
            ),
            command == select(),
            forall|words: Seq<u32>|
                words.len() >= 2 ==> (#[trigger] final(self).course(words)).consists_of(
                    seq![
                        select(),
                        Command::Write(Frame::write(Register::IHoldIrun, 0x0004_1008)),
                        release(),
                        select(),
                        Command::Transfer(Frame::read(Register::ChopConf)),
                        release(),
                        select(),
                        Command::Write(
                            Frame::write(
                                Register::ChopConf,
                                ChopConf(words[0]).with(ChopConfField::Mres, 0).0,
                            ),
                        ),
                        release(),
                        select(),
                        Command::Transfer(Frame::read(Register::ChopConf)),
                        release(),
                        select(),
                        Command::Write(
                            Frame::write(
                                Register::ChopConf,
                                ChopConf(words[1]).with(ChopConfField::Toff, 5).0,
                            ),
                        ),
                        release(),
                    ],
                    Reply::Done,
                    RegisterCache { ihold_irun: 0x0004_1008, ..old(self).register_cache },
                ),
    {
        proof {
            default_currents_word();
            reveal_with_fuel(course_from, 16);
        }
        let word: u32 = pack_currents(
            DEFAULT_RUN_CURRENT,
            DEFAULT_HOLD_CURRENT,
            DEFAULT_HOLD_DELAY,
        );
        self.begin(Stage::WriteSelect(Register::IHoldIrun, word, AfterWrite::Microsteps))
    }

    /// Begins the recovery of a safe configuration: the default currents (run
    /// 16, hold 8, delay 4) are written and the chopper off time is set to 5.
    /// The microstep resolution stays as it is: the chopper configuration is
    /// written back with only its off time replaced. No other register is
    /// touched.
    pub fn reset(&mut self) -> (command: Command)
        ensures
            *final(self) == old(self).at(
                Stage::WriteSelect(Register::IHoldIrun, 0x0004_1008, AfterWrite::OffTime),
            ),
            command == select(),
            forall|words: Seq<u32>|
                words.len() >= 1 ==> (#[trigger] final(self).course(words)).consists_of(
                    seq![
                        select(),
                        Command::Write(Frame::write(Register::IHoldIrun, 0x0004_1008)),
                        release(),
                        select(),
                        Command::Transfer(Frame::read(Register::ChopConf)),
                        release(),
                        select(),
                        Command::Write(
                            Frame::write(
                                Register::ChopConf,
                                ChopConf(words[0]).with(ChopConfField::Toff, 5).0,
                            ),
                        ),
                        release(),
                    ],
                    Reply::Done,
                    RegisterCache { ihold_irun: 0x0004_1008, ..old(self).register_cache },
                ),
    {
        proof {
            default_currents_word();
            reveal_with_fuel(course_from, 10);
        }
        let word: u32 = pack_currents(
            DEFAULT_RUN_CURRENT,
            DEFAULT_HOLD_CURRENT,
            DEFAULT_HOLD_DELAY,
        );
        self.begin(Stage::WriteSelect(Register::IHoldIrun, word, AfterWrite::OffTime))
    }

    /// Begins setting the direction of rotation: the direction line goes low
    /// for clockwise, high for counterclockwise.
    pub fn set_direction(&mut self, direction: Direction) -> (command: Command)
        ensures
            *final(self) == old(self).at(
                Stage::Switch(
                    Line::Direction,
                    match direction {
                        Direction::CW => Level::Low,
                        Direction::CCW => Level::High,
                    },
                ),
            ),
            command == Command::SetLine(
                Line::Direction,
                match direction {
                    Direction::CW => Level::Low,
                    Direction::CCW => Level::High,
                },
            ),
            forall|words: Seq<u32>|
                (#[trigger] final(self).course(words)).consists_of(
                    seq![command],
                    Reply::Done,
                    old(self).register_cache,
                ),
    {
        let level = match direction {
            Direction::CW => Level::Low,
            Direction::CCW => Level::High,
        };
        self.begin(Stage::Switch(Line::Direction, level))
    }

    /// Begins setting the microstep resolution: the chopper configuration is
    /// read from the chip and written back with the resolution field, bits 24
    /// to 27, holding the code of `microsteps` and every other bit as it was
    /// read.
    pub fn set_microsteps(&mut self, microsteps: MicrostepResolution) -> (command: Command)
        ensures
            *final(self) == old(self).at(
                Stage::ReadSelect(
                    Register::ChopConf,
                    AfterRead::Patch(
                        ChopConfField::Mres,
                        microsteps.code() as u32,
                        AfterWrite::Finish,
                    ),
                ),
            ),
            command == select(),
            forall|words: Seq<u32>|
                words.len() >= 1 ==> (#[trigger] final(self).course(words)).consists_of(
                    seq![
                        select(),
                        Command::Transfer(Frame::read(Register::ChopConf)),
                        release(),
                        select(),
                        Command::Write(
                            Frame::write(
                                Register::ChopConf,
                                ChopConf(words[0]).with(
                                    ChopConfField::Mres,
                                    microsteps.code() as u32,
                                ).0,
                            ),
                        ),
                        release(),
                    ],
                    Reply::Done,
                    old(self).register_cache,
                ),
    {
        proof {
            reveal_with_fuel(course_from, 7);
        }
        let bits: u32 = microsteps.to_bits() as u32;
        self.begin(
            Stage::ReadSelect(
                Register::ChopConf,
                AfterRead::Patch(ChopConfField::Mres, bits, AfterWrite::Finish),
            ),
        )
    }

    /// Begins one step of the motor: the step line goes high, stays high for
    /// 1000 ns, and goes low, and nothing else happens. If the line cannot be
    /// raised, the operation ends there, as any operation does where a command
    /// fails.
    pub fn step(&mut self) -> (command: Command)
        ensures
            *final(self) == old(self).at(Stage::PulseRise),
            command == Command::SetLine(Line::Step, Level::High),
            forall|words: Seq<u32>|
                (#[trigger] final(self).course(words)).consists_of(
                    seq![
                        Command::SetLine(Line::Step, Level::High),
                        Command::Delay(1000),
                        Command::SetLine(Line::Step, Level::Low),
                    ],
                    Reply::Done,
                    old(self).register_cache,
                ),
    {
        proof {
            reveal_with_fuel(course_from, 4);
        }
        self.begin(Stage::PulseRise)
    }

    /// Begins enabling the motor outputs: the enable line, which is active
    /// low, goes low.
    pub fn enable_driver(&mut self) -> (command: Command)
        ensures
            *final(self) == old(self).at(Stage::Switch(Line::Enable, Level::Low)),
            command == Command::SetLine(Line::Enable, Level::Low),
            forall|words: Seq<u32>|
                (#[trigger] final(self).course(words)).consists_of(
                    seq![command],
                    Reply::Done,
                    old(self).register_cache,
                ),
    {
        self.begin(Stage::Switch(Line::Enable, Level::Low))
    }

    /// Begins disabling the motor outputs: the enable line goes high.
    pub fn disable_driver(&mut self) -> (command: Command)
        ensures
            *final(self) == old(self).at(Stage::Switch(Line::Enable, Level::High)),
            command == Command::SetLine(Line::Enable, Level::High),
            forall|words: Seq<u32>|
                (#[trigger] final(self).course(words)).consists_of(
                    seq![command],
                    Reply::Done,
                    old(self).register_cache,
                ),
    {
        self.begin(Stage::Switch(Line::Enable, Level::High))
    }

    /// The command that the host is carrying out, `None` when the driver is
    /// idle.
    pub fn pending(&self) -> (command: Option<Command>)
        ensures
            command == (match self.stage {
                Some(stage) => Some(stage.command()),
                None => None,
            }),
    {
        match self.stage {
            Some(stage) => Some(stage.command()),
            None => None,
        }
    }

    /// Whether the driver waits for a response, and `response` answers the
    /// command that it waits on.
    #[verifier::when_used_as_spec(spec_awaits)]
    pub fn awaits<SpiE, PinE>(&self, response: &Response<SpiE, PinE>) -> (yes: bool)
        ensures
            yes == self.spec_awaits(response),
    {
        match self.stage {
            None => false,
            Some(stage) => match (response, stage.command()) {
                (Response::LineSet(_), Command::SetLine(_, _)) => true,
                (Response::Delayed, Command::Delay(_)) => true,
                (Response::Written(_), Command::Write(_)) => true,
                (Response::Transferred(_), Command::Transfer(_)) => true,
                (Response::Modified(_), Command::Modify(_)) => true,
                _ => false,
            },
        }
    }

    /// Takes the host's response to the pending command and says how the
    /// operation goes on.
    ///
    /// A failure ends the operation at once with [`Error::Pin`] or
    /// [`Error::Spi`], which holds what the host reported; the cache stays as it
    /// is, and no further command of the operation is issued. After a success
    /// the result is the next command, or the reply of the operation when this
    /// was its last command. The cache changes at one point only: when chip
    /// select has been released after a register write.
    ///
    /// A response that the driver does not await changes nothing: the result
    /// is the pending command once more, or `Finished` if the driver is idle.
    pub fn advance<SpiE, PinE>(&mut self, response: Response<SpiE, PinE>) -> (result: Result<
        Step,
        Error<SpiE, PinE>,
    >)
        ensures
            (*final(self), result) == old(self).after(response),
            !old(self).awaits(&response) ==> *final(self) == *old(self) && result is Ok,
            old(self).awaits(&response) ==> (match response.failure() {
                Some(error) => result == Err::<Step, Error<SpiE, PinE>>(error) && *final(self)
                    == old(self).idle(),
                None => result is Ok,
            }),
            result matches Ok(Step::Next(command)) ==> final(self).stage matches Some(stage)
                && stage.command() == command,
            result matches Ok(Step::Finished(_)) ==> final(self).stage is None,
    {
        let stage = match self.stage {
            Some(stage) => stage,
            None => {
                return Ok(Step::Finished(Reply::Done));
            },
        };
        if !self.awaits(&response) {
            return Ok(Step::Next(stage.command()));
        }
        match response {
            Response::LineSet(Err(error)) => {
                self.stage = None;
                Err(Error::Pin(error))
            },
            Response::Written(Err(error)) => {
                self.stage = None;
                Err(Error::Spi(error))
            },
            Response::Transferred(Err(error)) => {
                self.stage = None;
                Err(Error::Spi(error))
            },
            Response::Transferred(Ok(frame)) => Ok(self.step_on(stage, frame.word)),
            Response::Modified(value) => Ok(self.step_on(stage, value)),
            Response::LineSet(Ok(_)) => Ok(self.step_on(stage, 0)),
            Response::Written(Ok(_)) => Ok(self.step_on(stage, 0)),
            Response::Delayed => Ok(self.step_on(stage, 0)),
        }
    }

    /// Begins an operation at `stage`, whatever the driver was doing.
    fn begin(&mut self, stage: Stage) -> (command: Command)
        ensures
            *final(self) == old(self).at(stage),
            command == stage.command(),
    {
        self.stage = Some(stage);
        stage.command()
    }

    /// Moves to `stage` and issues its command.
    fn enter_stage(&mut self, stage: Stage) -> (step: Step)
        ensures
            (*final(self), step) == old(self).go(Onward::Goes(stage)),
    {
        Step::Next(self.begin(stage))
    }

    /// Ends the operation with `reply`.
    fn finish_with(&mut self, reply: Reply) -> (step: Step)
        ensures
            (*final(self), step) == old(self).go(Onward::Ends(reply)),
    {
        self.stage = None;
        Step::Finished(reply)
    }

    /// Records a written value in the cache, if the cache tracks the register.
    fn update_register_cache(&mut self, reg: Register, value: u32)
        ensures
            *final(self) == (Tmc2160 {
                register_cache: old(self).register_cache.updated(reg, value),
                ..*old(self)
            }),
    {
        self.register_cache.put(reg, value);
    }

    /// Goes on to a read of the chopper configuration.
    fn read_chopconf(&mut self, then: AfterRead) -> (step: Step)
        ensures
            (*final(self), step) == old(self).go(
                Onward::Goes(Stage::ReadSelect(Register::ChopConf, then)),
            ),
    {
        self.enter_stage(Stage::ReadSelect(Register::ChopConf, then))
    }

    /// Goes on to a write of the chopper configuration.
    fn write_chopconf(&mut self, chopconf: ChopConf, then: AfterWrite) -> (step: Step)
        ensures
            (*final(self), step) == old(self).go(
                Onward::Goes(Stage::WriteSelect(Register::ChopConf, chopconf.0, then)),
            ),
    {
        self.enter_stage(Stage::WriteSelect(Register::ChopConf, chopconf.0, then))
    }

    /// Goes on after a register read.
    fn continue_read(&mut self, reg: Register, value: u32, then: AfterRead) -> (step: Step)
        ensures
            (*final(self), step) == old(self).go(then.onward(reg, value)),
    {
        match then {
            AfterRead::Report => self.finish_with(Reply::Value(value)),
            AfterRead::Modify => self.enter_stage(Stage::Modify(reg, value)),
            AfterRead::Patch(field, bits, next) => {
                let mut chopconf = ChopConf(value);
                chopconf.set(field, bits);
                self.write_chopconf(chopconf, next)
            },
            AfterRead::DriverStatus => self.enter_stage(
                Stage::ReadSelect(Register::DrvStatus, AfterRead::Decode(value)),
            ),
            AfterRead::Decode(gstat) => self.finish_with(
                Reply::Status(DriverStatus::decode(gstat, value)),
            ),
        }
    }

    /// Goes on after a register write.
    fn continue_write(&mut self, then: AfterWrite) -> (step: Step)
        ensures
            (*final(self), step) == old(self).go(then.onward()),
    {
        match then {
            AfterWrite::Finish => self.finish_with(Reply::Done),
            AfterWrite::Microsteps => {
                let bits: u32 = MicrostepResolution::Full.to_bits() as u32;
                self.read_chopconf(AfterRead::Patch(ChopConfField::Mres, bits, AfterWrite::OffTime))
            },
            AfterWrite::OffTime => self.read_chopconf(
                AfterRead::Patch(ChopConfField::Toff, DEFAULT_OFF_TIME, AfterWrite::Finish),
            ),
        }
    }

    /// Goes on after the command of `stage`, which the host has carried out
    /// with success.
    fn step_on(&mut self, stage: Stage, payload: u32) -> (step: Step)
        ensures
            (*final(self), step) == (Tmc2160 {
                register_cache: stage.records(old(self).register_cache),
                ..*old(self)
            }).go(stage.onward(payload)),
    {
        match stage {
            Stage::Construct(line) => match line.successor() {
                Some(next) => self.enter_stage(Stage::Construct(next)),
                None => self.finish_with(Reply::Done),
            },
            Stage::Switch(_, _) => self.finish_with(Reply::Done),
            Stage::PulseRise => self.enter_stage(Stage::PulseHold),
            Stage::PulseHold => self.enter_stage(Stage::PulseFall),
            Stage::PulseFall => self.finish_with(Reply::Done),
            Stage::ReadSelect(reg, then) => self.enter_stage(Stage::ReadExchange(reg, then)),
            Stage::ReadExchange(reg, then) => self.enter_stage(
                Stage::ReadRelease(reg, payload, then),
            ),
            Stage::ReadRelease(reg, value, then) => self.continue_read(reg, value, then),
            Stage::WriteSelect(reg, value, then) => self.enter_stage(
                Stage::WriteExchange(reg, value, then),
            ),
            Stage::WriteExchange(reg, value, then) => self.enter_stage(
                Stage::WriteRelease(reg, value, then),
            ),
            Stage::WriteRelease(reg, value, then) => {
                self.update_register_cache(reg, value);
                self.continue_write(then)
            },
            Stage::Modify(reg, _) => self.enter_stage(
                Stage::WriteSelect(reg, payload, AfterWrite::Finish),
            ),
        }
    }
}

} // verus!
