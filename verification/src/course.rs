//! The course of an operation: the commands that a host carries out from the
//! first to the last when every one of them succeeds, the reply at the end,
//! and the cache afterwards; what holds of every step on the way; and that
//! the driver keeps to the course whatever its host reports.

use crate::protocol::{Command, Level, Line, Reply, Response, Step};
use crate::tmc2160::{AfterRead, AfterWrite, Onward, Stage, Tmc2160};
use crate::types::{Error, RegisterCache};
use vstd::prelude::*;

verus! {

/// The command that asserts chip select.
pub open spec fn select() -> Command {
    Command::SetLine(Line::ChipSelect, Level::Low)
}

/// The command that releases chip select.
pub open spec fn release() -> Command {
    Command::SetLine(Line::ChipSelect, Level::High)
}

/// The course of an operation on a host that succeeds with every command.
pub struct Course {
    /// The commands that the host carries out, in order.
    pub commands: Seq<Command>,
    /// The reply of the operation.
    pub reply: Reply,
    /// The cache when the operation has ended.
    pub cache: RegisterCache,
}

impl Course {
    /// Whether the course is made of these commands, this reply and this
    /// cache.
    pub open spec fn consists_of(
        self,
        commands: Seq<Command>,
        reply: Reply,
        cache: RegisterCache,
    ) -> bool {
        self.commands =~= commands && self.reply == reply && self.cache == cache
    }
}

impl AfterWrite {
    /// The number of commands that follow a register write in an operation.
    pub open spec fn commands_left(self) -> nat {
        match self {
            AfterWrite::Finish => 0,
            AfterWrite::Microsteps => 12,
            AfterWrite::OffTime => 6,
        }
    }
}

impl AfterRead {
    /// The number of commands that follow a register read in an operation.
    pub open spec fn commands_left(self) -> nat {
        match self {
            AfterRead::Report => 0,
            AfterRead::Modify => 4,
            AfterRead::Patch(_, _, then) => 3 + then.commands_left(),
            AfterRead::DriverStatus => 3,
            AfterRead::Decode(_) => 0,
        }
    }
}

impl Stage {
    /// The number of commands that the host has yet to carry out before the
    /// operation ends well, the pending one included.
    pub open spec fn commands_left(self) -> nat {
        match self {
            Stage::Construct(Line::ChipSelect) => 4,
            Stage::Construct(Line::Enable) => 3,
            Stage::Construct(Line::Direction) => 2,
            Stage::Construct(Line::Step) => 1,
            Stage::Switch(_, _) => 1,
            Stage::PulseRise => 3,
            Stage::PulseHold => 2,
            Stage::PulseFall => 1,
            Stage::ReadSelect(_, then) => 3 + then.commands_left(),
            Stage::ReadExchange(_, then) => 2 + then.commands_left(),
            Stage::ReadRelease(_, _, then) => 1 + then.commands_left(),
            Stage::WriteSelect(_, _, then) => 3 + then.commands_left(),
            Stage::WriteExchange(_, _, then) => 2 + then.commands_left(),
            Stage::WriteRelease(_, _, then) => 1 + then.commands_left(),
            Stage::Modify(_, _) => 4,
        }
    }
}

/// Whether the response to a command that has succeeded carries a register
/// value: the word of the frame received in a transfer, or the value that the
/// caller's function returns.
pub open spec fn brings_word(command: Command) -> bool {
    command is Transfer || command is Modify
}

/// The register value that comes in with the response to `command`, where
/// `used` of the `words` have come in before: the next of the words for a
/// command that brings one, 0 once the words have run out, and 0 for a command
/// that brings none.
pub open spec fn word_for(command: Command, words: Seq<u32>, used: nat) -> u32 {
    if brings_word(command) && used < words.len() {
        words[used as int]
    } else {
        0
    }
}

/// The course of an operation from `stage` on, where the cache is `cache`,
/// `used` of the `words` have come in and the host has carried out
/// `carried_out` before.
pub open spec fn course_from(
    cache: RegisterCache,
    stage: Stage,
    words: Seq<u32>,
    used: nat,
    carried_out: Seq<Command>,
) -> Course
    decreases stage.commands_left(),
{
    let command = stage.command();
    let commands = carried_out.push(command);
    let used_then = if brings_word(command) {
        used + 1
    } else {
        used
    };
    match stage.onward(word_for(command, words, used)) {
        Onward::Goes(next) => course_from(stage.records(cache), next, words, used_then, commands),
        Onward::Ends(reply) => Course { commands, reply, cache: stage.records(cache) },
    }
}

/// Every operation ends: each command that the host carries out with success
/// leaves one command less to do, the last one ends the operation, and from no
/// stage are there more than 18 commands to go.
pub proof fn every_operation_ends(stage: Stage, payload: u32)
    ensures
        1 <= stage.commands_left() <= 18,
        match stage.onward(payload) {
            Onward::Goes(next) => next.commands_left() + 1 == stage.commands_left(),
            Onward::Ends(_) => stage.commands_left() == 1,
        },
{
}

/// The course from a stage takes as many commands as the stage has left.
pub proof fn course_takes_the_commands_left(
    cache: RegisterCache,
    stage: Stage,
    words: Seq<u32>,
    used: nat,
    carried_out: Seq<Command>,
)
    ensures
        course_from(cache, stage, words, used, carried_out).commands.len() == carried_out.len()
            + stage.commands_left(),
    decreases stage.commands_left(),
{
    let command = stage.command();
    match stage.onward(word_for(command, words, used)) {
        Onward::Goes(next) => {
            let used_then = if brings_word(command) {
                used + 1
            } else {
                used
            };
            course_takes_the_commands_left(
                stage.records(cache),
                next,
                words,
                used_then,
                carried_out.push(command),
            );
        },
        Onward::Ends(_) => {},
    }
}

/// The driver follows the course: a response that answers the pending command
/// with success, and brings the word that is next in `words` where the command
/// brings one, takes the driver one command along the course of the
/// operation, and to its end with the last command.
pub proof fn advance_follows_course<SpiE, PinE>(
    driver: Tmc2160,
    stage: Stage,
    response: Response<SpiE, PinE>,
    words: Seq<u32>,
    used: nat,
    carried_out: Seq<Command>,
)
    requires
        driver.stage == Some(stage),
        driver.awaits(&response),
        response.failure() is None,
        response.payload() == word_for(stage.command(), words, used),
    ensures
        ({
            let course = course_from(driver.register_cache, stage, words, used, carried_out);
            let commands = carried_out.push(stage.command());
            let used_then = if brings_word(stage.command()) {
                used + 1
            } else {
                used
            };
            match driver.after(response) {
                (next, Ok(Step::Next(command))) => {
                    &&& next.stage matches Some(following)
                    &&& command == following.command()
                    &&& course == course_from(
                        next.register_cache,
                        following,
                        words,
                        used_then,
                        commands,
                    )
                },
                (next, Ok(Step::Finished(reply))) => {
                    &&& next.stage is None
                    &&& course == Course { commands, reply, cache: next.register_cache }
                },
                (_, Err(_)) => false,
            }
        }),
{
}

/// Fail-fast, and nothing is undone: a command that fails is the last command
/// of its operation. The operation ends with the error that the host
/// reported, as a pin error for a line and as a bus error for the bus; the
/// driver is idle, so that no further command of the operation is issued, and
/// the cache is as the earlier commands of the operation left it.
pub proof fn failure_ends_operation<SpiE, PinE>(driver: Tmc2160, response: Response<SpiE, PinE>)
    requires
        driver.awaits(&response),
        response.failure() is Some,
    ensures
        driver.after(response) == (driver.idle(), Err::<Step, Error<SpiE, PinE>>(
            response.failure().unwrap(),
        )),
        response matches Response::LineSet(Err(e)) ==> response.failure() == Some(
            Error::<SpiE, PinE>::Pin(e),
        ),
        response matches Response::Written(Err(e)) ==> response.failure() == Some(
            Error::<SpiE, PinE>::Spi(e),
        ),
        response matches Response::Transferred(Err(e)) ==> response.failure() == Some(
            Error::<SpiE, PinE>::Spi(e),
        ),
{
}

/// Where the step line cannot be raised, the step ends with the line's error:
/// the host is asked neither to wait nor to lower the line.
pub proof fn step_stops_where_rise_fails<SpiE, PinE>(driver: Tmc2160, error: PinE)
    ensures
        driver.at(Stage::PulseRise).after(Response::<SpiE, PinE>::LineSet(Err(error))) == (
            driver.idle(),
            Err::<Step, Error<SpiE, PinE>>(Error::Pin(error)),
        ),
{
}

/// The only errors of an operation in progress are those of the host: an
/// operation fails with a pin error or a bus error that holds what the host
/// reported for the pending command, and with nothing else.
pub proof fn errors_come_from_the_host<SpiE, PinE>(
    driver: Tmc2160,
    response: Response<SpiE, PinE>,
    error: Error<SpiE, PinE>,
)
    requires
        driver.after(response).1 == Err::<Step, Error<SpiE, PinE>>(error),
    ensures
        driver.awaits(&response),
        response.failure() == Some(error),
        error is Pin || error is Spi,
        error matches Error::Pin(e) ==> response == Response::<SpiE, PinE>::LineSet(Err(e)),
        error matches Error::Spi(e) ==> response == Response::<SpiE, PinE>::Written(Err(e))
            || response == Response::<SpiE, PinE>::Transferred(Err(e)),
{
}

/// Every frame on the bus lies between chip select low and chip select high:
/// a frame is sent or exchanged only as the command that follows the
/// assertion of chip select, and the command that follows a frame is the
/// release of chip select.
pub proof fn frames_lie_within_chip_select(stage: Stage, payload: u32)
    ensures
        match stage.onward(payload) {
            Onward::Goes(next) => {
                &&& next.command() is Write || next.command() is Transfer ==> stage.command()
                    == select()
                &&& stage.command() is Write || stage.command() is Transfer ==> next.command()
                    == release()
            },
            Onward::Ends(_) => !(stage.command() is Write || stage.command() is Transfer),
        },
{
}

/// The cache changes at one point only: when the host reports that chip
/// select has been released after a register write, and then by the written
/// value alone.
pub proof fn cache_changes_on_write_only<SpiE, PinE>(
    driver: Tmc2160,
    response: Response<SpiE, PinE>,
)
    ensures
        driver.after(response).0.register_cache == (match (driver.stage, response) {
            (Some(Stage::WriteRelease(reg, value, _)), Response::LineSet(Ok(_))) =>
                driver.register_cache.updated(reg, value),
            _ => driver.register_cache,
        }),
{
}

/// What a host has seen of an operation.
pub struct Trace<SpiE, PinE> {
    /// The driver after the last response.
    pub driver: Tmc2160,
    /// The commands that the host has carried out, in order.
    pub commands: Seq<Command>,
    /// The register values that have come in with the responses, in order.
    pub words: Seq<u32>,
    /// How the operation ended: its reply, or its error; `None` while it has
    /// not ended.
    pub outcome: Option<Result<Reply, Error<SpiE, PinE>>>,
}

/// What a host sees from the response `from` on, where it has carried out
/// `commands` and taken in `words` before.
pub open spec fn run_from<SpiE, PinE>(
    driver: Tmc2160,
    responses: Seq<Response<SpiE, PinE>>,
    from: nat,
    commands: Seq<Command>,
    words: Seq<u32>,
) -> Trace<SpiE, PinE>
    decreases responses.len() - from,
{
    if from >= responses.len() || !driver.awaits(&responses[from as int]) {
        Trace { driver, commands, words, outcome: None }
    } else {
        let response = responses[from as int];
        let command = driver.stage.unwrap().command();
        let commands = commands.push(command);
        let words = if brings_word(command) && response.failure() is None {
            words.push(response.payload())
        } else {
            words
        };
        match driver.after(response) {
            (next, Ok(Step::Next(_))) => run_from(next, responses, from + 1, commands, words),
            (next, Ok(Step::Finished(reply))) => Trace {
                driver: next,
                commands,
                words,
                outcome: Some(Ok(reply)),
            },
            (next, Err(error)) => Trace {
                driver: next,
                commands,
                words,
                outcome: Some(Err(error)),
            },
        }
    }
}

/// What a host sees that carries out the pending command and each command
/// after it, and reports `responses`, one for each command in turn, whatever
/// they are. The run ends with the operation, or where a response does not
/// answer the pending command, or where the responses end.
pub open spec fn run<SpiE, PinE>(driver: Tmc2160, responses: Seq<Response<SpiE, PinE>>) -> Trace<
    SpiE,
    PinE,
> {
    run_from(driver, responses, 0, Seq::empty(), Seq::empty())
}

/// A course begins with the commands that were carried out before it.
proof fn course_keeps_what_was_carried_out(
    cache: RegisterCache,
    stage: Stage,
    words: Seq<u32>,
    used: nat,
    carried_out: Seq<Command>,
)
    ensures
        course_from(cache, stage, words, used, carried_out).commands.len() > carried_out.len(),
        course_from(cache, stage, words, used, carried_out).commands.take(
            carried_out.len() as int,
        ) =~= carried_out,
        course_from(cache, stage, words, used, carried_out).commands[carried_out.len() as int]
            == stage.command(),
    decreases stage.commands_left(),
{
    let command = stage.command();
    match stage.onward(word_for(command, words, used)) {
        Onward::Goes(next) => {
            let used_then = if brings_word(command) {
                used + 1
            } else {
                used
            };
            course_keeps_what_was_carried_out(
                stage.records(cache),
                next,
                words,
                used_then,
                carried_out.push(command),
            );
            let all = course_from(cache, stage, words, used, carried_out).commands;
            let longer = carried_out.push(command);
            assert(all.take(longer.len() as int) =~= longer);
            assert(all[carried_out.len() as int] == all.take(
                longer.len() as int,
            )[carried_out.len() as int]);
            assert(all.take(carried_out.len() as int) =~= all.take(longer.len() as int).take(
                carried_out.len() as int,
            ));
        },
        Onward::Ends(_) => {},
    }
}

/// A run keeps the words that came in before it.
proof fn run_keeps_what_came_in<SpiE, PinE>(
    driver: Tmc2160,
    responses: Seq<Response<SpiE, PinE>>,
    from: nat,
    commands: Seq<Command>,
    words: Seq<u32>,
)
    ensures
        run_from(driver, responses, from, commands, words).words.len() >= words.len(),
        run_from(driver, responses, from, commands, words).words.take(words.len() as int)
            =~= words,
    decreases responses.len() - from,
{
    if from < responses.len() && driver.awaits(&responses[from as int]) {
        let response = responses[from as int];
        let command = driver.stage.unwrap().command();
        let words_then = if brings_word(command) && response.failure() is None {
            words.push(response.payload())
        } else {
            words
        };
        match driver.after(response) {
            (next, Ok(Step::Next(_))) => {
                run_keeps_what_came_in(
                    next,
                    responses,
                    from + 1,
                    commands.push(command),
                    words_then,
                );
                let all = run_from(driver, responses, from, commands, words).words;
                assert(all.take(words.len() as int) =~= all.take(words_then.len() as int).take(
                    words.len() as int,
                ));
            },
            _ => {},
        }
    }
}

/// The step of the induction by which a run keeps to the course.
proof fn run_keeps_to_the_course_from<SpiE, PinE>(
    driver: Tmc2160,
    stage: Stage,
    responses: Seq<Response<SpiE, PinE>>,
    from: nat,
    commands: Seq<Command>,
    words: Seq<u32>,
)
    requires
        driver.stage == Some(stage),
    ensures
        ({
            let seen = run_from(driver, responses, from, commands, words);
            let course = course_from(
                driver.register_cache,
                stage,
                seen.words,
                words.len(),
                commands,
            );
            &&& seen.commands.len() <= course.commands.len()
            &&& seen.commands =~= course.commands.take(seen.commands.len() as int)
            &&& seen.outcome matches Some(Ok(reply)) ==> {
                &&& seen.commands =~= course.commands
                &&& reply == course.reply
                &&& seen.driver.register_cache == course.cache
                &&& seen.driver.stage is None
            }
            &&& seen.outcome matches Some(Err(error)) ==> {
                &&& seen.commands.len() > commands.len()
                &&& responses[from + seen.commands.len() - commands.len() - 1].failure() == Some(
                    error,
                )
                &&& seen.driver.stage is None
            }
        }),
    decreases responses.len() - from,
{
    let seen = run_from(driver, responses, from, commands, words);
    let cache = driver.register_cache;
    let command = stage.command();
    course_keeps_what_was_carried_out(cache, stage, seen.words, words.len(), commands);
    let course = course_from(cache, stage, seen.words, words.len(), commands);
    if from < responses.len() && driver.awaits(&responses[from as int]) {
        let response = responses[from as int];
        let commands_then = commands.push(command);
        assert(course.commands.take(commands_then.len() as int) =~= commands_then);
        if response.failure() is None {
            let words_then = if brings_word(command) {
                words.push(response.payload())
            } else {
                words
            };
            assert(response.payload() == word_for(command, seen.words, words.len())) by {
                if brings_word(command) {
                    match driver.after(response) {
                        (next, Ok(Step::Next(_))) => {
                            run_keeps_what_came_in(
                                next,
                                responses,
                                from + 1,
                                commands_then,
                                words_then,
                            );
                            assert(seen.words.take(words_then.len() as int)[words.len() as int]
                                == words_then[words.len() as int]);
                        },
                        _ => {},
                    }
                }
            }
            match driver.after(response) {
                (next, Ok(Step::Next(_))) => {
                    run_keeps_to_the_course_from(
                        next,
                        next.stage.unwrap(),
                        responses,
                        from + 1,
                        commands_then,
                        words_then,
                    );
                },
                _ => {},
            }
        }
    } else {
        assert(course.commands.take(commands.len() as int) =~= commands);
    }
}

/// The driver keeps to the course, whatever the host reports. The commands
/// that the host is asked to carry out are the beginning of the course that
/// belongs to the words that came in. The operation ends well only at the end
/// of that course, with the reply and the cache of the course. It fails only
/// where a command has failed, with the error of that command, and that
/// command is the last one of the operation.
pub proof fn run_keeps_to_the_course<SpiE, PinE>(
    driver: Tmc2160,
    responses: Seq<Response<SpiE, PinE>>,
)
    ensures
        ({
            let seen = run(driver, responses);
            let course = driver.course(seen.words);
            &&& seen.commands.len() <= course.commands.len()
            &&& seen.commands =~= course.commands.take(seen.commands.len() as int)
            &&& seen.outcome matches Some(Ok(reply)) ==> {
                &&& seen.commands =~= course.commands
                &&& reply == course.reply
                &&& seen.driver.register_cache == course.cache
                &&& seen.driver.stage is None
            }
            &&& seen.outcome matches Some(Err(error)) ==> {
                &&& seen.commands.len() >= 1
                &&& responses[seen.commands.len() - 1].failure() == Some(error)
                &&& seen.driver.stage is None
            }
        }),
{
    match driver.stage {
        Some(stage) => {
            run_keeps_to_the_course_from(driver, stage, responses, 0, Seq::empty(), Seq::empty());
        },
        None => {
            assert(run(driver, responses).commands =~= Seq::<Command>::empty());
        },
    }
}

} // verus!
