//! What passes between the driver and its host.
//!
//! The driver owns no bus and no output line. It hands its host one
//! [`Command`] at a time; the host carries the command out and hands back a
//! [`Response`] that says how it went. The host's answer to the last command of
//! an operation yields the operation's [`Reply`].

use crate::frame::Frame;
use crate::types::{DriverStatus, Error};
use vstd::prelude::*;

verus! {

/// The level of a digital output line.
#[derive(Clone, Copy, Debug, PartialEq, Eq)]
pub enum Level {
    /// The line is driven low.
    Low,
    /// The line is driven high.
    High,
}

/// The digital output lines between the host and the chip.
#[derive(Clone, Copy, Debug, PartialEq, Eq)]
pub enum Line {
    /// Chip select: low while a frame is on the bus.
    ChipSelect,
    /// Driver enable: low enables the motor outputs.
    Enable,
    /// Direction of rotation: low is clockwise.
    Direction,
    /// Step: a pulse moves the motor by one microstep.
    Step,
}

impl Line {
    /// The level at which the line does nothing: chip select and enable high,
    /// direction and step low.
    pub open spec fn spec_idle_level(self) -> Level {
        match self {
            Line::ChipSelect => Level::High,
            Line::Enable => Level::High,
            Line::Direction => Level::Low,
            Line::Step => Level::Low,
        }
    }

    /// The level at which the line does nothing.
    #[verifier::when_used_as_spec(spec_idle_level)]
    pub fn idle_level(self) -> (level: Level)
        ensures
            level == self.spec_idle_level(),
    {
        match self {
            Line::ChipSelect => Level::High,
            Line::Enable => Level::High,
            Line::Direction => Level::Low,
            Line::Step => Level::Low,
        }
    }

    /// The line that is brought to its idle level after this one when the
    /// driver is constructed: chip select, enable, direction, step.
    pub open spec fn spec_successor(self) -> Option<Line> {
        match self {
            Line::ChipSelect => Some(Line::Enable),
            Line::Enable => Some(Line::Direction),
            Line::Direction => Some(Line::Step),
            Line::Step => None,
        }
    }

    /// The line that is brought to its idle level after this one.
    #[verifier::when_used_as_spec(spec_successor)]
    pub fn successor(self) -> (next: Option<Line>)
        ensures
            next == self.spec_successor(),
    {
        match self {
            Line::ChipSelect => Some(Line::Enable),
            Line::Enable => Some(Line::Direction),
            Line::Direction => Some(Line::Step),
            Line::Step => None,
        }
    }
}

/// What the driver asks its host to do.
#[derive(Clone, Copy, Debug, PartialEq, Eq)]
pub enum Command {
    /// Drive the line to the level.
    SetLine(Line, Level),
    /// Block for the given number of nanoseconds.
    Delay(u32),
    /// Send the five bytes of the frame over the bus.
    Write(Frame),
    /// Send the five bytes of the frame over the bus and receive five bytes
    /// at the same time.
    Transfer(Frame),
    /// Apply the caller's function to the given register value.
    Modify(u32),
}

/// How the host fared with a command.
#[derive(Debug, PartialEq, Eq)]
pub enum Response<SpiE, PinE> {
    /// Answer to [`Command::SetLine`]: the line was set, or why it was not.
    LineSet(Result<(), PinE>),
    /// Answer to [`Command::Delay`]: the time has passed.
    Delayed,
    /// Answer to [`Command::Write`]: the frame was sent, or why it was not.
    Written(Result<(), SpiE>),
    /// Answer to [`Command::Transfer`]: the frame that was received, or why
    /// the transfer failed.
    Transferred(Result<Frame, SpiE>),
    /// Answer to [`Command::Modify`]: the new register value.
    Modified(u32),
}

impl<SpiE, PinE> Response<SpiE, PinE> {
    /// Whether the response is an answer to `command`.
    pub open spec fn answers(self, command: Command) -> bool {
        match self {
            Response::LineSet(_) => command is SetLine,
            Response::Delayed => command is Delay,
            Response::Written(_) => command is Write,
            Response::Transferred(_) => command is Transfer,
            Response::Modified(_) => command is Modify,
        }
    }

    /// The error that a failed command ends the operation with: a line's
    /// failure as [`Error::Pin`], the bus's failure as [`Error::Spi`], each
    /// with what the host reported.
    pub open spec fn failure(self) -> Option<Error<SpiE, PinE>> {
        match self {
            Response::LineSet(Err(e)) => Some(Error::Pin(e)),
            Response::Written(Err(e)) => Some(Error::Spi(e)),
            Response::Transferred(Err(e)) => Some(Error::Spi(e)),
            _ => None,
        }
    }

    /// The register value that the response carries: the word of a received
    /// frame or the new value of a modification; 0 where it carries none.
    pub open spec fn payload(self) -> u32 {
        match self {
            Response::Transferred(Ok(frame)) => frame.word,
            Response::Modified(value) => value,
            _ => 0,
        }
    }
}

/// What an operation hands back when it has ended well.
#[derive(Clone, Copy, Debug, PartialEq, Eq)]
pub enum Reply {
    /// The operation has no result but its success.
    Done,
    /// The register value that was read.
    Value(u32),
    /// The decoded status of the chip.
    Status(DriverStatus),
}

/// Where an operation stands after a response.
#[derive(Clone, Copy, Debug, PartialEq, Eq)]
pub enum Step {
    /// The operation goes on with this command.
    Next(Command),
    /// The operation has ended well.
    Finished(Reply),
}

} // verus!
