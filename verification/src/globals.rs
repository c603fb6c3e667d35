//! The scripting host's well-known constants: status codes, garbage
//! collector commands, debug hook events and masks, and the JIT
//! engine's mode words.

use vstd::prelude::*;

verus! {

/// Pseudo-index of the host's registry table.
pub const REGISTRYINDEX: i32 = -10000;

/// Pseudo-index of the current environment table.
pub const ENVIRONINDEX: i32 = -10001;

/// Pseudo-index of the globals table.
pub const GLOBALSINDEX: i32 = -10002;

/// Return-count word meaning "as many values as there are".
pub const MULTRET: i32 = -1;

/// What a host call or coroutine reports back.
#[derive(Clone, Copy, Debug, PartialEq, Eq, Structural)]
pub enum Status {
    /// Finished without error.
    Okay,
    /// The coroutine yielded.
    Yield,
    /// A runtime error.
    ErrRun,
    /// A syntax error.
    ErrSyntax,
    /// A memory allocation error.
    ErrMem,
    /// An error while handling an error.
    ErrErr,
}

impl Status {
    /// The value the host encodes this status as.
    pub open spec fn spec_code(self) -> int {
        match self {
            Status::Okay => 0,
            Status::Yield => 1,
            Status::ErrRun => 2,
            Status::ErrSyntax => 3,
            Status::ErrMem => 4,
            Status::ErrErr => 5,
        }
    }

    /// Encodes the status for the host.
    pub fn code(&self) -> (r: i32)
        ensures
            r == self.spec_code(),
    {
        match self {
            Status::Okay => 0,
            Status::Yield => 1,
            Status::ErrRun => 2,
            Status::ErrSyntax => 3,
            Status::ErrMem => 4,
            Status::ErrErr => 5,
        }
    }
}

/// Commands for the host's garbage collector.
#[derive(Clone, Copy, Debug, PartialEq, Eq, Structural)]
pub enum Gc {
    /// Stop collection.
    Stop,
    /// Restart collection.
    Restart,
    /// Run a full collection.
    Collect,
    /// Memory in use, in kilobytes.
    Count,
    /// Remainder bytes of the memory count.
    CountB,
    /// Run one collection step.
    Step,
    /// Set the collector's pause.
    SetPause,
    /// Set the collector's step multiplier.
    SetStepMul,
    /// Whether the collector is running.
    IsRunning,
    /// Switch to generational collection.
    Gen,
    /// Switch to incremental collection.
    Inc,
}

impl Gc {
    /// The value the host encodes this command as.
    pub open spec fn spec_code(self) -> int {
        match self {
            Gc::Stop => 0,
            Gc::Restart => 1,
            Gc::Collect => 2,
            Gc::Count => 3,
            Gc::CountB => 4,
            Gc::Step => 5,
            Gc::SetPause => 6,
            Gc::SetStepMul => 7,
            Gc::IsRunning => 8,
            Gc::Gen => 9,
            Gc::Inc => 10,
        }
    }

    /// Encodes the command for the host.
    pub fn code(&self) -> (r: i32)
        ensures
            r == self.spec_code(),
    {
        match self {
            Gc::Stop => 0,
            Gc::Restart => 1,
            Gc::Collect => 2,
            Gc::Count => 3,
            Gc::CountB => 4,
            Gc::Step => 5,
            Gc::SetPause => 6,
            Gc::SetStepMul => 7,
            Gc::IsRunning => 8,
            Gc::Gen => 9,
            Gc::Inc => 10,
        }
    }
}

/// Debug hook events.
#[derive(Clone, Copy, Debug, PartialEq, Eq, Structural)]
pub enum Hook {
    /// A function call.
    Call,
    /// A function return.
    Ret,
    /// A new source line.
    Line,
    /// An instruction-count tick.
    Count,
    /// A tail call.
    TailCall,
}

impl Hook {
    /// The value the host encodes this event as.
    pub open spec fn spec_code(self) -> int {
        match self {
            Hook::Call => 0,
            Hook::Ret => 1,
            Hook::Line => 2,
            Hook::Count => 3,
            Hook::TailCall => 4,
        }
    }

    /// Encodes the event for the host.
    pub fn code(&self) -> (r: i32)
        ensures
            r == self.spec_code(),
    {
        match self {
            Hook::Call => 0,
            Hook::Ret => 1,
            Hook::Line => 2,
            Hook::Count => 3,
            Hook::TailCall => 4,
        }
    }
}

/// Debug hook masks: one bit per hook event.
#[derive(Clone, Copy, Debug, PartialEq, Eq, Structural)]
pub enum Mask {
    /// Fire on calls.
    Call,
    /// Fire on returns.
    Ret,
    /// Fire on new lines.
    Line,
    /// Fire on instruction-count ticks.
    Count,
}

impl Mask {
    /// The mask's bit: one shifted by the matching hook event.
    pub open spec fn spec_code(self) -> int {
        match self {
            Mask::Call => 1,
            Mask::Ret => 2,
            Mask::Line => 4,
            Mask::Count => 8,
        }
    }

    /// Encodes the mask for the host.
    pub fn code(&self) -> (r: i32)
        ensures
            r == self.spec_code(),
    {
        match self {
            Mask::Call => 1,
            Mask::Ret => 2,
            Mask::Line => 4,
            Mask::Count => 8,
        }
    }
}

/// The JIT engine's mode words.
#[derive(Clone, Copy, Debug, PartialEq, Eq, Structural)]
pub enum Mode {
    /// The whole engine.
    Engine,
    /// Debugging level.
    Debug,
    /// One function.
    Func,
    /// A function with subfunctions.
    AllFunc,
    /// Subfunctions only.
    AllSubFunc,
    /// A trace.
    Trace,
    /// The wrapper for C function calls.
    WrapCFunc,
    /// Count of modes.
    Max,
    /// Mask selecting the mode bits of a word.
    ModeMask,
}

impl Mode {
    /// The value the JIT engine encodes this mode as.
    pub open spec fn spec_code(self) -> int {
        match self {
            Mode::Engine => 0,
            Mode::Debug => 1,
            Mode::Func => 2,
            Mode::AllFunc => 3,
            Mode::AllSubFunc => 4,
            Mode::Trace => 5,
            Mode::WrapCFunc => 16,
            Mode::Max => 17,
            Mode::ModeMask => 255,
        }
    }

    /// Encodes the mode for the JIT engine.
    pub fn code(&self) -> (r: i32)
        ensures
            r == self.spec_code(),
    {
        match self {
            Mode::Engine => 0,
            Mode::Debug => 1,
            Mode::Func => 2,
            Mode::AllFunc => 3,
            Mode::AllSubFunc => 4,
            Mode::Trace => 5,
            Mode::WrapCFunc => 16,
            Mode::Max => 17,
            Mode::ModeMask => 255,
        }
    }
}

/// The flag word to switch a JIT mode on.
pub const MODE_ON: i32 = 0x0100;

/// The flag word to switch a JIT mode off.
pub const MODE_OFF: i32 = 0x0000;

/// The flag word to flush a JIT mode.
pub const MODE_FLUSH: i32 = 0x0200;

} // verus!
