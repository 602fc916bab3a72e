use vstd::prelude::*;

verus! {

/// How much the emulator writes to its log.
#[derive(Clone, Copy, Debug, PartialEq, Eq, Structural)]
pub enum LoggerMode {
    Info,
    Warning,
    Error,
}

impl LoggerMode {
    /// The number the emulator knows this mode by.
    pub open spec fn level(self) -> int {
        match self {
            LoggerMode::Info => 0,
            LoggerMode::Warning => 1,
            LoggerMode::Error => 2,
        }
    }

    /// Returns the number the emulator knows this mode by.
    pub fn code(&self) -> (c: i32)
        ensures
            c == self.level(),
    {
        match self {
            LoggerMode::Info => 0,
            LoggerMode::Warning => 1,
            LoggerMode::Error => 2,
        }
    }
}

} // verus!
