//! The level that the server runs: the part of the engine's `level_locals_t`
//! that the library reads.
use vstd::prelude::*;

use crate::engine_error::{null_pointer_error, QuakeLiveEngineError};

verus! {

/// A model of the engine's `level_locals_t`.
#[derive(Clone, Debug, PartialEq, Eq)]
pub struct LevelLocals {
    /// The level time in milliseconds.
    pub time: i32,
}

/// The current level.
#[derive(Clone, Debug, PartialEq, Eq)]
pub struct CurrentLevel {
    pub level: LevelLocals,
}

impl CurrentLevel {
    /// Wraps the level that the engine handed over; fails where it handed
    /// over none.
    pub fn try_from(level: Option<LevelLocals>) -> (r: Result<CurrentLevel, QuakeLiveEngineError>)
        ensures
            match level {
                Some(l) => r == Ok::<CurrentLevel, QuakeLiveEngineError>(CurrentLevel { level: l }),
                None => r matches Err(QuakeLiveEngineError::NullPointerPassed(msg)) && msg@ == "null pointer passed"@,
            },
    {
        match level {
            Some(l) => Ok(CurrentLevel { level: l }),
            None => Err(null_pointer_error()),
        }
    }

    /// The level time in milliseconds.
    pub fn get_leveltime(&self) -> (r: i32)
        ensures
            r == self.level.time,
    {
        self.level.time
    }
}

} // verus!
