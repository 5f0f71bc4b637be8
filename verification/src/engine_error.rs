//! The errors of the accessors into the engine's memory.
use vstd::prelude::*;

verus! {

/// Why an object of the engine could not be reached.
#[derive(Clone, Debug, PartialEq, Eq)]
pub enum QuakeLiveEngineError {
    /// The engine handed over no object where one was expected.
    NullPointerPassed(String),
    /// The id is outside the range of the engine's table.
    InvalidId(i32),
    /// The table holds no object at that id.
    EntityNotFound(String),
}

/// The error for an object that the engine did not hand over.
pub fn null_pointer_error() -> (r: QuakeLiveEngineError)
    ensures
        r matches QuakeLiveEngineError::NullPointerPassed(msg) && msg@ == "null pointer passed"@,
{
    QuakeLiveEngineError::NullPointerPassed(String::from_str("null pointer passed"))
}

} // verus!
