//! The judge's error taxonomy. Failures of outside services are carried as
//! their message text; the unverified binary converts its library errors into
//! these before handing control back.

use vstd::prelude::*;

verus! {

/// Everything that can go wrong while judging.
#[derive(Clone, Debug)]
pub enum JudgeError {
    /// A persistence read or write failed.
    Database(String),
    /// A queue operation failed.
    Redis(String),
    /// A compile step could not be performed at all.
    Compilation(String),
    /// A run step could not be performed at all.
    Execution(String),
    /// A filesystem operation failed.
    Io(String),
    /// The configuration is unusable.
    Config(String),
    /// A value could not be encoded or decoded.
    Serialization(String),
    /// Anything else.
    Internal(String),
}

impl JudgeError {
    /// The message carried by the error, whatever its kind.
    pub fn message(&self) -> (r: &str)
        ensures
            r@ == self.message_spec(),
    {
        match self {
            JudgeError::Database(m) => m.as_str(),
            JudgeError::Redis(m) => m.as_str(),
            JudgeError::Compilation(m) => m.as_str(),
            JudgeError::Execution(m) => m.as_str(),
            JudgeError::Io(m) => m.as_str(),
            JudgeError::Config(m) => m.as_str(),
            JudgeError::Serialization(m) => m.as_str(),
            JudgeError::Internal(m) => m.as_str(),
        }
    }

    /// The message carried by the error.
    pub open spec fn message_spec(&self) -> Seq<char> {
        match self {
            JudgeError::Database(m) => m@,
            JudgeError::Redis(m) => m@,
            JudgeError::Compilation(m) => m@,
            JudgeError::Execution(m) => m@,
            JudgeError::Io(m) => m@,
            JudgeError::Config(m) => m@,
            JudgeError::Serialization(m) => m@,
            JudgeError::Internal(m) => m@,
        }
    }
}

} // verus!
