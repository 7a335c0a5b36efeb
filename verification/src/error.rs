//! The two tiers of failure: one that stops the service before it starts, and
//! one that fails a single request and leaves the service running.

use vstd::prelude::*;

verus! {

/// Why the service cannot start. Each value names the step that failed.
#[derive(Debug, Clone, Copy, PartialEq, Eq, Structural)]
pub enum StartupError {
    /// The words file could not be opened or read.
    Open,
    /// The words file does not hold a list of word/meaning pairs.
    Parse,
    /// The words file holds a list without any entry.
    Empty,
}

/// Why a single request cannot be answered.
#[derive(Debug, Clone, Copy, PartialEq, Eq, Structural)]
pub enum RuntimeStateError {
    /// The shared state could not be acquired.
    Lock,
    /// An index does not point into the word list.
    Index,
}

impl StartupError {
    /// The text shown for this error.
    pub open spec fn message_text(self) -> Seq<char> {
        match self {
            StartupError::Open => "Failed to open words.json file"@,
            StartupError::Parse => "Failed to parse words.json"@,
            StartupError::Empty => "words.json holds no words"@,
        }
    }

    /// The message that names the failing step.
    pub fn message(&self) -> (text: String)
        ensures
            text@ == self.message_text(),
    {
        match self {
            StartupError::Open => "Failed to open words.json file".to_owned(),
            StartupError::Parse => "Failed to parse words.json".to_owned(),
            StartupError::Empty => "words.json holds no words".to_owned(),
        }
    }
}

impl RuntimeStateError {
    /// The text shown for this error.
    pub open spec fn message_text(self) -> Seq<char> {
        match self {
            RuntimeStateError::Lock => "Failed to access the word state"@,
            RuntimeStateError::Index => "Word index out of bounds"@,
        }
    }

    /// The message sent to the client in place of the data it asked for.
    pub fn message(&self) -> (text: String)
        ensures
            text@ == self.message_text(),
    {
        match self {
            RuntimeStateError::Lock => "Failed to access the word state".to_owned(),
            RuntimeStateError::Index => "Word index out of bounds".to_owned(),
        }
    }
}

} // verus!
