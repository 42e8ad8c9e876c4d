//! The failures that a workflow can end with.

use vstd::prelude::*;
use crate::command::Command;

verus! {

/// Why a workflow stopped.
#[derive(Clone, Debug, PartialEq, Eq)]
pub enum Error {
    /// The metadata of a path could not be read; holds the system's message.
    Io(String),
    /// An external command could not be started at all; holds the system's message.
    Launch(String),
    /// An external command ran and reported failure.
    Command(Command),
}

impl Error {
    /// A short text for the kind of failure, suitable for a log line.
    pub fn describe(&self) -> (text: String)
        ensures
            text@ == (match *self {
                Error::Io(message) => message@,
                Error::Launch(message) => message@,
                Error::Command(_) => "command failure"@,
            }),
    {
        match self {
            Error::Io(message) => message.clone(),
            Error::Launch(message) => message.clone(),
            Error::Command(_) => "command failure".to_owned(),
        }
    }
}

} // verus!
