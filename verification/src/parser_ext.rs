//! What can be wrong with a command.
use vstd::prelude::*;

verus! {

/// Why a command could not be read.
#[derive(Clone, Copy, Debug, PartialEq, Eq, Structural)]
pub enum ParseCommandError {
    NotFound,
    Mysterious,
    DateFormat,
    DurationFormat,
    IdentFormat,
    ProjectIdentFormat,
}

impl ParseCommandError {
    /// What was wrong, in words.
    pub open spec fn message(self) -> Seq<char> {
        match self {
            ParseCommandError::NotFound => "Command does not exists"@,
            ParseCommandError::Mysterious => "Something bad happened..."@,
            ParseCommandError::DateFormat => "A date was not well encoded"@,
            ParseCommandError::DurationFormat => "A duration was not well encoded"@,
            ParseCommandError::IdentFormat => "An identifier was not working for me"@,
            ParseCommandError::ProjectIdentFormat =>
                "A project identifier was not working for me"@,
        }
    }

    /// What was wrong, in words.
    pub fn to_string(&self) -> (text: String)
        ensures
            text@ == self.message(),
    {
        match self {
            ParseCommandError::NotFound => String::from_str("Command does not exists"),
            ParseCommandError::Mysterious => String::from_str("Something bad happened..."),
            ParseCommandError::DateFormat => String::from_str("A date was not well encoded"),
            ParseCommandError::DurationFormat => String::from_str(
                "A duration was not well encoded",
            ),
            ParseCommandError::IdentFormat => String::from_str(
                "An identifier was not working for me",
            ),
            ParseCommandError::ProjectIdentFormat => String::from_str(
                "A project identifier was not working for me",
            ),
        }
    }
}

} // verus!
