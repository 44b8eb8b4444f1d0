//! What can go wrong with a command.

use vstd::prelude::*;

verus! {

/// Why a command line was not carried out.
///
/// A line that fails leaves the turtle as it was.
#[derive(Clone, Copy, Debug, PartialEq, Eq, Structural)]
pub enum CommandError {
    /// The line holds no token.
    EmptyCommand,
    /// The first token is no command of the language.
    UnknownCommand,
    /// The command has fewer arguments than it needs.
    MissingArgument,
    /// An argument that has to be a number is none.
    InvalidNumber,
    /// The variable to add to was never set.
    UndefinedVariable,
    /// The variable to add to holds text that is no number.
    NonNumericVariable,
}

impl CommandError {
    /// Whether the run ends with this error. A blank line and an unknown
    /// command are passed over; a command of the language that cannot be
    /// carried out ends the run.
    pub open spec fn ends_run(self) -> bool {
        match self {
            CommandError::EmptyCommand => false,
            CommandError::UnknownCommand => false,
            CommandError::MissingArgument => true,
            CommandError::InvalidNumber => true,
            CommandError::UndefinedVariable => true,
            CommandError::NonNumericVariable => true,
        }
    }

    /// Whether the run ends with this error.
    pub fn is_fatal(self) -> (r: bool)
        ensures
            r == self.ends_run(),
    {
        match self {
            CommandError::EmptyCommand | CommandError::UnknownCommand => false,
            _ => true,
        }
    }

    /// The error in words.
    pub open spec fn spec_reason(self) -> Seq<char> {
        match self {
            CommandError::EmptyCommand => "command is empty"@,
            CommandError::UnknownCommand => "unknown command"@,
            CommandError::MissingArgument => "missing argument"@,
            CommandError::InvalidNumber => "invalid number"@,
            CommandError::UndefinedVariable => "variable does not exist"@,
            CommandError::NonNumericVariable => "variable is not a number"@,
        }
    }

    /// The error in words, for a diagnostic.
    pub fn reason(self) -> (r: &'static str)
        ensures
            r@ == self.spec_reason(),
    {
        match self {
            CommandError::EmptyCommand => "command is empty",
            CommandError::UnknownCommand => "unknown command",
            CommandError::MissingArgument => "missing argument",
            CommandError::InvalidNumber => "invalid number",
            CommandError::UndefinedVariable => "variable does not exist",
            CommandError::NonNumericVariable => "variable is not a number",
        }
    }
}

} // verus!
