//! The `help` command.
use vstd::prelude::*;
use crate::tokens::parse::{ParseError, TokenParser};

verus! {

/// What `help` shows.
#[derive(Clone, Copy, Debug, PartialEq, Eq, Structural)]
pub enum HelpCommand {
    /// The general overview.
    General,
}

impl HelpCommand {
    /// Reads a `help` command. It takes no arguments; none are read.
    pub fn parse(_parser: &mut TokenParser) -> (r: Result<Self, ParseError>)
        ensures
            r == Ok::<HelpCommand, ParseError>(HelpCommand::General),
            final(_parser).words() == old(_parser).words(),
            final(_parser).position() == old(_parser).position(),
    {
        Ok(HelpCommand::General)
    }
}

} // verus!
