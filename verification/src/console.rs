//! Commands against the plain register: what they are made of and what they answer.
use vstd::prelude::*;
use vstd::string::*;
use crate::roster::{GameState, PlayerId};
use crate::text::{owned, split_whitespace, str_eq, words};

verus! {

/// Why the words of a command cannot be read.
#[derive(Debug)]
pub struct ParseError {
    pub message: String,
}

impl ParseError {
    pub fn new(message: &str) -> (r: Self)
        ensures
            r.message@ == message@,
    {
        Self { message: owned(message) }
    }
}

/// Why a command cannot be carried out.
#[derive(Debug)]
pub struct ValidationError {
    pub message: String,
}

impl ValidationError {
    pub fn new(message: &str) -> (r: Self)
        ensures
            r.message@ == message@,
    {
        Self { message: owned(message) }
    }
}

/// What carrying out a command answered.
#[derive(Debug)]
pub struct CommandResult {
    pub success: bool,
    pub message: String,
}

impl CommandResult {
    pub fn success(message: &str) -> (r: Self)
        ensures
            r.success,
            r.message@ == message@,
    {
        Self { success: true, message: owned(message) }
    }

    pub fn error(message: &str) -> (r: Self)
        ensures
            !r.success,
            r.message@ == message@,
    {
        Self { success: false, message: owned(message) }
    }
}

/// A command that can be read, checked and carried out.
pub trait Command: Sized {
    fn name() -> &'static str;

    fn parse(args: &[&str]) -> Result<Box<Self>, ParseError>;

    fn validate(&self, state: &GameState, player: PlayerId) -> Result<(), ValidationError>;

    fn execute(self, state: &mut GameState) -> CommandResult;

    fn completions(position: usize, args: &[&str], state: &GameState) -> Vec<String>;
}

/// What a status command reports on.
#[derive(Debug)]
pub enum StatusTarget {
    Planet { name: String },
}

/// The `status` command.
#[derive(Debug)]
pub struct StatusCommand {
    pub target: StatusTarget,
}

impl StatusTarget {
    /// The name of what the report is about.
    pub open spec fn subject(self) -> Seq<char> {
        match self {
            StatusTarget::Planet { name } => name@,
        }
    }
}

/// The wording of a line shown to the player.
pub open spec fn status_text(planet: Seq<char>) -> Seq<char> {
    "Status of planet "@ + planet
}

impl StatusCommand {
    /// Reads `planet <name>`; words beyond the name are ignored.
    pub fn parse(args: &[&str]) -> (r: Result<Box<Self>, ParseError>)
        ensures
            args@.len() >= 2 && args@[0]@ == "planet"@ ==> r.is_ok()
                && r.unwrap().target.subject() == args@[1]@,
            args@.len() == 1 && args@[0]@ == "planet"@ ==> r.is_err() && r.unwrap_err().message@
                == "Missing planet name"@,
            args@.len() == 0 ==> r.is_err() && r.unwrap_err().message@ == "Missing status target"@,
            args@.len() >= 1 && args@[0]@ != "planet"@ ==> r.is_err() && r.unwrap_err().message@
                == "Unknown status target: "@ + args@[0]@,
    {
        if args.len() == 0 {
            return Err(ParseError::new("Missing status target"));
        }
        if !str_eq(args[0], "planet") {
            let mut message = owned("Unknown status target: ");
            message.append(args[0]);
            return Err(ParseError { message });
        }
        if args.len() < 2 {
            return Err(ParseError::new("Missing planet name"));
        }
        Ok(Box::new(StatusCommand { target: StatusTarget::Planet { name: owned(args[1]) } }))
    }

    /// Answers with the line that heads the report on the target.
    pub fn execute(self, state: &GameState) -> (r: CommandResult)
        ensures
            r.success,
            r.message@ == status_text(self.target.subject()),
    {
        match self.target {
            StatusTarget::Planet { name } => {
                let mut message = owned("Status of planet ");
                message.append(name.as_str());
                CommandResult { success: true, message }
            },
        }
    }
}

/// Reads lines of input for the register's commands.
#[derive(Debug)]
pub struct CommandSystem;

impl CommandSystem {
    pub fn new() -> (r: Self) {
        CommandSystem
    }

    /// The name of the command that a line asks for: its first word.
    pub fn parse_command(&self, input: &str) -> (r: Option<String>)
        ensures
            words(input@).len() == 0 ==> r.is_none(),
            words(input@).len() > 0 ==> r.is_some() && r.unwrap()@ == words(input@)[0],
    {
        let tokens = split_whitespace(input);
        Self::command_name(&tokens)
    }

    /// The first of the words, where there is one.
    pub fn command_name(tokens: &Vec<&str>) -> (r: Option<String>)
        ensures
            tokens.len() == 0 ==> r.is_none(),
            tokens.len() > 0 ==> r.is_some() && r.unwrap()@ == tokens[0]@,
    {
        if tokens.len() == 0 {
            None
        } else {
            assert(tokens.deep_view()[0] == tokens[0]@);
            Some(owned(tokens[0]))
        }
    }
}

} // verus!
