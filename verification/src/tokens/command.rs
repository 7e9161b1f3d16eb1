//! The commands of the word-by-word reader.
use vstd::prelude::*;
use crate::text::{owned, split_whitespace, str_eq, words};
use crate::tokens::help::HelpCommand;
use crate::tokens::parse::{ParseError, ParseErrorView, TokenParser, texts};
use crate::tokens::planet::{PlanetCommand, PlanetCommandView, planet_command_of, read_view};

verus! {

/// A command as the player entered it.
#[derive(Debug, PartialEq)]
pub enum Command {
    Help(HelpCommand),
    EndTurn,
    Planet(PlanetCommand),
}

/// What a [`Command`] holds, with every text as its sequence of characters.
pub enum CommandView {
    Help(HelpCommand),
    EndTurn,
    Planet(PlanetCommandView),
}

impl DeepView for Command {
    type V = CommandView;

    open spec fn deep_view(&self) -> CommandView {
        match self {
            Command::Help(h) => CommandView::Help(*h),
            Command::EndTurn => CommandView::EndTurn,
            Command::Planet(p) => CommandView::Planet(p.deep_view()),
        }
    }
}

/// The command that a line made of the words `ws` stands for.
pub open spec fn command_of(ws: Seq<Seq<char>>) -> Result<CommandView, ParseErrorView> {
    if ws.len() == 0 {
        Err(ParseErrorView::EmptyCommand)
    } else if ws[0] == "help"@ {
        Ok(CommandView::Help(HelpCommand::General))
    } else if ws[0] == "end-turn"@ || ws[0] == "endturn"@ {
        Ok(CommandView::EndTurn)
    } else if ws[0] == "planet"@ {
        match planet_command_of(ws.skip(1)) {
            Ok(p) => Ok(CommandView::Planet(p)),
            Err(e) => Err(e),
        }
    } else {
        Err(ParseErrorView::UnknownCommand(ws[0]))
    }
}

impl Command {
    /// Reads the words of a line as a command.
    pub fn parse_tokens(tokens: &[&str]) -> (r: Result<Self, ParseError>)
        ensures
            read_view(r) == command_of(texts(tokens@)),
    {
        if tokens.len() == 0 {
            return Err(ParseError::EmptyCommand);
        }
        let mut parser = TokenParser::new(tokens);
        let main_command = match parser.next() {
            Some(t) => t,
            None => {
                return Err(ParseError::EmptyCommand);
            },
        };
        if str_eq(main_command, "help") {
            match HelpCommand::parse(&mut parser) {
                Ok(h) => Ok(Command::Help(h)),
                Err(e) => Err(e),
            }
        } else if str_eq(main_command, "end-turn") || str_eq(main_command, "endturn") {
            Ok(Command::EndTurn)
        } else if str_eq(main_command, "planet") {
            match PlanetCommand::parse(&mut parser) {
                Ok(p) => Ok(Command::Planet(p)),
                Err(e) => Err(e),
            }
        } else {
            Err(ParseError::UnknownCommand(owned(main_command)))
        }
    }

    /// Reads a line of input as a command.
    pub fn parse(input: &str) -> (r: Result<Self, ParseError>)
        ensures
            read_view(r) == command_of(words(input@)),
    {
        let tokens = split_whitespace(input);
        assert(texts(tokens@) =~= tokens.deep_view());
        Self::parse_tokens(tokens.as_slice())
    }
}

} // verus!
