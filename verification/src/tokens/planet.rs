//! The `planet` commands.
use vstd::prelude::*;
use vstd::string::*;
use crate::text::{owned, str_eq};
use crate::tokens::parse::{ParseError, ParseErrorView, TokenParser};

verus! {

/// What can be asked of a planet.
#[derive(Debug, PartialEq)]
pub enum PlanetCommand {
    /// `planet build <planet_id> <structure_type>`
    Build { planet_id: String, structure_type: String },
    /// `planet view <planet_id>`
    View { planet_id: String },
}

/// What a [`PlanetCommand`] holds, with every text as its sequence of characters.
pub enum PlanetCommandView {
    Build { planet_id: Seq<char>, structure_type: Seq<char> },
    View { planet_id: Seq<char> },
}

impl DeepView for PlanetCommand {
    type V = PlanetCommandView;

    open spec fn deep_view(&self) -> PlanetCommandView {
        match self {
            PlanetCommand::Build { planet_id, structure_type } => PlanetCommandView::Build {
                planet_id: planet_id@,
                structure_type: structure_type@,
            },
            PlanetCommand::View { planet_id } => PlanetCommandView::View { planet_id: planet_id@ },
        }
    }
}

/// The command that the words `ws` stand for: a verb and its arguments;
/// words beyond the arguments are not looked at.
pub open spec fn planet_command_of(ws: Seq<Seq<char>>) -> Result<PlanetCommandView, ParseErrorView> {
    if ws.len() == 0 {
        Err(ParseErrorView::MissingArgument("planet subcommand"@))
    } else if ws[0] == "build"@ {
        if ws.len() < 2 {
            Err(ParseErrorView::MissingArgument("planet_id"@))
        } else if ws.len() < 3 {
            Err(ParseErrorView::MissingArgument("structure_type"@))
        } else {
            Ok(PlanetCommandView::Build { planet_id: ws[1], structure_type: ws[2] })
        }
    } else if ws[0] == "view"@ {
        if ws.len() < 2 {
            Err(ParseErrorView::MissingArgument("planet_id"@))
        } else {
            Ok(PlanetCommandView::View { planet_id: ws[1] })
        }
    } else {
        Err(ParseErrorView::UnknownCommand("planet "@ + ws[0]))
    }
}

/// How many of the words `ws` reading a planet command takes: the verb and
/// as many of its arguments as are there, up to what the verb needs.
pub open spec fn words_taken(ws: Seq<Seq<char>>) -> nat {
    if ws.len() == 0 {
        0
    } else if ws[0] == "build"@ {
        if ws.len() < 3 {
            ws.len()
        } else {
            3
        }
    } else if ws[0] == "view"@ {
        if ws.len() < 2 {
            1
        } else {
            2
        }
    } else {
        1
    }
}

/// The view of what was read.
pub open spec fn read_view<T: DeepView>(r: Result<T, ParseError>) -> Result<T::V, ParseErrorView> {
    match r {
        Ok(v) => Ok(v.deep_view()),
        Err(e) => Err(e.deep_view()),
    }
}

impl PlanetCommand {
    /// Reads a planet command from the words that are left, and leaves the
    /// parser behind the last word that it took.
    pub fn parse(parser: &mut TokenParser) -> (r: Result<Self, ParseError>)
        ensures
            old(parser).position() <= old(parser).words().len(),
            read_view(r) == planet_command_of(
                old(parser).words().skip(old(parser).position() as int),
            ),
            final(parser).words() == old(parser).words(),
            final(parser).position() == old(parser).position() + words_taken(
                old(parser).words().skip(old(parser).position() as int),
            ),
    {
        let ghost ws = parser.words().skip(parser.position() as int);
        let subcommand = match parser.expect("planet subcommand") {
            Ok(t) => t,
            Err(e) => {
                return Err(e);
            },
        };
        assert(ws[0] == subcommand@);
        if str_eq(subcommand, "build") {
            let planet_id = match parser.expect("planet_id") {
                Ok(t) => owned(t),
                Err(e) => {
                    return Err(e);
                },
            };
            assert(ws[1] == planet_id@);
            let structure_type = match parser.expect("structure_type") {
                Ok(t) => owned(t),
                Err(e) => {
                    return Err(e);
                },
            };
            assert(ws[2] == structure_type@);
            Ok(PlanetCommand::Build { planet_id, structure_type })
        } else if str_eq(subcommand, "view") {
            let planet_id = match parser.expect("planet_id") {
                Ok(t) => owned(t),
                Err(e) => {
                    return Err(e);
                },
            };
            assert(ws[1] == planet_id@);
            Ok(PlanetCommand::View { planet_id })
        } else {
            let mut name = owned("planet ");
            name.append(subcommand);
            Err(ParseError::UnknownCommand(name))
        }
    }
}

} // verus!
