//! Walking over the words of a command.
use vstd::prelude::*;
use vstd::slice::slice_subrange;
use crate::text::owned;

verus! {

/// Why a command cannot be read.
#[derive(Debug, PartialEq)]
pub enum ParseError {
    EmptyCommand,
    UnknownCommand(String),
    InvalidSyntax { command: String, reason: String },
    MissingArgument(String),
}

/// What a [`ParseError`] holds, with every text as its sequence of characters.
pub enum ParseErrorView {
    EmptyCommand,
    UnknownCommand(Seq<char>),
    InvalidSyntax { command: Seq<char>, reason: Seq<char> },
    MissingArgument(Seq<char>),
}

impl DeepView for ParseError {
    type V = ParseErrorView;

    open spec fn deep_view(&self) -> ParseErrorView {
        match self {
            ParseError::EmptyCommand => ParseErrorView::EmptyCommand,
            ParseError::UnknownCommand(s) => ParseErrorView::UnknownCommand(s@),
            ParseError::InvalidSyntax { command, reason } => ParseErrorView::InvalidSyntax {
                command: command@,
                reason: reason@,
            },
            ParseError::MissingArgument(s) => ParseErrorView::MissingArgument(s@),
        }
    }
}

/// How a reading error reads in reports.
pub open spec fn parse_error_text(e: ParseErrorView) -> Seq<char> {
    match e {
        ParseErrorView::EmptyCommand => "Empty command - type 'help' for available commands"@,
        ParseErrorView::UnknownCommand(s) => "Unknown command: '"@ + s
            + "'. Type 'help' for available commands"@,
        ParseErrorView::InvalidSyntax { command, reason } => "Invalid syntax for '"@ + command
            + "': "@ + reason,
        ParseErrorView::MissingArgument(s) => "Missing required argument: "@ + s,
    }
}

impl ParseError {
    /// The error as one line of text.
    pub fn message(&self) -> (s: String)
        ensures
            s@ == parse_error_text(self.deep_view()),
    {
        match self {
            ParseError::EmptyCommand => owned("Empty command - type 'help' for available commands"),
            ParseError::UnknownCommand(name) => {
                let mut s = owned("Unknown command: '");
                vstd::string::StringExecFns::append(&mut s, name.as_str());
                vstd::string::StringExecFns::append(&mut s, "'. Type 'help' for available commands");
                s
            },
            ParseError::InvalidSyntax { command, reason } => {
                let mut s = owned("Invalid syntax for '");
                vstd::string::StringExecFns::append(&mut s, command.as_str());
                vstd::string::StringExecFns::append(&mut s, "': ");
                vstd::string::StringExecFns::append(&mut s, reason.as_str());
                s
            },
            ParseError::MissingArgument(name) => {
                let mut s = owned("Missing required argument: ");
                vstd::string::StringExecFns::append(&mut s, name.as_str());
                s
            },
        }
    }
}

/// The texts of a list of words.
pub open spec fn texts(tokens: Seq<&str>) -> Seq<Seq<char>> {
    Seq::new(tokens.len(), |i: int| tokens[i]@)
}

/// The words of a command and how far they have been read.
pub struct TokenParser<'a> {
    tokens: &'a [&'a str],
    position: usize,
}

impl<'a> TokenParser<'a> {
    #[verifier::type_invariant]
    closed spec fn inv(self) -> bool {
        self.position <= self.tokens@.len()
    }

    /// All the words.
    pub closed spec fn words(self) -> Seq<Seq<char>> {
        texts(self.tokens@)
    }

    /// How many words have been read; never more than there are.
    pub closed spec fn position(self) -> nat {
        self.position as nat
    }

    /// The word that is read next, where one is left.
    pub open spec fn upcoming(self) -> Option<Seq<char>> {
        if self.position() < self.words().len() {
            Some(self.words()[self.position() as int])
        } else {
            None
        }
    }

    /// A reader at the first of `tokens`.
    pub fn new(tokens: &'a [&'a str]) -> (r: Self)
        ensures
            r.words() == texts(tokens@),
            r.position() == 0,
    {
        Self { tokens, position: 0 }
    }

    /// The next word, which stays unread.
    pub fn peek(&self) -> (r: Option<&'a str>)
        ensures
            self.position() <= self.words().len(),
            match r {
                Some(t) => self.upcoming() == Some(t@),
                None => self.upcoming().is_none(),
            },
    {
        proof {
            use_type_invariant(self);
        }
        if self.position < self.tokens.len() {
            Some(self.tokens[self.position])
        } else {
            None
        }
    }

    /// Reads the next word, where one is left.
    pub fn next(&mut self) -> (r: Option<&'a str>)
        ensures
            old(self).position() <= old(self).words().len(),
            final(self).words() == old(self).words(),
            match r {
                Some(t) => old(self).upcoming() == Some(t@) && final(self).position() == old(
                    self,
                ).position() + 1,
                None => old(self).upcoming().is_none() && final(self).position() == old(
                    self,
                ).position(),
            },
    {
        proof {
            use_type_invariant(&*self);
        }
        if self.position < self.tokens.len() {
            let token = self.tokens[self.position];
            self.position += 1;
            Some(token)
        } else {
            None
        }
    }

    /// Reads the next word, or reports `arg_name` as missing.
    pub fn expect(&mut self, arg_name: &str) -> (r: Result<&'a str, ParseError>)
        ensures
            old(self).position() <= old(self).words().len(),
            final(self).words() == old(self).words(),
            match r {
                Ok(t) => old(self).upcoming() == Some(t@) && final(self).position() == old(
                    self,
                ).position() + 1,
                Err(e) => old(self).upcoming().is_none() && final(self).position() == old(
                    self,
                ).position() && e.deep_view() == ParseErrorView::MissingArgument(arg_name@),
            },
    {
        match self.next() {
            Some(t) => Ok(t),
            None => Err(ParseError::MissingArgument(owned(arg_name))),
        }
    }

    /// Whether a word is left to read.
    pub fn has_remaining(&self) -> (r: bool)
        ensures
            r == self.upcoming().is_some(),
    {
        self.position < self.tokens.len()
    }

    /// The words that are left to read.
    pub fn remaining(&self) -> (r: &'a [&'a str])
        ensures
            self.position() <= self.words().len(),
            texts(r@) == self.words().skip(self.position() as int),
    {
        proof {
            use_type_invariant(self);
        }
        let rest = slice_subrange(self.tokens, self.position, self.tokens.len());
        assert(texts(rest@) =~= self.words().skip(self.position() as int));
        rest
    }
}

} // verus!
