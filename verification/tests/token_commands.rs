use colony_core::tokens::command::Command;
use colony_core::tokens::help::HelpCommand;
use colony_core::tokens::parse::{ParseError, TokenParser};
use colony_core::tokens::planet::PlanetCommand;

#[test]
fn commands_test_parse_help() {
    assert_eq!(Command::parse("help"), Ok(Command::Help(HelpCommand::General)));
}

#[test]
fn test_parse_end_turn() {
    assert_eq!(Command::parse("end-turn"), Ok(Command::EndTurn));
    assert_eq!(Command::parse("endturn"), Ok(Command::EndTurn));
}

#[test]
fn commands_test_parse_planet_build() {
    let result = Command::parse("planet build p123 mine");
    assert!(matches!(result, Ok(Command::Planet(PlanetCommand::Build { .. }))));
}

#[test]
fn commands_test_parse_planet_view() {
    let result = Command::parse("planet view p123");
    assert!(matches!(result, Ok(Command::Planet(PlanetCommand::View { .. }))));
}

#[test]
fn test_parse_empty_command() {
    assert_eq!(Command::parse(""), Err(ParseError::EmptyCommand));
    assert_eq!(Command::parse("   "), Err(ParseError::EmptyCommand));
}

#[test]
fn test_parse_unknown_command() {
    let result = Command::parse("destroy p123");
    assert!(matches!(result, Err(ParseError::UnknownCommand(_))));
}

#[test]
fn help_test_parse_help() {
    let tokens = vec![];
    let mut parser = TokenParser::new(&tokens);
    let result = HelpCommand::parse(&mut parser);
    assert_eq!(result, Ok(HelpCommand::General));
}

#[test]
fn planet_test_parse_planet_build() {
    let tokens = vec!["build", "p123", "mine"];
    let mut parser = TokenParser::new(&tokens);
    let result = PlanetCommand::parse(&mut parser);
    assert_eq!(
        result,
        Ok(PlanetCommand::Build {
            planet_id: "p123".to_string(),
            structure_type: "mine".to_string(),
        })
    );
}

#[test]
fn planet_test_parse_planet_view() {
    let tokens = vec!["view", "p123"];
    let mut parser = TokenParser::new(&tokens);
    let result = PlanetCommand::parse(&mut parser);
    assert_eq!(
        result,
        Ok(PlanetCommand::View {
            planet_id: "p123".to_string(),
        })
    );
}

#[test]
fn test_parse_planet_build_missing_args() {
    let tokens = vec!["build", "p123"];
    let mut parser = TokenParser::new(&tokens);
    let result = PlanetCommand::parse(&mut parser);
    assert!(result.is_err());
}

#[test]
fn test_parse_unknown_planet_command() {
    let tokens = vec!["destroy", "p123"];
    let mut parser = TokenParser::new(&tokens);
    let result = PlanetCommand::parse(&mut parser);
    assert!(matches!(result, Err(ParseError::UnknownCommand(_))));
}

#[test]
fn token_parser_walks_its_words() {
    let tokens = vec!["a", "b", "c"];
    let mut parser = TokenParser::new(&tokens);
    assert_eq!(parser.peek(), Some("a"));
    assert_eq!(parser.next(), Some("a"));
    assert!(parser.has_remaining());
    assert_eq!(parser.remaining(), &["b", "c"]);
    assert_eq!(parser.expect("second"), Ok("b"));
    assert_eq!(parser.next(), Some("c"));
    assert_eq!(parser.next(), None);
    assert_eq!(parser.peek(), None);
    assert!(!parser.has_remaining());
    assert_eq!(parser.expect("fourth"), Err(ParseError::MissingArgument("fourth".to_string())));
    assert!(parser.remaining().is_empty());
}

#[test]
fn parse_errors_read_as_text() {
    assert_eq!(
        ParseError::EmptyCommand.message(),
        "Empty command - type 'help' for available commands"
    );
    assert_eq!(
        ParseError::UnknownCommand("fly".to_string()).message(),
        "Unknown command: 'fly'. Type 'help' for available commands"
    );
    assert_eq!(
        ParseError::InvalidSyntax { command: "planet".to_string(), reason: "why".to_string() }
            .message(),
        "Invalid syntax for 'planet': why"
    );
    assert_eq!(
        ParseError::MissingArgument("planet_id".to_string()).message(),
        "Missing required argument: planet_id"
    );
    assert_eq!(
        Command::parse("planet fly p1"),
        Err(ParseError::UnknownCommand("planet fly".to_string()))
    );
    assert_eq!(
        Command::parse("planet"),
        Err(ParseError::MissingArgument("planet subcommand".to_string()))
    );
}
