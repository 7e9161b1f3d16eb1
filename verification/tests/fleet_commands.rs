use colony_core::commands::command::CommandError;
use colony_core::commands::fleet::{FleetAction, FleetArgs};
use colony_core::commands::parser::Parseable;

#[test]
fn test_parse_bombard_command() {
    let args = vec!["bombard", "fleet_alpha"];
    let result = FleetArgs::parse(args);

    assert!(result.is_ok());
    let parsed = result.unwrap();
    match parsed.action {
        FleetAction::Bombard { fleet_id } => {
            assert_eq!(fleet_id, "fleet_alpha");
        }
        _ => panic!("Expected Bombard action"),
    }
}

#[test]
fn test_parse_bombard_missing_fleet_id() {
    let args = vec!["bombard"];
    let result = FleetArgs::parse(args);

    assert!(result.is_err());
    match result.unwrap_err() {
        CommandError::MissingArguments { command, expected } => {
            assert_eq!(command, "fleet bombard");
            assert!(expected.contains("fleet bombard <fleet_id>"));
        }
        _ => panic!("Expected MissingArguments error"),
    }
}

#[test]
fn test_parse_bombard_in_help_message() {
    let args = vec!["invalid_action"];
    let result = FleetArgs::parse(args);

    assert!(result.is_err());
    match result.unwrap_err() {
        CommandError::InvalidArgument { command, argument, reason } => {
            assert_eq!(command, "fleet");
            assert_eq!(argument, "invalid_action");
            assert!(reason.contains("bombard"));
        }
        _ => panic!("Expected InvalidArgument error"),
    }
}

#[test]
fn test_parse_cancel_bombard_command() {
    let args = vec!["cancel-bombard", "fleet_alpha"];
    let result = FleetArgs::parse(args);

    assert!(result.is_ok());
    let parsed = result.unwrap();
    match parsed.action {
        FleetAction::CancelBombard { fleet_id } => {
            assert_eq!(fleet_id, "fleet_alpha");
        }
        _ => panic!("Expected CancelBombard action"),
    }
}

#[test]
fn test_parse_cancel_bombard_missing_fleet_id() {
    let args = vec!["cancel-bombard"];
    let result = FleetArgs::parse(args);

    assert!(result.is_err());
    match result.unwrap_err() {
        CommandError::MissingArguments { command, expected } => {
            assert_eq!(command, "fleet cancel-bombard");
            assert!(expected.contains("fleet cancel-bombard <fleet_id>"));
        }
        _ => panic!("Expected MissingArguments error"),
    }
}

#[test]
fn test_parse_cancel_bombard_in_help_message() {
    let args = vec!["invalid_action"];
    let result = FleetArgs::parse(args);

    assert!(result.is_err());
    match result.unwrap_err() {
        CommandError::InvalidArgument { command, argument, reason } => {
            assert_eq!(command, "fleet");
            assert_eq!(argument, "invalid_action");
            assert!(reason.contains("cancel-bombard"));
        }
        _ => panic!("Expected InvalidArgument error"),
    }
}

#[test]
fn test_parse_colonize_command() {
    let args = vec!["colonize", "fleet_alpha"];
    let result = FleetArgs::parse(args);

    assert!(result.is_ok());
    let parsed = result.unwrap();
    match parsed.action {
        FleetAction::Colonize { fleet_id } => {
            assert_eq!(fleet_id, "fleet_alpha");
        }
        _ => panic!("Expected Colonize action"),
    }
}

#[test]
fn test_parse_colonize_missing_fleet_id() {
    let args = vec!["colonize"];
    let result = FleetArgs::parse(args);

    assert!(result.is_err());
    match result.unwrap_err() {
        CommandError::MissingArguments { command, expected } => {
            assert_eq!(command, "fleet colonize");
            assert!(expected.contains("fleet colonize <fleet_id>"));
        }
        _ => panic!("Expected MissingArguments error"),
    }
}

#[test]
fn test_parse_colonize_in_help_message() {
    let args = vec!["invalid_action"];
    let result = FleetArgs::parse(args);

    assert!(result.is_err());
    match result.unwrap_err() {
        CommandError::InvalidArgument { command, argument, reason } => {
            assert_eq!(command, "fleet");
            assert_eq!(argument, "invalid_action");
            assert!(reason.contains("colonize"));
        }
        _ => panic!("Expected InvalidArgument error"),
    }
}
