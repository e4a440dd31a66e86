use did::cli::{parse_command, CliError, Command};
use did::config::resolve_db_path;

fn args(words: &[&str]) -> Vec<String> {
    words.iter().map(|w| w.to_string()).collect()
}

#[test]
fn parse_add() {
    let r = parse_command(&args(&["add", "wrote design doc"]));
    assert_eq!(r, Ok(Command::Add { task: "wrote design doc".to_string() }));
}

#[test]
fn parse_add_alias() {
    let r = parse_command(&args(&["a", "x"]));
    assert_eq!(r, Ok(Command::Add { task: "x".to_string() }));
}

#[test]
fn parse_today_and_alias() {
    assert_eq!(parse_command(&args(&["today"])), Ok(Command::Today));
    assert_eq!(parse_command(&args(&["t"])), Ok(Command::Today));
}

#[test]
fn parse_yesterday_and_alias() {
    assert_eq!(parse_command(&args(&["yesterday"])), Ok(Command::Yesterday));
    assert_eq!(parse_command(&args(&["y"])), Ok(Command::Yesterday));
}

#[test]
fn parse_date() {
    let r = parse_command(&args(&["date", "2024-01"]));
    assert_eq!(r, Ok(Command::Date { date: "2024-01".to_string() }));
}

#[test]
fn parse_missing_command() {
    assert_eq!(parse_command(&args(&[])), Err(CliError::MissingCommand));
}

#[test]
fn parse_unknown_command() {
    assert_eq!(parse_command(&args(&["frobnicate"])), Err(CliError::UnknownCommand));
    assert_eq!(parse_command(&args(&["ADD", "x"])), Err(CliError::UnknownCommand));
}

#[test]
fn parse_missing_argument() {
    assert_eq!(parse_command(&args(&["add"])), Err(CliError::MissingArgument));
    assert_eq!(parse_command(&args(&["date"])), Err(CliError::MissingArgument));
}

#[test]
fn parse_extra_argument() {
    assert_eq!(parse_command(&args(&["add", "x", "y"])), Err(CliError::ExtraArgument));
    assert_eq!(parse_command(&args(&["today", "x"])), Err(CliError::ExtraArgument));
    assert_eq!(parse_command(&args(&["yesterday", "x"])), Err(CliError::ExtraArgument));
    assert_eq!(parse_command(&args(&["date", "2024", "2025"])), Err(CliError::ExtraArgument));
}

#[test]
fn resolve_with_override() {
    let loc = resolve_db_path(Some("/custom/p.db".to_string()), Some("/home/u/.data".to_string()));
    assert!(loc.create_dir.is_none());
    assert_eq!(loc.db_file, "/custom/p.db");
}

#[test]
fn resolve_with_data_dir() {
    let loc = resolve_db_path(None, Some("/home/u/.local/share".to_string()));
    assert_eq!(loc.create_dir.as_deref(), Some("/home/u/.local/share/did"));
    assert_eq!(loc.db_file, "/home/u/.local/share/did/did.db");
}

#[test]
fn resolve_without_data_dir() {
    let loc = resolve_db_path(None, None);
    assert_eq!(loc.create_dir.as_deref(), Some("./did"));
    assert_eq!(loc.db_file, "./did/did.db");
}
