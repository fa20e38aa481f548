use clap::{Arg, ArgAction, Command};
use snapctx::cli::Cli;
use std::path::PathBuf;

fn parse(args: Vec<&str>) -> Cli {
    let matches = Command::new("snapctx")
        .arg(Arg::new("project_path").required(true))
        .arg(Arg::new("batch_mode").long("batch-mode").action(ArgAction::SetTrue))
        .get_matches_from(args);
    Cli {
        project_path: matches.get_one::<String>("project_path").unwrap().clone(),
        batch_mode: matches.get_flag("batch_mode"),
    }
}

#[test]
fn test_cli_parsing() {
    let args = vec!["scx", "/test/path", "--batch-mode"];
    let cli = parse(args);

    assert_eq!(PathBuf::from(&cli.project_path), PathBuf::from("/test/path"));
    assert!(cli.batch_mode);
}

#[test]
fn batch_mode_is_off_unless_asked_for() {
    let cli = parse(vec!["scx", "."]);
    assert_eq!(cli.project_path, ".");
    assert!(!cli.batch_mode);
}
