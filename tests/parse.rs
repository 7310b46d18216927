use cli_parser::{CommandLine, CommandLineProgram};

fn args(items: &[&str]) -> Vec<String> {
    items.iter().map(|s| s.to_string()).collect()
}

fn main_of(p: CommandLineProgram) -> CommandLine {
    match p {
        CommandLineProgram::Main(c) => c,
        CommandLineProgram::Help => panic!("expected a normal run, got help"),
        CommandLineProgram::Version => panic!("expected a normal run, got version"),
    }
}

#[test]
fn unrecognized_arguments_run_without_debug() {
    let input = args(&["prog", "input.txt", "-x", "--verbose", "h", "-help"]);
    let c = main_of(CommandLineProgram::parse(input.clone()));
    assert_eq!(c.args, input);
    assert!(!c.debug);
}

#[test]
fn help_after_plain_arguments() {
    let p = CommandLineProgram::parse(args(&["prog", "a", "-d", "-h", "b"]));
    assert!(matches!(p, CommandLineProgram::Help));
}

#[test]
fn long_help_wins_over_later_version() {
    let p = CommandLineProgram::parse(args(&["--help", "-v"]));
    assert!(matches!(p, CommandLineProgram::Help));
}

#[test]
fn version_wins_over_later_help() {
    let p = CommandLineProgram::parse(args(&["prog", "-v", "--help"]));
    assert!(matches!(p, CommandLineProgram::Version));
}

#[test]
fn long_version_selects_version() {
    let p = CommandLineProgram::parse(args(&["prog", "--version"]));
    assert!(matches!(p, CommandLineProgram::Version));
}

#[test]
fn debug_without_terminal_turns_debug_on() {
    let input = args(&["prog", "--debug", "x"]);
    let c = main_of(CommandLineProgram::parse(input.clone()));
    assert_eq!(c.args, input);
    assert!(c.debug);
}

#[test]
fn repeated_debug_same_as_single() {
    let once = main_of(CommandLineProgram::parse(args(&["prog", "-d", "x"])));
    let twice = main_of(CommandLineProgram::parse(args(&["prog", "-d", "x", "--debug", "-d"])));
    assert_eq!(once.debug, twice.debug);
    assert!(twice.debug);
    assert_eq!(twice.args, args(&["prog", "-d", "x", "--debug", "-d"]));
}

#[test]
fn debug_before_version_gives_version() {
    let p = CommandLineProgram::parse(args(&["--debug", "--version"]));
    assert!(matches!(p, CommandLineProgram::Version));
}

#[test]
fn version_before_debug_gives_version() {
    let p = CommandLineProgram::parse(args(&["--version", "--debug"]));
    assert!(matches!(p, CommandLineProgram::Version));
}

#[test]
fn empty_arguments_run_without_debug() {
    let c = main_of(CommandLineProgram::parse(Vec::new()));
    assert!(c.args.is_empty());
    assert!(!c.debug);
}

#[test]
fn file_and_short_debug() {
    let c = main_of(CommandLineProgram::parse(args(&["prog", "file.txt", "-d"])));
    assert_eq!(c.args, args(&["prog", "file.txt", "-d"]));
    assert!(c.debug);
}

#[test]
fn program_then_long_help() {
    let p = CommandLineProgram::parse(args(&["prog", "--help"]));
    assert!(matches!(p, CommandLineProgram::Help));
}

#[test]
fn unknown_flag_then_short_version() {
    let p = CommandLineProgram::parse(args(&["prog", "-x", "-v"]));
    assert!(matches!(p, CommandLineProgram::Version));
}

#[test]
fn flags_are_case_sensitive() {
    let c = main_of(CommandLineProgram::parse(args(&["-H", "--HELP", "-V", "-D", "--Debug"])));
    assert!(!c.debug);
    assert_eq!(c.args.len(), 5);
}

#[test]
fn non_ascii_arguments_are_kept() {
    let input = args(&["prög", "ü-d", "-d"]);
    let c = main_of(CommandLineProgram::parse(input.clone()));
    assert_eq!(c.args, input);
    assert!(c.debug);
}
