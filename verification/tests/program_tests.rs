use devloop::op::{Command, ConfigError, Operation};
use devloop::program::ProgramSpec;

#[test]
fn simple_string_splits_on_whitespace() {
    let c = Command::from_simple("echo hello world").expect("valid command");
    assert_eq!(c.run.program, "echo");
    assert_eq!(c.run.args, vec!["hello".to_string(), "world".to_string()]);
    assert!(c.workdir.is_none());
}

#[test]
fn simple_string_collapses_runs_of_whitespace() {
    let c = Command::from_simple("  cargo\t build\n --release ").expect("valid command");
    assert_eq!(c.run.program, "cargo");
    assert_eq!(c.run.args, vec!["build".to_string(), "--release".to_string()]);
}

#[test]
fn simple_string_splits_on_unicode_whitespace() {
    // NO-BREAK SPACE has the Unicode White_Space property and separates
    // tokens just as ASCII whitespace does.
    let c = Command::from_simple("a\u{00A0}b").expect("valid command");
    assert_eq!(c.run.program, "a");
    assert_eq!(c.run.args, vec!["b".to_string()]);
}

#[test]
fn explicit_list_keeps_fragments() {
    let v = vec![
        "git".to_string(),
        "commit".to_string(),
        "-m".to_string(),
        "msg".to_string(),
    ];
    let c = Command::from_explicit(v).expect("valid command");
    assert_eq!(c.run.program, "git");
    assert_eq!(
        c.run.args,
        vec!["commit".to_string(), "-m".to_string(), "msg".to_string()]
    );
}

#[test]
fn empty_string_is_rejected() {
    assert_eq!(
        Command::from_simple("").unwrap_err(),
        ConfigError::EmptyCommandString
    );
    assert_eq!(
        Command::from_simple(" \t\n ").unwrap_err(),
        ConfigError::EmptyCommandString
    );
}

#[test]
fn empty_list_is_rejected() {
    assert_eq!(
        Command::from_explicit(Vec::new()).unwrap_err(),
        ConfigError::EmptyCommandList
    );
}

#[test]
fn whitespace_fragment_is_rejected() {
    let v = vec!["ls".to_string(), "  ".to_string()];
    assert_eq!(
        Command::from_explicit(v).unwrap_err(),
        ConfigError::EmptyFragment
    );
    let v = vec!["".to_string()];
    assert_eq!(
        Command::from_explicit(v).unwrap_err(),
        ConfigError::EmptyFragment
    );
}

#[test]
fn render_quotes_fragments_with_whitespace() {
    let spec = ProgramSpec {
        program: "git".to_string(),
        args: vec!["commit".to_string(), "-m".to_string(), "two words".to_string()],
    };
    assert_eq!(spec.render(), "git commit -m \"two words\"");
}

#[test]
fn render_leaves_bare_fragments_unquoted() {
    let spec = ProgramSpec {
        program: "echo".to_string(),
        args: vec!["hello".to_string()],
    };
    assert_eq!(spec.render(), "echo hello");
}

#[test]
fn render_quotes_program_with_whitespace() {
    let spec = ProgramSpec {
        program: "my app".to_string(),
        args: Vec::new(),
    };
    assert_eq!(spec.render(), "\"my app\"");
}

#[test]
fn validate_accepts_parsed_commands() {
    let c = Command::from_simple("echo hi").unwrap();
    assert!(Operation::Command(c).validate().is_ok());
}

#[test]
fn validate_rejects_blank_fragment() {
    let c = Command {
        run: ProgramSpec {
            program: "echo".to_string(),
            args: vec![" ".to_string()],
        },
        workdir: None,
    };
    assert_eq!(
        Operation::Command(c).validate().unwrap_err(),
        ConfigError::EmptyFragment
    );
}

#[test]
fn config_error_messages() {
    assert_eq!(
        ConfigError::EmptyCommandString.message(),
        "command string is empty"
    );
    assert_eq!(
        ConfigError::EmptyCommandList.message(),
        "empty list as command specification"
    );
    assert_eq!(
        ConfigError::EmptyFragment.message(),
        "empty fragment in command specification"
    );
}
