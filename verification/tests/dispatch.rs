use clot::token::{Cursor, Token};
use clot::{Clot, Outcome};

fn cursor_of(words: &[&str]) -> Cursor {
    let toks: Vec<Token> = words.iter().map(|w| Token::Text(w.to_string())).collect();
    Cursor::new(toks)
}

#[test]
fn single_level_name_runs_handler() {
    let root = Clot::new("Example program").cmd("hello", Clot::new("Print hello world").run(1));
    let out = root.execute_with("prog", cursor_of(&["hello"]));
    assert_eq!(out, Outcome::Run(1));
}

#[test]
fn hyphenated_names_run_handler() {
    let root = Clot::new("Example")
        .cmd("two-words", Clot::new("Two words").run(1))
        .cmd("three-word-name", Clot::new("Three words").run(2));
    let out = root.execute_with("prog", cursor_of(&["two-words"]));
    assert_eq!(out, Outcome::Run(1));
    let out = root.execute_with("prog", cursor_of(&["three-word-name"]));
    assert_eq!(out, Outcome::Run(2));
}

#[test]
fn other_token_is_unexpected() {
    let root = Clot::new("Example program").cmd("hello", Clot::new("Print hello world").run(1));
    let out = root.execute_with("prog", cursor_of(&["bogus"]));
    assert_eq!(
        out,
        Outcome::Unexpected { program: "prog".to_string(), arg: "bogus".to_string() }
    );
}

#[test]
fn unmatched_token_runs_no_handler_even_with_terminal() {
    let root = Clot::new("Example program")
        .cmd("hello", Clot::new("Print hello world").run(1))
        .run(9);
    let out = root.execute_with("prog", cursor_of(&["bogus"]));
    assert_eq!(
        out,
        Outcome::Unexpected { program: "prog".to_string(), arg: "bogus".to_string() }
    );
}

#[test]
fn two_level_tree_reaches_leaf_handler() {
    let root = Clot::new("root").cmd(
        "build",
        Clot::new("Build things").cmd("release", Clot::new("Release build").run(7)),
    );
    let out = root.execute_with("prog", cursor_of(&["build", "release"]));
    assert_eq!(out, Outcome::Run(7));
}

#[test]
fn two_level_tree_reports_bogus_leaf() {
    let root = Clot::new("root").cmd(
        "build",
        Clot::new("Build things").cmd("release", Clot::new("Release build").run(7)),
    );
    let out = root.execute_with("prog", cursor_of(&["build", "bogus"]));
    // The nested level reports under its own name.
    assert_eq!(
        out,
        Outcome::Unexpected { program: "build".to_string(), arg: "bogus".to_string() }
    );
}

#[test]
fn two_level_tree_no_tokens_renders_root_help() {
    let root = Clot::new("root").cmd(
        "build",
        Clot::new("Build things").cmd("release", Clot::new("Release build").run(7)),
    );
    let out = root.execute_with("prog", cursor_of(&[]));
    match out {
        Outcome::Help(text) => assert!(text.starts_with("root\n\nUsage:\n")),
        other => panic!("expected help, got {:?}", other),
    }
}

#[test]
fn no_tokens_runs_terminal_handler() {
    let root = Clot::new("Example program").run(3);
    let out = root.execute_with("prog", cursor_of(&[]));
    assert_eq!(out, Outcome::Run(3));
}

#[test]
fn earlier_declared_command_wins() {
    let root = Clot::new("Example")
        .cmd("same", Clot::new("First").run(1))
        .cmd("same", Clot::new("Second").run(2));
    let out = root.execute_with("prog", cursor_of(&["same"]));
    assert_eq!(out, Outcome::Run(1));
}

#[test]
fn non_unicode_token_is_unexpected() {
    let root = Clot::new("Example program").cmd("hello", Clot::new("Print hello world").run(1));
    let toks = vec![Token::NotUnicode("he\u{fffd}llo".to_string())];
    let out = root.execute_with("prog", Cursor::new(toks));
    assert_eq!(
        out,
        Outcome::Unexpected { program: "prog".to_string(), arg: "he\u{fffd}llo".to_string() }
    );
}

#[test]
fn field_level_matches_double_dash_name() {
    let root = Clot::new("With fields").field().cmd("sub", Clot::new("Sub desc").run(4));
    let out = root.execute_with("prog", cursor_of(&["--sub"]));
    assert_eq!(out, Outcome::Run(4));
}

#[test]
fn field_level_rejects_bare_name() {
    let root = Clot::new("With fields").field().cmd("sub", Clot::new("Sub desc").run(4));
    let out = root.execute_with("prog", cursor_of(&["sub"]));
    assert_eq!(
        out,
        Outcome::Unexpected { program: "prog".to_string(), arg: "sub".to_string() }
    );
}

#[test]
fn field_level_rejects_bare_help() {
    let root = Clot::new("With fields").field().cmd("sub", Clot::new("Sub desc").run(4));
    let out = root.execute_with("prog", cursor_of(&["help"]));
    assert_eq!(
        out,
        Outcome::Unexpected { program: "prog".to_string(), arg: "help".to_string() }
    );
}

#[test]
fn trailing_token_after_help_is_unexpected() {
    let root = Clot::new("Example program").cmd("hello", Clot::new("Print hello world").run(1));
    let out = root.execute_with("prog", cursor_of(&["--help", "extra"]));
    assert_eq!(
        out,
        Outcome::Unexpected { program: "prog".to_string(), arg: "extra".to_string() }
    );
}

#[test]
fn extra_token_after_matched_leaf_is_unexpected() {
    let root = Clot::new("Example program").cmd("hello", Clot::new("Print hello world").run(1));
    let out = root.execute_with("prog", cursor_of(&["hello", "extra"]));
    // The matched subcommand reports under its own name.
    assert_eq!(
        out,
        Outcome::Unexpected { program: "hello".to_string(), arg: "extra".to_string() }
    );
}

#[test]
fn subcommand_level_help_token_renders_sub_help() {
    let root = Clot::new("root").cmd(
        "build",
        Clot::new("Build things").cmd("release", Clot::new("Release build").run(7)),
    );
    let out = root.execute_with("prog", cursor_of(&["build", "--help"]));
    match out {
        Outcome::Help(text) => assert!(text.starts_with("Build things\n\nUsage:\n")),
        other => panic!("expected help, got {:?}", other),
    }
}
