use clot::node::{Help, Node};
use clot::os_str::{Error, Utf8Error};
use clot::token::{Cursor, Token};
use clot::{flag_is_valid, name_is_valid, Clot, Opts};

#[test]
fn valid_names_are_accepted() {
    for name in ["hello", "a", "two-words", "one-two-three", "zz", "a--b"] {
        assert!(name_is_valid(name), "{name} should be valid");
    }
}

#[test]
fn uppercase_name_fails_at_build_time() {
    assert!(!name_is_valid("Hello"));
    assert!(!name_is_valid("helLo"));
}

#[test]
fn digit_name_fails_at_build_time() {
    assert!(!name_is_valid("hello1"));
    assert!(!name_is_valid("2fast"));
}

#[test]
fn leading_or_trailing_dash_fails_at_build_time() {
    assert!(!name_is_valid("-hello"));
    assert!(!name_is_valid("hello-"));
    assert!(!name_is_valid("-"));
    assert!(!name_is_valid("--help"));
}

#[test]
fn empty_or_long_name_fails_at_build_time() {
    assert!(!name_is_valid(""));
    assert!(!name_is_valid("one-two-three-four"));
}

#[test]
fn name_with_other_characters_fails_at_build_time() {
    assert!(!name_is_valid("hello world"));
    assert!(!name_is_valid("h_llo"));
    assert!(!name_is_valid("h\u{e9}llo"));
}

#[test]
fn flag_outside_lowercase_fails_at_build_time() {
    assert!(!flag_is_valid('A'));
    assert!(!flag_is_valid('Z'));
    assert!(!flag_is_valid('1'));
    assert!(!flag_is_valid('-'));
    assert!(!flag_is_valid('{'));
    assert!(!flag_is_valid('`'));
}

#[test]
fn lowercase_flags_are_accepted() {
    assert!(flag_is_valid('a'));
    assert!(flag_is_valid('m'));
    assert!(flag_is_valid('z'));
}

#[test]
fn common_flag_constants_are_valid() {
    for c in [
        clot::flags::ALPHABETICAL,
        clot::flags::FORCE,
        clot::flags::QUIET,
        clot::flags::VERBOSE,
        clot::flags::COMPRESSED,
    ] {
        assert!(flag_is_valid(c));
    }
}

#[test]
fn common_parameter_constant() {
    assert_eq!(clot::params::VERBOSITY, "verbosity");
}

#[test]
fn declarations_show_in_level_queries() {
    let c = Clot::new("desc");
    assert!(!c.has_fields() && !c.has_flags() && !c.has_params());
    let c = c.field();
    assert!(c.has_fields());
    let c = c.flag('v');
    assert!(c.has_flags());
    let c = c.param("verbosity");
    assert!(c.has_params());
}

#[test]
fn conversion_error_wraps_generic() {
    let e: Error<u8> = Error::from(3u8);
    assert!(matches!(e, Error::Generic(3)));
    let u: Error<u8> = Error::Utf8;
    assert!(matches!(u, Error::Utf8));
    let _not_text = Utf8Error;
}

#[test]
fn opts_view_answers_absent() {
    let n = Node::Help(Help::new("desc"));
    assert!(!n.flag('v'));
    assert!(n.param("verbosity").is_none());
    assert!(n.field(0).is_none());
}

#[test]
fn cursor_hands_tokens_out_in_order() {
    let mut c = Cursor::new(vec![
        Token::Text("a".to_string()),
        Token::NotUnicode("b".to_string()),
    ]);
    assert!(!c.is_empty());
    assert_eq!(c.next(), Token::Text("a".to_string()));
    assert_eq!(c.next(), Token::NotUnicode("b".to_string()));
    assert!(c.is_empty());
}

#[test]
fn token_display_forms() {
    assert_eq!(Token::Text("x".to_string()).display(), "x");
    assert_eq!(Token::NotUnicode("y".to_string()).display(), "y");
    assert_eq!(Token::Text("x".to_string()).into_display(), "x");
}
