//! Tests for the interpolation engine: resolving, unescaping, escaping
//! and validating reference strings against an explicit environment.

use compose_yml::Environment;
use compose_yml::InterpolationError;
use compose_yml::escape_str;
use compose_yml::interpolate_env;
use compose_yml::unescape_str;
use compose_yml::validate;

fn env_with(pairs: &[(&str, &str)]) -> Environment {
    let mut env = Environment::new();
    for (name, value) in pairs {
        env.set(name, value);
    }
    env
}

#[test]
fn interpolate_env_interpolates_env_vars() {
    let env = env_with(&[("FOO", "foo")]);

    assert_eq!("foo", interpolate_env("$FOO", &env).unwrap());
    assert_eq!("foo", interpolate_env("${FOO}", &env).unwrap());
    assert_eq!("foo foo", interpolate_env("$FOO $FOO", &env).unwrap());
    assert_eq!("plain", interpolate_env("plain", &env).unwrap());
    assert_eq!("$escaped", interpolate_env("$$escaped", &env).unwrap());
    assert_eq!("${escaped}", interpolate_env("$${escaped}", &env).unwrap());
}

#[test]
fn interpolate_env_returns_an_error_if_input_is_invalid() {
    let env = Environment::new();
    assert!(interpolate_env("${", &env).is_err());
    assert!(interpolate_env("$}", &env).is_err());
    assert!(interpolate_env("${}", &env).is_err());
    assert!(interpolate_env("${ }", &env).is_err());
    assert!(interpolate_env("${ foo}", &env).is_err());
    assert!(interpolate_env("${foo }", &env).is_err());
    assert!(interpolate_env("${foo!}", &env).is_err());
}

#[test]
fn interpolate_env_returns_an_error_if_variable_is_undefined() {
    let env = Environment::new();
    assert!(interpolate_env("$NOSUCH", &env).is_err());
}

#[test]
fn interpolate_env_reports_the_leftmost_undefined_variable() {
    let env = env_with(&[("KNOWN", "yes")]);
    match interpolate_env("$KNOWN $FIRST $SECOND", &env) {
        Err(InterpolationError::UndefinedVariable(name)) => assert_eq!(name, "FIRST"),
        other => panic!("expected an undefined-variable error, got {:?}", other),
    }
}

#[test]
fn interpolate_env_uses_the_latest_definition() {
    let mut env = Environment::new();
    env.set("VAR", "old");
    env.set("VAR", "new");
    assert_eq!("new", interpolate_env("$VAR", &env).unwrap());
}

#[test]
fn escape_str_escapes_dollar_signs() {
    assert_eq!("$$VAR1 $${VAR2} $$", escape_str("$VAR1 ${VAR2} $"));
}

#[test]
fn unescape_str_unescapes_without_interpolating() {
    // Actual interpolation is forbidden, even for a defined variable.
    assert!(unescape_str("$FOO").is_err());

    assert_eq!("plain", unescape_str("plain").unwrap());
    assert_eq!("$escaped", unescape_str("$$escaped").unwrap());
    assert_eq!("${escaped}", unescape_str("$${escaped}").unwrap());
}

#[test]
fn unescape_str_names_the_error_kinds() {
    match unescape_str("$FOO") {
        Err(InterpolationError::InterpolationDisabled(input)) => assert_eq!(input, "$FOO"),
        other => panic!("expected an interpolation-disabled error, got {:?}", other),
    }
    match unescape_str("${") {
        Err(InterpolationError::InvalidSyntax(input)) => assert_eq!(input, "${"),
        other => panic!("expected a syntax error, got {:?}", other),
    }
}

#[test]
fn validate_tests_interpolation_strings() {
    assert!(validate("plain").is_ok());
    assert!(validate("$$escaped").is_ok());
    assert!(validate("$${escaped}").is_ok());
    assert!(validate("$FOO").is_ok());
    assert!(validate("${FOO}").is_ok());

    assert!(validate("${").is_err());
    assert!(validate("$}").is_err());
    assert!(validate("${}").is_err());
    assert!(validate("${ }").is_err());
    assert!(validate("${ foo}").is_err());
    assert!(validate("${foo }").is_err());
    assert!(validate("${foo!}").is_err());
}

#[test]
fn validate_accepts_the_documented_forms() {
    assert!(validate("plain").is_ok());
    assert!(validate("$FOO").is_ok());
    assert!(validate("${FOO}").is_ok());
    assert!(validate("$$").is_ok());
    assert!(validate("$${escaped}").is_ok());
    // A single-letter name is a valid bare reference.
    assert!(validate("$F").is_ok());
    // A dollar sign that starts no valid token at all is a syntax error.
    assert!(validate("$").is_err());
    assert!(validate("a$ b").is_err());
}

#[test]
fn escape_then_unescape_is_identity() {
    for text in ["", "plain", "$", "$$", "a$b", "$VAR1 ${VAR2} $", "100% $ale"] {
        let escaped = escape_str(text);
        assert!(validate(&escaped).is_ok());
        assert_eq!(text, unescape_str(&escaped).unwrap());
    }
}

#[test]
fn interpolation_error_messages_name_their_payload() {
    let env = Environment::new();
    let err = interpolate_env("$NOSUCH", &env).unwrap_err();
    assert_eq!(
        err.message(),
        "undefined environment variable in interpolation: NOSUCH"
    );
    let err = validate("${oops").unwrap_err();
    assert_eq!(err.description(), "invalid interpolation syntax");
    assert_eq!(err.message(), "invalid interpolation syntax: <${oops>");
}

#[test]
fn environment_lookup_is_exact_and_case_sensitive() {
    let env = env_with(&[("Foo", "one")]);
    assert_eq!(env.lookup("Foo").unwrap(), "one");
    assert!(env.lookup("foo").is_none());
    assert!(env.lookup("FOO").is_none());
    assert!(env.lookup("Fo").is_none());
}
