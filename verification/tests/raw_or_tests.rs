//! Tests for the deferred-value container and its constructors.

use compose_yml::Environment;
use compose_yml::InterpolatableValue;
use compose_yml::InterpolationError;
use compose_yml::NetworkMode;
use compose_yml::RawOr;
use compose_yml::escape;
use compose_yml::raw;
use compose_yml::value;

#[test]
fn raw_parses_a_plain_string_immediately() {
    // A string with no dollar signs is stored as a resolved value and
    // renders back unchanged.
    for text in ["", "plain", "some/path", "a b c"] {
        let container: RawOr<String> = raw(text).unwrap();
        assert_eq!(container.value().unwrap(), text);
        assert_eq!(container.render(), text);
    }
}

#[test]
fn raw_keeps_a_reference_string_unresolved() {
    let container: RawOr<String> = raw("$FOO").unwrap();
    assert!(container.value().is_err());
    assert_eq!(container.render(), "$FOO");
}

#[test]
fn raw_rejects_invalid_syntax() {
    match raw::<String>("${oops") {
        Err(InterpolationError::InvalidSyntax(input)) => assert_eq!(input, "${oops"),
        other => panic!("expected a syntax error, got {:?}", other),
    }
}

#[test]
fn raw_unescapes_before_parsing() {
    let container: RawOr<String> = raw("$$literal").unwrap();
    assert_eq!(container.value().unwrap(), "$literal");
    assert_eq!(container.render(), "$literal");
}

#[test]
fn escape_protects_dollar_signs() {
    let container: RawOr<String> = escape("$FOO").unwrap();
    // The stored value is the escaped text; it is never a reference.
    assert_eq!(container.value().unwrap(), "$$FOO");
    assert_eq!(container.render(), "$$FOO");
}

#[test]
fn escape_yields_a_network_mode_with_the_dollar_preserved() {
    let container: RawOr<NetworkMode> = escape("container:$FOO").unwrap();
    assert_eq!(
        container.value().unwrap(),
        &NetworkMode::Container("$$FOO".to_string())
    );
    assert_eq!(container.render(), "container:$$FOO");
}

#[test]
fn escape_rejects_text_the_domain_type_refuses() {
    assert!(escape::<NetworkMode>("invalid").is_err());
    assert!(raw::<NetworkMode>("invalid").is_err());
    match raw::<NetworkMode>("invalid") {
        Err(InterpolationError::UnparsableValue(err)) => {
            assert_eq!(err.value(), "invalid");
        }
        other => panic!("expected a wrapped domain-parse error, got {:?}", other),
    }
}

#[test]
fn value_wraps_a_parsed_value() {
    let container = value(NetworkMode::Bridge);
    assert_eq!(container.value().unwrap(), &NetworkMode::Bridge);
    assert_eq!(container.render(), "bridge");
}

#[test]
fn value_mut_gives_mutable_access_to_a_resolved_value() {
    let mut mode = value(NetworkMode::Bridge);
    *mode.value_mut().unwrap() = NetworkMode::Host;
    assert_eq!(mode.value_mut().unwrap(), &NetworkMode::Host);
    assert_eq!(mode.render(), "host");
}

#[test]
fn value_mut_fails_on_an_unresolved_container() {
    let mut container: RawOr<String> = raw("$FOO").unwrap();
    match container.value_mut() {
        Err(InterpolationError::InterpolationDisabled(input)) => assert_eq!(input, "$FOO"),
        other => panic!("expected an interpolation-disabled error, got {:?}", other),
    }
}

#[test]
fn interpolate_resolves_against_the_supplied_environment() {
    let mut mode: RawOr<NetworkMode> = raw("$NETWORK_MODE").unwrap();
    assert_eq!("$NETWORK_MODE", mode.render());

    let mut env = Environment::new();
    env.set("NETWORK_MODE", "host");
    assert_eq!(mode.interpolate(&env).unwrap(), &NetworkMode::Host);
    assert_eq!("host", mode.render());
}

#[test]
fn interpolate_fails_then_succeeds_once_the_variable_is_set() {
    // End to end: construction succeeds on valid syntax even though the
    // variable is absent; resolution fails until the environment
    // supplies it.
    let mut container: RawOr<String> = raw("$FOO").unwrap();

    let empty = Environment::new();
    match container.interpolate(&empty) {
        Err(InterpolationError::UndefinedVariable(name)) => assert_eq!(name, "FOO"),
        other => panic!("expected an undefined-variable error, got {:?}", other),
    }
    // The failed resolution left the container unresolved and unchanged.
    assert_eq!(container.render(), "$FOO");

    let mut env = Environment::new();
    env.set("FOO", "bar");
    assert_eq!(container.interpolate(&env).unwrap(), "bar");
    assert_eq!(container.render(), "bar");
}

#[test]
fn interpolate_is_idempotent() {
    let mut container: RawOr<String> = raw("$FOO").unwrap();
    let mut env = Environment::new();
    env.set("FOO", "bar");
    assert_eq!(container.interpolate(&env).unwrap(), "bar");

    // The second call is a pure read: it returns the same value even
    // against an environment that no longer defines the variable.
    let empty = Environment::new();
    assert_eq!(container.interpolate(&empty).unwrap(), "bar");
    assert_eq!(container.render(), "bar");
}

#[test]
fn clone_copies_the_current_representation() {
    let unresolved: RawOr<String> = raw("$FOO").unwrap();
    let resolved: RawOr<String> = raw("foo").unwrap();
    assert_eq!(unresolved.clone(), unresolved);
    assert_eq!(resolved.clone(), resolved);
    // Two containers in different states are unequal even if they would
    // resolve identically.
    assert_ne!(unresolved, resolved);
}

#[test]
fn format_iv_round_trips_parsed_text() {
    let a = NetworkMode::parse_iv("service:web").unwrap();
    assert_eq!(a, NetworkMode::Service("web".to_string()));
    assert_eq!(a.format_iv(), "service:web");
    let b = String::parse_iv("anything $ at all").unwrap();
    assert_eq!(b.format_iv(), "anything $ at all");
}
