//! Error types shared by the interpolation engine and the deferred-value
//! container.

use vstd::prelude::*;
use vstd::string::StringExecFns;

verus! {

/// An error returned when a string cannot be parsed as a value of some
/// domain type: it records which kind of value was wanted and the text
/// that was offered.
#[derive(Debug, Clone, PartialEq, Eq)]
pub struct InvalidValueError {
    wanted: String,
    value: String,
}

impl InvalidValueError {
    /// The kind of value that was expected, e.g. `"aliased name"`.
    pub closed spec fn spec_wanted(&self) -> Seq<char> {
        self.wanted@
    }

    /// The text that failed to parse.
    pub closed spec fn spec_value(&self) -> Seq<char> {
        self.value@
    }

    /// Build an error naming the expected kind of value and the offending
    /// text.
    pub fn new(wanted: &str, value: &str) -> (r: InvalidValueError)
        ensures
            r.spec_wanted() == wanted@,
            r.spec_value() == value@,
    {
        InvalidValueError { wanted: String::from_str(wanted), value: String::from_str(value) }
    }

    /// The kind of value that was expected.
    pub fn wanted(&self) -> (r: &String)
        ensures
            r@ == self.spec_wanted(),
    {
        &self.wanted
    }

    /// The text that failed to parse.
    pub fn value(&self) -> (r: &String)
        ensures
            r@ == self.spec_value(),
    {
        &self.value
    }

    /// A human-readable description of the error.
    pub fn message(&self) -> (r: String)
        ensures
            r@ == "invalid value for "@ + self.spec_wanted() + ": <"@ + self.spec_value() + ">"@,
    {
        let mut m = String::from_str("invalid value for ");
        m.append(self.wanted.as_str());
        m.append(": <");
        m.append(self.value.as_str());
        m.append(">");
        m
    }
}

/// An error raised while validating, unescaping or resolving a string that
/// may contain shell-style variable references.
#[derive(Debug, Clone, PartialEq, Eq)]
pub enum InterpolationError {
    /// The reference syntax in the given string was invalid.
    InvalidSyntax(String),
    /// The text did not parse as a value of the intended domain type.
    UnparsableValue(InvalidValueError),
    /// The given variable was absent from the supplied environment.  Shell
    /// tools typically substitute an empty string here; this library
    /// prefers to surface the problem.
    UndefinedVariable(String),
    /// A real variable reference was found in a context where resolving
    /// against an environment was explicitly not allowed.
    InterpolationDisabled(String),
}

impl InterpolationError {
    /// A short fixed description of the error kind.
    pub fn description(&self) -> (r: &'static str)
        ensures
            r@ == match self {
                InterpolationError::InvalidSyntax(_) => "invalid interpolation syntax"@,
                InterpolationError::UnparsableValue(_) => "cannot escape invalid value"@,
                InterpolationError::UndefinedVariable(_) => "undefined environment variable in interpolation"@,
                InterpolationError::InterpolationDisabled(_) => "cannot parse without interpolating environment variables"@,
            },
    {
        match self {
            InterpolationError::InvalidSyntax(_) => "invalid interpolation syntax",
            InterpolationError::UnparsableValue(_) => "cannot escape invalid value",
            InterpolationError::UndefinedVariable(_) => "undefined environment variable in interpolation",
            InterpolationError::InterpolationDisabled(_) => "cannot parse without interpolating environment variables",
        }
    }

    /// A human-readable description of the error, including its payload.
    pub fn message(&self) -> (r: String)
        ensures
            r@ == match self {
                InterpolationError::InvalidSyntax(input) => "invalid interpolation syntax: <"@ + input@ + ">"@,
                InterpolationError::UnparsableValue(err) => "cannot escape invalid value: "@ + "invalid value for "@
                    + err.spec_wanted() + ": <"@ + err.spec_value() + ">"@,
                InterpolationError::UndefinedVariable(var) => "undefined environment variable in interpolation: "@ + var@,
                InterpolationError::InterpolationDisabled(input) => "cannot parse without interpolating environment variables: <"@
                    + input@ + ">"@,
            },
    {
        match self {
            InterpolationError::InvalidSyntax(input) => {
                let mut m = String::from_str("invalid interpolation syntax: <");
                m.append(input.as_str());
                m.append(">");
                m
            },
            InterpolationError::UnparsableValue(err) => {
                let mut m = String::from_str("cannot escape invalid value: ");
                let inner = err.message();
                m.append(inner.as_str());
                m
            },
            InterpolationError::UndefinedVariable(var) => {
                let mut m = String::from_str("undefined environment variable in interpolation: ");
                m.append(var.as_str());
                m
            },
            InterpolationError::InterpolationDisabled(input) => {
                let mut m = String::from_str("cannot parse without interpolating environment variables: <");
                m.append(input.as_str());
                m.append(">");
                m
            },
        }
    }
}

impl From<InvalidValueError> for InterpolationError {
    /// Wrap a domain-parse error as an interpolation error.
    fn from(err: InvalidValueError) -> (r: InterpolationError) {
        InterpolationError::UnparsableValue(err)
    }
}

impl vstd::std_specs::convert::FromSpecImpl<InvalidValueError> for InterpolationError {
    open spec fn obeys_from_spec() -> bool {
        true
    }

    open spec fn from_spec(err: InvalidValueError) -> Self {
        InterpolationError::UnparsableValue(err)
    }
}

} // verus!
