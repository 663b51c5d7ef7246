//! The deferred-value container: a two-state box that holds a string
//! field either as an unresolved reference string or as a fully-parsed
//! domain value.
//!
//! Almost any string-typed field of a configuration document may contain
//! a variable reference such as `$VAR` or `${VAR}`.  Such fields are kept
//! in their unresolved textual form while a document is merely being
//! transformed, and are resolved against an explicit environment exactly
//! once, when the caller asks for it.  [`RawOr`] mediates every read and
//! write of such a field.

use vstd::prelude::*;
use vstd::string::StringExecFns;

use crate::errors::InterpolationError;
use crate::errors::InvalidValueError;
use crate::interpolation::Environment;
use crate::interpolation::escape_str;
use crate::interpolation::escaped_form;
use crate::interpolation::first_undefined;
use crate::interpolation::has_ref;
use crate::interpolation::interpolate_env;
use crate::interpolation::refs_defined;
use crate::interpolation::resolved;
use crate::interpolation::unescape_str;
use crate::interpolation::unescaped;
use crate::interpolation::wf;

verus! {

/// A domain type that can sit inside a [`RawOr`] container: it can be
/// parsed from a string, rendered back to a string, cloned, and a parsed
/// value renders back to exactly the text it was parsed from.
pub trait InterpolatableValue: Sized {
    /// True when `s` parses as a value of this type.
    spec fn spec_parsable(s: Seq<char>) -> bool;

    /// The textual form of this value.
    spec fn spec_format(&self) -> Seq<char>;

    /// Parse a value from its textual form.
    fn parse_iv(s: &str) -> (r: Result<Self, InvalidValueError>)
        ensures
            r is Ok <==> Self::spec_parsable(s@),
            r matches Ok(v) ==> v.spec_format() == s@,
    ;

    /// Render this value to its textual form.
    fn format_iv(&self) -> (r: String)
        ensures
            r@ == self.spec_format(),
    ;

    /// An exact copy of this value.
    fn clone_iv(&self) -> (r: Self)
        ensures
            r == *self,
    ;
}

/// The internal representation of [`RawOr`]: either a raw reference
/// string or a parsed value.
#[derive(Debug, PartialEq, Eq)]
enum RawOrValue<T> {
    /// A syntactically valid string holding at least one real reference.
    Raw(String),
    /// A parsed value.
    Value(T),
}

/// Either an unparsed interpolation string or a fully-parsed value of the
/// domain type `T`.
///
/// A container is normally created with [`raw`], [`escape`] or [`value`].
/// A string with no real references is parsed immediately, so an
/// unresolved container always holds at least one reference; the only
/// state transition is the one-directional move from unresolved to
/// resolved made by [`RawOr::interpolate`].  Equality and cloning work on
/// the current representation as it stands: an unresolved and a resolved
/// container are never equal, even if resolving would make them so.
#[derive(Debug, PartialEq, Eq)]
pub struct RawOr<T>(RawOrValue<T>);

impl<T> RawOr<T> {
    /// Whether the container currently holds a parsed value.
    pub closed spec fn is_resolved(&self) -> bool {
        self.0 is Value
    }

    /// The parsed value held by a resolved container.
    pub closed spec fn val(&self) -> T {
        match self.0 {
            RawOrValue::Value(v) => v,
            RawOrValue::Raw(_) => vstd::pervasive::arbitrary(),
        }
    }

    /// The reference string held by an unresolved container.
    pub closed spec fn raw_str(&self) -> Seq<char> {
        match self.0 {
            RawOrValue::Raw(s) => s@,
            RawOrValue::Value(_) => Seq::empty(),
        }
    }

    /// Well-formedness: an unresolved container always holds a valid
    /// interpolation string with at least one real reference, so
    /// unescape-only resolution of that string always fails.
    pub open spec fn inv(&self) -> bool {
        !self.is_resolved() ==> wf(self.raw_str()) && has_ref(self.raw_str())
    }
}

/// Convert a raw string that may contain variable references into a
/// `RawOr<T>`.  The string's syntax is checked first; a string without
/// real references is unescaped and parsed as a `T` at once, while a
/// string with references is stored verbatim for later resolution.
pub fn raw<T: InterpolatableValue>(s: &str) -> (r: Result<RawOr<T>, InterpolationError>)
    ensures
        r matches Ok(ro) ==> ro.inv() && wf(s@) && (has_ref(s@) ==> !ro.is_resolved()
            && ro.raw_str() == s@) && (!has_ref(s@) ==> ro.is_resolved() && T::spec_parsable(
            unescaped(s@),
        ) && ro.val().spec_format() == unescaped(s@)),
        r matches Err(e) ==> match e {
            InterpolationError::InvalidSyntax(t) => !wf(s@) && t@ == s@,
            InterpolationError::UnparsableValue(_) => wf(s@) && !has_ref(s@) && !T::spec_parsable(
                unescaped(s@),
            ),
            _ => false,
        },
        r is Ok <==> (wf(s@) && (has_ref(s@) || T::spec_parsable(unescaped(s@)))),
{
    match unescape_str(s) {
        Ok(u) => match T::parse_iv(u.as_str()) {
            Ok(v) => Ok(RawOr(RawOrValue::Value(v))),
            Err(e) => Err(InterpolationError::UnparsableValue(e)),
        },
        Err(InterpolationError::InterpolationDisabled(_)) => Ok(
            RawOr(RawOrValue::Raw(String::from_str(s))),
        ),
        Err(e) => Err(e),
    }
}

/// Escape a literal string and convert it into an always-resolved
/// `RawOr<T>`: every dollar sign is doubled first, so the text is never
/// treated as containing references.  Fails only if `T` rejects the
/// escaped text.
pub fn escape<T: InterpolatableValue>(s: &str) -> (r: Result<RawOr<T>, InterpolationError>)
    ensures
        r matches Ok(ro) ==> ro.inv() && ro.is_resolved() && T::spec_parsable(escaped_form(s@))
            && ro.val().spec_format() == escaped_form(s@),
        r matches Err(e) ==> e matches InterpolationError::UnparsableValue(_) && !T::spec_parsable(
            escaped_form(s@),
        ),
        r is Ok <==> T::spec_parsable(escaped_form(s@)),
{
    let esc = escape_str(s);
    match T::parse_iv(esc.as_str()) {
        Ok(v) => Ok(RawOr(RawOrValue::Value(v))),
        Err(e) => Err(InterpolationError::UnparsableValue(e)),
    }
}

/// Wrap an already-parsed value as a resolved `RawOr<T>`; this cannot
/// fail.
pub fn value<T: InterpolatableValue>(v: T) -> (r: RawOr<T>)
    ensures
        r.is_resolved(),
        r.val() == v,
        r.inv(),
{
    RawOr(RawOrValue::Value(v))
}

impl<T: InterpolatableValue> RawOr<T> {
    /// The canonical textual form of the container: the stored string
    /// verbatim when unresolved, or the value's rendered form when
    /// resolved.
    pub open spec fn render_spec(&self) -> Seq<char> {
        if self.is_resolved() {
            self.val().spec_format()
        } else {
            self.raw_str()
        }
    }

    /// Borrow the contained value, or fail with exactly the error that
    /// unescape-only resolution of the stored string produces: reading an
    /// unresolved container is refused rather than silently resolved.
    pub fn value(&self) -> (r: Result<&T, InterpolationError>)
        requires
            self.inv(),
        ensures
            self.is_resolved() ==> (r matches Ok(v) && *v == self.val()),
            !self.is_resolved() ==> (r matches Err(e) && e
                matches InterpolationError::InterpolationDisabled(t) && t@ == self.raw_str()),
    {
        match &self.0 {
            RawOrValue::Value(v) => Ok(v),
            RawOrValue::Raw(raw) => {
                match unescape_str(raw.as_str()) {
                    Err(e) => Err(e),
                    Ok(_) => {
                        proof {
                            assert(false);
                        }
                        Err(InterpolationError::InterpolationDisabled(raw.clone()))
                    },
                }
            },
        }
    }

    /// Borrow the contained value mutably, or fail exactly as
    /// [`RawOr::value`] does.
    pub fn value_mut(&mut self) -> (r: Result<&mut T, InterpolationError>)
        requires
            old(self).inv(),
        ensures
            old(self).is_resolved() ==> (r matches Ok(v) && *v == old(self).val()
                && final(self).is_resolved() && final(self).val() == *final(v)),
            !old(self).is_resolved() ==> (r matches Err(e) && e
                matches InterpolationError::InterpolationDisabled(t) && t@ == old(self).raw_str()
                && *final(self) == *old(self)),
            final(self).inv(),
    {
        match &mut self.0 {
            RawOrValue::Value(v) => Ok(v),
            RawOrValue::Raw(raw) => {
                match unescape_str(raw.as_str()) {
                    Err(e) => Err(e),
                    Ok(_) => {
                        proof {
                            assert(false);
                        }
                        Err(InterpolationError::InvalidSyntax(String::new()))
                    },
                }
            },
        }
    }

    /// Borrow the contained value mutably, resolving the stored string
    /// against `env` first if the container is still unresolved.  The
    /// unresolved-to-resolved transition happens at most once in a
    /// container's lifetime: on an already-resolved container this is a
    /// pure read that returns the same value whatever environment is
    /// supplied, and a failed resolution leaves the container in its
    /// prior unresolved state.
    pub fn interpolate(&mut self, env: &Environment) -> (r: Result<&mut T, InterpolationError>)
        requires
            old(self).inv(),
        ensures
            r matches Ok(v) ==> final(self).is_resolved() && final(self).val() == *final(v)
                && (old(self).is_resolved() ==> *v == old(self).val()) && (!old(self).is_resolved()
                ==> refs_defined(old(self).raw_str(), env@) && T::spec_parsable(
                resolved(old(self).raw_str(), env@),
            ) && (*v).spec_format() == resolved(old(self).raw_str(), env@)),
            r matches Err(e) ==> *final(self) == *old(self) && !old(self).is_resolved() && match e {
                InterpolationError::UndefinedVariable(name) => !refs_defined(
                    old(self).raw_str(),
                    env@,
                ) && name@ == first_undefined(old(self).raw_str(), env@),
                InterpolationError::UnparsableValue(_) => refs_defined(old(self).raw_str(), env@)
                    && !T::spec_parsable(resolved(old(self).raw_str(), env@)),
                _ => false,
            },
            r is Ok <==> (old(self).is_resolved() || (refs_defined(old(self).raw_str(), env@)
                && T::spec_parsable(resolved(old(self).raw_str(), env@)))),
            final(self).inv(),
    {
        let new_val: Option<T> = match &self.0 {
            RawOrValue::Value(_) => None,
            RawOrValue::Raw(raw) => {
                match interpolate_env(raw.as_str(), env) {
                    Err(e) => {
                        return Err(e);
                    },
                    Ok(out) => match T::parse_iv(out.as_str()) {
                        Err(pe) => {
                            return Err(InterpolationError::UnparsableValue(pe));
                        },
                        Ok(v) => Some(v),
                    },
                }
            },
        };
        if let Some(v) = new_val {
            self.0 = RawOrValue::Value(v);
        }
        match &mut self.0 {
            RawOrValue::Value(v) => Ok(v),
            RawOrValue::Raw(_) => {
                proof {
                    assert(false);
                }
                Err(InterpolationError::InvalidSyntax(String::new()))
            },
        }
    }

    /// The canonical textual form: the stored string verbatim when
    /// unresolved, or the value's rendered form when resolved.
    pub fn render(&self) -> (r: String)
        ensures
            r@ == self.render_spec(),
    {
        match &self.0 {
            RawOrValue::Raw(raw) => raw.clone(),
            RawOrValue::Value(v) => v.format_iv(),
        }
    }
}

impl<T: InterpolatableValue> Clone for RawOr<T> {
    /// Cloning copies the current representation as it stands: a raw
    /// container clones its string, a resolved one its value.
    fn clone(&self) -> (r: Self)
        ensures
            r == *self,
    {
        match &self.0 {
            RawOrValue::Raw(s) => RawOr(RawOrValue::Raw(s.clone())),
            RawOrValue::Value(v) => RawOr(RawOrValue::Value(v.clone_iv())),
        }
    }
}

impl<T: InterpolatableValue> core::str::FromStr for RawOr<T> {
    type Err = InvalidValueError;

    /// Parse as [`raw`] does, passing a domain-parse error through and
    /// reporting any interpolation error as an invalid value.
    fn from_str(s: &str) -> Result<Self, InvalidValueError> {
        match raw(s) {
            Ok(v) => Ok(v),
            Err(InterpolationError::UnparsableValue(e)) => Err(e),
            Err(_) => Err(InvalidValueError::new("interpolation", s)),
        }
    }
}

impl InterpolatableValue for String {
    /// Every string parses as itself.
    open spec fn spec_parsable(s: Seq<char>) -> bool {
        true
    }

    /// A string's textual form is the string itself.
    open spec fn spec_format(&self) -> Seq<char> {
        self@
    }

    fn parse_iv(s: &str) -> (r: Result<Self, InvalidValueError>) {
        Ok(String::from_str(s))
    }

    fn format_iv(&self) -> (r: String) {
        self.clone()
    }

    fn clone_iv(&self) -> (r: Self) {
        self.clone()
    }
}

} // verus!
