//! A library for reading, transforming and writing `docker-compose.yml`-style
//! configuration values without prematurely expanding shell-style variable
//! references such as `$VAR` or `${VAR}`.
//!
//! The heart of the library is the interpolation engine in [`interpolation`],
//! which tokenizes, validates, unescapes and resolves reference strings, and
//! the deferred-value container [`RawOr`], which holds a string field either
//! as an unresolved reference string or as a fully parsed domain value.

pub mod aliased_name;
pub mod compose_file;
pub mod context;
pub mod errors;
pub mod interpolation;
pub mod network_mode;
pub mod raw_or;
pub mod text;

pub use aliased_name::AliasedName;
pub use compose_file::Build;
pub use compose_file::File;
pub use compose_file::Secret;
pub use compose_file::Service;
pub use context::Context;
pub use context::GitUrl;
pub use errors::InterpolationError;
pub use errors::InvalidValueError;
pub use interpolation::Environment;
pub use interpolation::escape_str;
pub use interpolation::interpolate_env;
pub use interpolation::unescape_str;
pub use interpolation::validate;
pub use network_mode::NetworkMode;
pub use raw_or::InterpolatableValue;
pub use raw_or::RawOr;
pub use raw_or::escape;
pub use raw_or::raw;
pub use raw_or::value;
