//! Markers for the on-disk serialization formats a configuration file may
//! use. Each is a fieldless struct: a format is a compile-time tag, never
//! interesting as a value. The codec adapters that read and write these
//! formats delegate wholesale to the (de)serialization libraries and live
//! outside this library, keyed by these markers.

use vstd::prelude::*;

verus! {

/// The TOML format.
pub struct Toml;

/// The JSON format.
pub struct Json;

/// The YAML format.
pub struct Yaml;

/// The INI format.
pub struct Ini;

/// The RON format.
pub struct Ron;

/// The JSON5 format.
pub struct Json5;

} // verus!
