//! The errors of loading a configuration file. Reading the file and parsing its YAML are
//! the caller's.

use vstd::prelude::*;
use crate::error::ConfigError;
use crate::text::{concat, concat3};

verus! {

/// The error for a configuration file at `path` that could not be read, for `reason`.
pub fn read_failure(path: &str, reason: &str) -> (r: ConfigError)
    ensures
        r matches ConfigError::ParseError(m) && m@ == "Failed to read "@ + path@ + ": "@ + reason@,
{
    let mut m = concat3("Failed to read ", path, ": ");
    m.append(reason);
    ConfigError::ParseError(m)
}

/// The error for a configuration file whose YAML could not be parsed, for `reason`.
pub fn yaml_failure(reason: &str) -> (r: ConfigError)
    ensures
        r matches ConfigError::ParseError(m) && m@ == "YAML parse error: "@ + reason@,
{
    ConfigError::ParseError(concat("YAML parse error: ", reason))
}

} // verus!
