//! Typed failures surfaced to callers: double registration and unrecognized
//! severity names. Sink I/O failures are reported out of band by the callers
//! that perform the I/O and never travel through these types.

use vstd::prelude::*;

verus! {

/// Registration was attempted when the registry was already initialized, or
/// while another caller was mid-initialization.
#[derive(Debug)]
pub struct SetLoggerError(pub ());

impl SetLoggerError {
    /// The one value of this error.
    pub fn new() -> (r: Self)
        ensures
            r == SetLoggerError(()),
    {
        SetLoggerError(())
    }

    /// Operator-readable description of the failure.
    pub fn message(&self) -> (r: &'static str)
        ensures
            r@ == "ERROR::SETTING LOGGER AFTER LOGGING SYSTEM WAS INITIALIZED"@,
    {
        "ERROR::SETTING LOGGER AFTER LOGGING SYSTEM WAS INITIALIZED"
    }
}

/// A severity name did not match any entry of the canonical name table.
#[derive(Debug, PartialEq, Eq)]
pub struct ParseLevelError(pub ());

impl ParseLevelError {
    /// The one value of this error.
    pub fn new() -> (r: Self)
        ensures
            r == ParseLevelError(()),
    {
        ParseLevelError(())
    }

    /// Operator-readable description of the failure.
    pub fn message(&self) -> (r: &'static str)
        ensures
            r@ == "ERROR::PARSING STRING ERROR::DOESN'T MATCH ANY LOG LEVEL"@,
    {
        "ERROR::PARSING STRING ERROR::DOESN'T MATCH ANY LOG LEVEL"
    }
}

} // verus!
