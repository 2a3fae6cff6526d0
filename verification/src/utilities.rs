//! Small helpers shared across the crate.

use vstd::prelude::*;

use crate::level::LevelFilter;

verus! {

/// The most permissive filter a build of this crate ever applies: this
/// build compiles no severity away, so everything up to `Trace` may pass.
pub const STATIC_MAX_LEVEL: LevelFilter = LevelFilter::Trace;

/// The compile-time filter ceiling of this build.
pub fn get_max_level_inner() -> (r: LevelFilter)
    ensures
        r == LevelFilter::Trace,
{
    LevelFilter::Trace
}

/// Turns an optional value into a result, substituting `e` for absence.
pub fn is_ok<T, E>(t: Option<T>, e: E) -> (r: Result<T, E>)
    ensures
        r == (match t {
            Some(v) => Ok::<T, E>(v),
            None => Err::<T, E>(e),
        }),
{
    match t {
        Some(t) => Ok(t),
        None => Err(e),
    }
}

} // verus!
