//! Read-only queries of OS-level input configuration.
//!
//! Six accessors share this shape: keyboard auto-repeat rate, auto-repeat
//! delay, pointer acceleration multiplier, pointer acceleration threshold,
//! pointer sensitivity, and the multi-click interval. Each is a single
//! signed integer read synchronously from OS configuration by the driver,
//! with no caching and no side effect; the read either yields the value or
//! nothing at all.

use vstd::prelude::*;

use crate::error::hook_error;

verus! {

/// The value one settings read produced, or `platform_query_failed` where
/// the OS configuration was unreadable; the caller may retry.
pub fn settings_value(read: Option<i64>) -> (r: Result<i64, hook_error>)
    ensures
        match read {
            Some(v) => r == Ok::<i64, hook_error>(v),
            None => r == Err::<i64, hook_error>(hook_error::platform_query_failed),
        },
{
    match read {
        Some(v) => Ok(v),
        None => Err(hook_error::platform_query_failed),
    }
}

} // verus!
