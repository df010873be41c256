//! Screen geometry queries.
//!
//! `list_screens` is queried on demand — displays can be reconfigured
//! between calls, so nothing is cached. The platform enumeration itself is
//! the driver's: it reads the monitor table from the OS and hands the whole
//! snapshot over, or `None` where the display subsystem cannot be reached.

use vstd::prelude::*;

use crate::error::hook_error;

verus! {

/// Static geometry of one monitor at the moment of a query.
#[derive(Clone, Copy, Debug, PartialEq, Eq, Structural, Hash)]
pub struct screen_data {
    /// Position in the platform's enumeration order, `0` first.
    pub number: u8,
    /// Left edge in global screen coordinates.
    pub x: i16,
    /// Top edge in global screen coordinates.
    pub y: i16,
    /// Width in pixels.
    pub width: u16,
    /// Height in pixels.
    pub height: u16,
}

/// One entry per currently attached display, in the platform's enumeration
/// order, from the snapshot the driver read — or `platform_query_failed`
/// where the display subsystem could not be reached. All or nothing: the
/// sequence is never partially populated, a failed query returns no entry
/// at all.
pub fn list_screens(snapshot: Option<Vec<screen_data>>) -> (r: Result<
    Vec<screen_data>,
    hook_error,
>)
    ensures
        match snapshot {
            Some(screens) => r matches Ok(out) && out == screens,
            None => r == Err::<Vec<screen_data>, hook_error>(hook_error::platform_query_failed),
        },
{
    match snapshot {
        Some(screens) => Ok(screens),
        None => Err(hook_error::platform_query_failed),
    }
}

} // verus!
