//! Error taxonomy of the hook engine.
//!
//! `hook_error_code` names the specific platform acquisition step that
//! failed, with the wire value each code carries on the native boundary.
//! `hook_error` is the caller-facing taxonomy: a failed capture acquisition,
//! a read-only query that could not complete, or a payload accessed under an
//! incompatible event kind.

use vstd::prelude::*;

verus! {

/// One specific reason a platform capture acquisition failed, each with a
/// fixed wire value on the native boundary.
#[derive(Clone, Copy, Debug, PartialEq, Eq, Structural, Hash)]
pub enum hook_error_code {
    /// Unspecified failure, also returned for a `start()` in the wrong state.
    failure,
    /// Resource exhaustion while acquiring the capture context.
    out_of_memory,
    /// X11: the display connection could not be opened.
    x_open_display,
    /// X11: the RECORD extension is not present.
    x_record_not_found,
    /// X11: allocating the RECORD range failed.
    x_record_alloc_range,
    /// X11: creating the RECORD context failed.
    x_record_create_context,
    /// X11: enabling the RECORD context failed.
    x_record_enable_context,
    /// X11: querying the RECORD context failed.
    x_record_get_context,
    /// Windows: installing the low-level hook procedure failed.
    set_windows_hook_ex,
    /// Windows: resolving the module handle failed.
    get_module_handle,
    /// Darwin: the accessibility API is disabled.
    axapi_disabled,
    /// Darwin: creating the event tap port failed.
    create_event_port,
    /// Darwin: creating the run-loop source failed.
    create_run_loop_source,
    /// Darwin: the run loop could not be obtained.
    get_runloop,
    /// Darwin: creating the run-loop observer failed.
    create_observer,
}

impl hook_error_code {
    /// The wire value of this code: `0x01`/`0x02` for the general codes,
    /// `0x20`-`0x25` for X11, `0x30`-`0x31` for Windows, `0x40`-`0x44` for
    /// Darwin.
    pub open spec fn spec_code(self) -> int {
        match self {
            hook_error_code::failure => 0x01,
            hook_error_code::out_of_memory => 0x02,
            hook_error_code::x_open_display => 0x20,
            hook_error_code::x_record_not_found => 0x21,
            hook_error_code::x_record_alloc_range => 0x22,
            hook_error_code::x_record_create_context => 0x23,
            hook_error_code::x_record_enable_context => 0x24,
            hook_error_code::x_record_get_context => 0x25,
            hook_error_code::set_windows_hook_ex => 0x30,
            hook_error_code::get_module_handle => 0x31,
            hook_error_code::axapi_disabled => 0x40,
            hook_error_code::create_event_port => 0x41,
            hook_error_code::create_run_loop_source => 0x42,
            hook_error_code::get_runloop => 0x43,
            hook_error_code::create_observer => 0x44,
        }
    }

    /// The wire value of this code on the native boundary.
    pub fn code(&self) -> (r: i32)
        ensures
            r == self.spec_code(),
    {
        match self {
            hook_error_code::failure => 0x01,
            hook_error_code::out_of_memory => 0x02,
            hook_error_code::x_open_display => 0x20,
            hook_error_code::x_record_not_found => 0x21,
            hook_error_code::x_record_alloc_range => 0x22,
            hook_error_code::x_record_create_context => 0x23,
            hook_error_code::x_record_enable_context => 0x24,
            hook_error_code::x_record_get_context => 0x25,
            hook_error_code::set_windows_hook_ex => 0x30,
            hook_error_code::get_module_handle => 0x31,
            hook_error_code::axapi_disabled => 0x40,
            hook_error_code::create_event_port => 0x41,
            hook_error_code::create_run_loop_source => 0x42,
            hook_error_code::get_runloop => 0x43,
            hook_error_code::create_observer => 0x44,
        }
    }

    /// The code whose wire value is `c`, or `None` where `c` names no
    /// acquisition failure (`0x00` is success, not an error).
    pub fn from_code(c: i32) -> (r: Option<hook_error_code>)
        ensures
            match r {
                Some(code) => code.spec_code() == c,
                None => forall|code: hook_error_code| code.spec_code() != c,
            },
    {
        match c {
            0x01 => Some(hook_error_code::failure),
            0x02 => Some(hook_error_code::out_of_memory),
            0x20 => Some(hook_error_code::x_open_display),
            0x21 => Some(hook_error_code::x_record_not_found),
            0x22 => Some(hook_error_code::x_record_alloc_range),
            0x23 => Some(hook_error_code::x_record_create_context),
            0x24 => Some(hook_error_code::x_record_enable_context),
            0x25 => Some(hook_error_code::x_record_get_context),
            0x30 => Some(hook_error_code::set_windows_hook_ex),
            0x31 => Some(hook_error_code::get_module_handle),
            0x40 => Some(hook_error_code::axapi_disabled),
            0x41 => Some(hook_error_code::create_event_port),
            0x42 => Some(hook_error_code::create_run_loop_source),
            0x43 => Some(hook_error_code::get_runloop),
            0x44 => Some(hook_error_code::create_observer),
            _ => None,
        }
    }
}

/// The wire value is injective: two distinct codes never share it, so a code
/// can be recovered from what crossed the native boundary.
pub proof fn lemma_code_injective(a: hook_error_code, b: hook_error_code)
    ensures
        a.spec_code() == b.spec_code() ==> a == b,
{
}

/// The caller-facing error taxonomy of the library.
#[derive(Clone, Copy, Debug, PartialEq, Eq, Structural, Hash)]
pub enum hook_error {
    /// Platform capture acquisition failed; fatal to the `start()` call that
    /// produced it, the caller may retry later.
    hook(hook_error_code),
    /// A read-only platform query could not complete; the caller may retry.
    platform_query_failed,
    /// A payload accessor was called against an incompatible event kind; a
    /// caller programming error, not an environment failure.
    wrong_variant,
}

} // verus!
