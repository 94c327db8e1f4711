//! The non-fatal check engine.
//!
//! Given a checkable value, a call-site location and a message, the engine
//! decides success or failure.  Success hands back the success payload and
//! does nothing else — no diagnostic, no trap, and the fallback is never
//! evaluated.  Failure emits exactly one diagnostic, fires the breakpoint
//! trigger exactly once, and then evaluates the fallback and yields its
//! result.  Nothing here aborts: a failed check is an expected, recoverable
//! condition.
//!
//! Two of the engine's collaborators arrive as closures:
//!
//! * `breakpoint` is the debugger oracle's trap primitive.  The platform
//!   layer passes its real trigger (trap when attached, inert otherwise);
//!   the engine only promises to invoke it on the failure path.
//! * `fallback` is a caller-supplied continuation, evaluated lazily and only
//!   on failure.  It may itself transfer control non-locally (diverge, or
//!   unwind out of the check); the engine does not suppress or alter that.

use vstd::prelude::*;

use crate::checkable::{DebugUnwrap, MaybeDebug};
use crate::diag::log_unwrap_failed;

verus! {

/// Check `value` and return its success payload, or fall back.
///
/// On success — `can_unwrap` holds — the result is exactly `unwrap_ok`'s
/// payload; the fallback is not evaluated and no diagnostic is emitted.  On
/// failure, one diagnostic is written, the breakpoint trigger runs once, and
/// the result is exactly what the fallback produced: any postcondition the
/// two closures carry holds of that single invocation.
pub fn check_or<O, E, DU, B, F>(
    file: &str,
    line: u32,
    msg: &str,
    expr: &str,
    value: DU,
    breakpoint: B,
    fallback: F,
) -> (r: O) where
    E: MaybeDebug,
    DU: DebugUnwrap<O, E>,
    B: FnOnce() -> (),
    F: FnOnce() -> O,

    requires
        !value.spec_can_unwrap() ==> call_requires(breakpoint, ()),
        !value.spec_can_unwrap() ==> call_requires(fallback, ()),
    ensures
        value.spec_can_unwrap() ==> r == value.spec_ok(),
        !value.spec_can_unwrap() ==> call_ensures(breakpoint, (), ()),
        !value.spec_can_unwrap() ==> call_ensures(fallback, (), r),
{
    if value.can_unwrap() {
        value.unwrap_ok()
    } else {
        log_unwrap_failed(file, line, msg, expr, value);
        breakpoint();
        fallback()
    }
}

/// Check `value` for its side effects alone: the success payload is
/// discarded and nothing is returned.  The failure path is identical to
/// [`check_or`] — one diagnostic, one firing of the breakpoint trigger —
/// but there is no fallback to evaluate.
pub fn check_or_unit<O, E, DU, B>(file: &str, line: u32, msg: &str, expr: &str, value: DU, breakpoint: B) where
    E: MaybeDebug,
    DU: DebugUnwrap<O, E>,
    B: FnOnce() -> (),

    requires
        !value.spec_can_unwrap() ==> call_requires(breakpoint, ()),
    ensures
        !value.spec_can_unwrap() ==> call_ensures(breakpoint, (), ()),
{
    if value.can_unwrap() {
        let _ = value.unwrap_ok();
    } else {
        log_unwrap_failed(file, line, msg, expr, value);
        breakpoint();
    }
}

} // verus!
