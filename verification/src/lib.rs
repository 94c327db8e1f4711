//! Non-fatal, continuable diagnostics for code that runs under a debugger.
//!
//! The crate has two cooperating halves:
//!
//! * [`debugger`] — a three-valued model of whether a native debugger is
//!   attached to the current process, the rules that turn a process-status
//!   pseudo-file into that state, and the decision table behind waiting for a
//!   debugger with an optional timeout.
//! * [`checkable`] and [`engine`] — a capability protocol for "result-like"
//!   values (booleans, optional values, fallible results, raw addresses) and a
//!   check engine that, on failure, renders a structured diagnostic, fires the
//!   caller-supplied breakpoint trigger, and yields a caller-chosen fallback
//!   instead of aborting.
//!
//! Reading the platform's status file, sleeping between polls and raising the
//! actual trap are side effects the platform layer performs; everything this
//! crate decides about them is stated in contracts and verified.

pub mod checkable;
pub mod debugger;
pub mod diag;
pub mod engine;
