//! The checkable capability protocol: a uniform interface any "result-like"
//! value can satisfy, describing how to test success, extract the success or
//! failure payload, and label the two outcomes for diagnostics.
//!
//! The protocol is a closed, dispatch-free set of kinds: boolean flags,
//! raw-pointer addresses, optional values and fallible results, each with
//! one implementation.  Failure payloads are rendered through
//! [`MaybeDebug`]; a payload with no meaningful rendering may fall back to a
//! fixed placeholder rather than failing to satisfy the protocol.

use vstd::prelude::*;

use crate::diag::{dec_seq, int_dec_seq, i64_to_decimal, u64_to_decimal};

verus! {

/// A value that can describe itself in a diagnostic.  The rendering is a
/// plain string; a type with nothing meaningful to show may return the fixed
/// placeholder `"???"` instead, so that the protocol stays satisfiable for
/// failure payloads with no display capability.
pub trait MaybeDebug {
    /// The text `fmt` renders.
    spec fn spec_fmt(&self) -> Seq<char>;

    /// Render the value for inclusion in a diagnostic.
    fn fmt(&self) -> (r: String)
        ensures
            r@ == self.spec_fmt(),
    ;
}

impl MaybeDebug for () {
    open spec fn spec_fmt(&self) -> Seq<char> {
        "()"@
    }

    fn fmt(&self) -> (r: String) {
        String::from_str("()")
    }
}

impl MaybeDebug for bool {
    open spec fn spec_fmt(&self) -> Seq<char> {
        if *self {
            "true"@
        } else {
            "false"@
        }
    }

    fn fmt(&self) -> (r: String) {
        if *self {
            String::from_str("true")
        } else {
            String::from_str("false")
        }
    }
}

/// Rendered in quotes, as a value rather than prose; the text between the
/// quotes is carried verbatim, not escaped.
impl<'a> MaybeDebug for &'a str {
    open spec fn spec_fmt(&self) -> Seq<char> {
        "\""@ + self@ + "\""@
    }

    fn fmt(&self) -> (r: String) {
        let mut s = String::from_str("\"");
        s.append(*self);
        s.append("\"");
        proof {
            assert(s@ =~= self.spec_fmt());
        }
        s
    }
}

/// Rendered in quotes, as a value rather than prose; the text between the
/// quotes is carried verbatim, not escaped.
impl MaybeDebug for String {
    open spec fn spec_fmt(&self) -> Seq<char> {
        "\""@ + self@ + "\""@
    }

    fn fmt(&self) -> (r: String) {
        let mut s = String::from_str("\"");
        s.append(self.as_str());
        s.append("\"");
        proof {
            assert(s@ =~= self.spec_fmt());
        }
        s
    }
}

impl MaybeDebug for u32 {
    open spec fn spec_fmt(&self) -> Seq<char> {
        dec_seq(*self as nat)
    }

    fn fmt(&self) -> (r: String) {
        u64_to_decimal(*self as u64)
    }
}

impl MaybeDebug for u64 {
    open spec fn spec_fmt(&self) -> Seq<char> {
        dec_seq(*self as nat)
    }

    fn fmt(&self) -> (r: String) {
        u64_to_decimal(*self)
    }
}

impl MaybeDebug for usize {
    open spec fn spec_fmt(&self) -> Seq<char> {
        dec_seq(*self as nat)
    }

    fn fmt(&self) -> (r: String) {
        u64_to_decimal(*self as u64)
    }
}

impl MaybeDebug for i32 {
    open spec fn spec_fmt(&self) -> Seq<char> {
        int_dec_seq(*self as int)
    }

    fn fmt(&self) -> (r: String) {
        i64_to_decimal(*self as i64)
    }
}

impl MaybeDebug for i64 {
    open spec fn spec_fmt(&self) -> Seq<char> {
        int_dec_seq(*self as int)
    }

    fn fmt(&self) -> (r: String) {
        i64_to_decimal(*self)
    }
}

/// A raw pointer's address as a plain integer.  The pointer kinds of the
/// checkable protocol are carried through the core as their address: a null
/// pointer (address zero) is the failing state, and both payloads are the
/// address itself, from which the platform layer recovers the pointer.
#[derive(Clone, Copy, Debug, PartialEq, Eq, Structural)]
pub struct Addr {
    /// The pointer's address; zero for a null pointer.
    pub addr: usize,
}

impl MaybeDebug for Addr {
    open spec fn spec_fmt(&self) -> Seq<char> {
        dec_seq(self.addr as nat)
    }

    fn fmt(&self) -> (r: String) {
        u64_to_decimal(self.addr as u64)
    }
}

/// The checkable capability protocol.  A `DebugUnwrap<O, E>` value admits a
/// binary pass/fail reading: on success it yields an `O`, on failure an `E`,
/// and either way it offers a pair of labels (with payload-decoration flags)
/// used purely for rendering diagnostics.
///
/// `unwrap_ok` and `unwrap_err` have genuine preconditions — the check
/// engine tests `can_unwrap` first and never re-validates.
pub trait DebugUnwrap<O, E>: Sized {
    /// Does the value represent success?
    spec fn spec_can_unwrap(&self) -> bool;

    /// The payload `unwrap_ok` extracts.
    spec fn spec_ok(&self) -> O;

    /// The payload `unwrap_err` extracts.
    spec fn spec_err(&self) -> E;

    /// The label of a passing value.
    spec fn spec_pass(&self) -> Seq<char>;

    /// The label of a failing value.
    spec fn spec_fail(&self) -> Seq<char>;

    /// Is the pass label decorated with a trailing argument list?
    spec fn spec_pass_payload(&self) -> bool;

    /// Is the fail label decorated with the rendered failure payload?
    spec fn spec_fail_payload(&self) -> bool;

    /// Returns (pass label, fail label, pass decoration, fail decoration):
    /// the static descriptions used for diagnostic rendering.
    fn get_pass_fail_strs(&self) -> (r: (&'static str, &'static str, bool, bool))
        ensures
            r.0@ == self.spec_pass(),
            r.1@ == self.spec_fail(),
            r.2 == self.spec_pass_payload(),
            r.3 == self.spec_fail_payload(),
    ;

    /// True iff the value represents success.
    fn can_unwrap(&self) -> (r: bool)
        ensures
            r == self.spec_can_unwrap(),
    ;

    /// Extract the success payload; only ever invoked when `can_unwrap` is
    /// true.
    fn unwrap_ok(self) -> (r: O)
        requires
            self.spec_can_unwrap(),
        ensures
            r == self.spec_ok(),
    ;

    /// Extract the failure payload; only ever invoked when `can_unwrap` is
    /// false.
    fn unwrap_err(self) -> (r: E)
        requires
            !self.spec_can_unwrap(),
        ensures
            r == self.spec_err(),
    ;
}

/// A boolean flag: passes when true.  Neither outcome carries a payload
/// beyond the flag itself.
impl DebugUnwrap<bool, bool> for bool {
    open spec fn spec_can_unwrap(&self) -> bool {
        *self
    }

    open spec fn spec_ok(&self) -> bool {
        *self
    }

    open spec fn spec_err(&self) -> bool {
        *self
    }

    open spec fn spec_pass(&self) -> Seq<char> {
        "true"@
    }

    open spec fn spec_fail(&self) -> Seq<char> {
        "false"@
    }

    open spec fn spec_pass_payload(&self) -> bool {
        false
    }

    open spec fn spec_fail_payload(&self) -> bool {
        false
    }

    fn get_pass_fail_strs(&self) -> (r: (&'static str, &'static str, bool, bool)) {
        ("true", "false", false, false)
    }

    fn can_unwrap(&self) -> (r: bool) {
        *self
    }

    fn unwrap_ok(self) -> (r: bool) {
        self
    }

    fn unwrap_err(self) -> (r: bool) {
        self
    }
}

/// A raw-pointer address: passes when non-null.  Both payloads are the
/// address itself; neither label is decorated.
impl DebugUnwrap<Addr, Addr> for Addr {
    open spec fn spec_can_unwrap(&self) -> bool {
        self.addr != 0
    }

    open spec fn spec_ok(&self) -> Addr {
        *self
    }

    open spec fn spec_err(&self) -> Addr {
        *self
    }

    open spec fn spec_pass(&self) -> Seq<char> {
        "non-null"@
    }

    open spec fn spec_fail(&self) -> Seq<char> {
        "null"@
    }

    open spec fn spec_pass_payload(&self) -> bool {
        false
    }

    open spec fn spec_fail_payload(&self) -> bool {
        false
    }

    fn get_pass_fail_strs(&self) -> (r: (&'static str, &'static str, bool, bool)) {
        ("non-null", "null", false, false)
    }

    fn can_unwrap(&self) -> (r: bool) {
        self.addr != 0
    }

    fn unwrap_ok(self) -> (r: Addr) {
        self
    }

    fn unwrap_err(self) -> (r: Addr) {
        self
    }
}

/// An optional value: passes when present, with the contained value as the
/// success payload; an absent value has no failure payload.
impl<T> DebugUnwrap<T, ()> for Option<T> {
    open spec fn spec_can_unwrap(&self) -> bool {
        self.is_some()
    }

    open spec fn spec_ok(&self) -> T {
        self->0
    }

    open spec fn spec_err(&self) -> () {
        ()
    }

    open spec fn spec_pass(&self) -> Seq<char> {
        "Some"@
    }

    open spec fn spec_fail(&self) -> Seq<char> {
        "None"@
    }

    open spec fn spec_pass_payload(&self) -> bool {
        true
    }

    open spec fn spec_fail_payload(&self) -> bool {
        false
    }

    fn get_pass_fail_strs(&self) -> (r: (&'static str, &'static str, bool, bool)) {
        ("Some", "None", true, false)
    }

    fn can_unwrap(&self) -> (r: bool) {
        self.is_some()
    }

    fn unwrap_ok(self) -> (r: T) {
        match self {
            Some(v) => v,
            None => unreached(),
        }
    }

    fn unwrap_err(self) -> (r: ()) {
        ()
    }
}

/// A fallible result: passes on `Ok`, with the contained value as the
/// success payload; a failure carries the contained error, rendered into
/// the diagnostic.
impl<R, E> DebugUnwrap<R, E> for Result<R, E> {
    open spec fn spec_can_unwrap(&self) -> bool {
        self.is_ok()
    }

    open spec fn spec_ok(&self) -> R {
        self->Ok_0
    }

    open spec fn spec_err(&self) -> E {
        self->Err_0
    }

    open spec fn spec_pass(&self) -> Seq<char> {
        "Ok"@
    }

    open spec fn spec_fail(&self) -> Seq<char> {
        "Err"@
    }

    open spec fn spec_pass_payload(&self) -> bool {
        true
    }

    open spec fn spec_fail_payload(&self) -> bool {
        true
    }

    fn get_pass_fail_strs(&self) -> (r: (&'static str, &'static str, bool, bool)) {
        ("Ok", "Err", true, true)
    }

    fn can_unwrap(&self) -> (r: bool) {
        self.is_ok()
    }

    fn unwrap_ok(self) -> (r: R) {
        match self {
            Ok(v) => v,
            Err(_) => unreached(),
        }
    }

    fn unwrap_err(self) -> (r: E) {
        match self {
            Ok(_) => unreached(),
            Err(e) => e,
        }
    }
}

} // verus!
