//! The debugger state oracle: a three-valued answer to "is a native debugger
//! attached to this process right now?", the parser for process-status
//! pseudo-files that back that answer on file-probe platforms, and the
//! decision rules behind breaking and waiting.
//!
//! The state is recomputed on every query — nothing here caches it — so a
//! debugger attaching or detaching mid-run is observed by the next poll.
//! The platform layer owns the side effects (reading the status file,
//! sleeping between polls, raising the trap); the decisions it acts on are
//! made here.

use vstd::prelude::*;
use vstd::slice::slice_index_get;

verus! {

/// Describes the possible states of the debugger: Detatched, Attached, or Unknown
#[derive(Clone, Copy, Debug, PartialEq, Eq, Structural)]
pub enum State {
    /// No debugger is currently attached.
    Detatched,
    /// A debugger is currently attached.
    Attached,
    /// A debugger may or may not be attached.  Either this platform doesn't
    /// expose a means of testing, or that means is currently unavailable.
    Unknown,
}

/// Should a breakpoint trap be executed right now?  Only when a debugger is
/// positively known to be attached; `Detatched` and `Unknown` stay inert.
pub fn should_break(current: State) -> (r: bool)
    ensures
        r == (current == State::Attached),
{
    match current {
        State::Attached => true,
        State::Detatched => false,
        State::Unknown => false,
    }
}

/// The reason `wait_until_attached` gives up when the platform exposes no
/// debugger test: polling cannot ever resolve, so it fails immediately.
pub open spec fn unknown_state_reason() -> Seq<char> {
    "Debugger state is unknown, cannot wait_until_attached"@
}

/// The reason `wait_until_attached` gives up once its deadline has passed
/// while the debugger is still detached.
pub open spec fn timeout_reason() -> Seq<char> {
    "wait_until_attached timed out"@
}

/// Does one poll of the wait-for-debugger loop resolve it, given the state it
/// observed and whether the deadline (if any) has passed?  Only a detached
/// debugger with time still on the clock keeps the loop going.
pub open spec fn wait_resolves(current: State, deadline_passed: bool) -> bool {
    !(current == State::Detatched && !deadline_passed)
}

/// One poll of the wait-for-debugger loop.  Given the state just observed and
/// whether the deadline (if any) has already passed, decide the outcome:
///
/// * `Attached` — `Some(Ok(()))`: the wait succeeded.
/// * `Unknown` — `Some(Err(..))` at once: no platform test exists, so polling
///   is pointless; the reason says so.
/// * `Detatched` with the deadline passed — `Some(Err(..))` with a timeout
///   reason.
/// * `Detatched` with time remaining (or no deadline at all) — `None`: the
///   caller sleeps one poll interval and polls again.
///
/// The loop around this function blocks its own thread only and offers no
/// cancellation besides the timeout: a caller cannot interrupt it early.
pub fn wait_step(current: State, deadline_passed: bool) -> (r: Option<Result<(), &'static str>>)
    ensures
        r is Some <==> wait_resolves(current, deadline_passed),
        current == State::Attached ==> r == Some(Result::<(), &'static str>::Ok(())),
        current == State::Unknown ==> (r matches Some(Err(reason)) && reason@ == unknown_state_reason()),
        current == State::Detatched && deadline_passed ==> (r matches Some(Err(reason))
            && reason@ == timeout_reason()),
{
    match current {
        State::Attached => Some(Ok(())),
        State::Unknown => Some(Err("Debugger state is unknown, cannot wait_until_attached")),
        State::Detatched => {
            if deadline_passed {
                Some(Err("wait_until_attached timed out"))
            } else {
                None
            }
        },
    }
}

/// ASCII line feed, the byte that ends a status-file line.
pub const NEWLINE: u8 = 10;

/// ASCII horizontal tab.
pub const TAB: u8 = 9;

/// ASCII carriage return.
pub const CARRIAGE_RETURN: u8 = 13;

/// ASCII space.
pub const SPACE: u8 = 32;

/// ASCII colon, the byte that ends the tracer field's label.
pub const COLON: u8 = 58;

/// ASCII digit zero, the tracer id that means "no tracer".
pub const DIGIT_ZERO: u8 = 48;

/// An ASCII byte that `str::trim` would remove: space, or one of the five
/// control characters tab through carriage return.
pub open spec fn is_space(b: u8) -> bool {
    b == SPACE || (TAB <= b && b <= CARRIAGE_RETURN)
}

/// `s` with its leading whitespace removed.
pub open spec fn trim_start(s: Seq<u8>) -> Seq<u8>
    decreases s.len(),
{
    if s.len() > 0 && is_space(s[0]) {
        trim_start(s.drop_first())
    } else {
        s
    }
}

/// `s` with its trailing whitespace removed.
pub open spec fn trim_end(s: Seq<u8>) -> Seq<u8>
    decreases s.len(),
{
    if s.len() > 0 && is_space(s.last()) {
        trim_end(s.drop_last())
    } else {
        s
    }
}

/// `s` with whitespace removed from both ends, as `str::trim` does for ASCII
/// text.
pub open spec fn trim(s: Seq<u8>) -> Seq<u8> {
    trim_end(trim_start(s))
}

/// The field label that names the id of the process tracing this one in a
/// process-status pseudo-file.
pub open spec fn tracer_prefix() -> Seq<u8> {
    // The ASCII bytes of "TracerPid:".
    seq![84u8, 114u8, 97u8, 99u8, 101u8, 114u8, 80u8, 105u8, 100u8, 58u8]
}

/// Does `s` begin with `p`?
pub open spec fn starts_with(s: Seq<u8>, p: Seq<u8>) -> bool {
    p.len() <= s.len() && s.subrange(0, p.len() as int) == p
}

/// Does the trimmed tracer line report a tracer id of zero?  The digit must
/// be a lone `0` terminated on its left by a space, a tab, or the label's own
/// colon — the three separators a status file may use.
pub open spec fn zero_suffix(s: Seq<u8>) -> bool {
    s.len() >= 2 && s.last() == DIGIT_ZERO && (s[s.len() - 2] == SPACE || s[s.len() - 2] == TAB
        || s[s.len() - 2] == COLON)
}

/// What a single status-file line says about the debugger: `None` when the
/// line does not carry the tracer field, otherwise `Detatched` for a zero
/// tracer id and `Attached` for any other.
///
/// A known platform caveat is preserved here, not masked: some
/// process-emulation layers misreport the tracer id as zero while a debugger
/// is in fact attached, and such a line still reads as `Detatched`.
pub open spec fn line_verdict(line: Seq<u8>) -> Option<State> {
    let t = trim(line);
    if starts_with(t, tracer_prefix()) {
        if zero_suffix(t) {
            Some(State::Detatched)
        } else {
            Some(State::Attached)
        }
    } else {
        None
    }
}

/// The prefix of `s` up to (not including) its first newline, or all of `s`
/// when it has none.
pub open spec fn first_line(s: Seq<u8>) -> Seq<u8>
    decreases s.len(),
{
    if s.len() == 0 || s[0] == NEWLINE {
        Seq::empty()
    } else {
        seq![s[0]] + first_line(s.drop_first())
    }
}

/// What a whole status file says about the debugger: the verdict of the
/// first line that carries the tracer field, or `Unknown` when no line does.
pub open spec fn probe_verdict(s: Seq<u8>) -> State
    decreases s.len(),
{
    let l = first_line(s);
    match line_verdict(l) {
        Some(st) => st,
        None => if l.len() >= s.len() {
            State::Unknown
        } else {
            probe_verdict(s.subrange(l.len() as int + 1, s.len() as int))
        },
    }
}

proof fn lemma_first_line_range(s: Seq<u8>, e: int)
    requires
        0 <= e <= s.len(),
        forall|k: int| 0 <= k < e ==> s[k] != NEWLINE,
        e == s.len() || s[e] == NEWLINE,
    ensures
        first_line(s) == s.subrange(0, e),
    decreases e,
{
    if e == 0 {
        assert(first_line(s) =~= s.subrange(0, 0));
    } else {
        lemma_first_line_range(s.drop_first(), e - 1);
        assert(s.subrange(0, e) =~= seq![s[0]] + s.drop_first().subrange(0, e - 1));
    }
}

proof fn lemma_trim_start_range(s: Seq<u8>, a: int)
    requires
        0 <= a <= s.len(),
        forall|k: int| 0 <= k < a ==> is_space(s[k]),
        a == s.len() || !is_space(s[a]),
    ensures
        trim_start(s) == s.subrange(a, s.len() as int),
    decreases a,
{
    if a == 0 {
        assert(s.subrange(0, s.len() as int) =~= s);
    } else {
        lemma_trim_start_range(s.drop_first(), a - 1);
        assert(s.drop_first().subrange(a - 1, s.drop_first().len() as int) =~= s.subrange(
            a,
            s.len() as int,
        ));
    }
}

proof fn lemma_trim_end_range(s: Seq<u8>, b: int)
    requires
        0 <= b <= s.len(),
        forall|k: int| b <= k < s.len() ==> is_space(s[k]),
        b == 0 || !is_space(s[b - 1]),
    ensures
        trim_end(s) == s.subrange(0, b),
    decreases s.len() - b,
{
    if b == s.len() {
        assert(s.subrange(0, s.len() as int) =~= s);
    } else {
        lemma_trim_end_range(s.drop_last(), b);
        assert(s.drop_last().subrange(0, b) =~= s.subrange(0, b));
    }
}

/// Is `b` a byte `str::trim` would remove?
fn is_space_byte(b: u8) -> (r: bool)
    ensures
        r == is_space(b),
{
    b == SPACE || (TAB <= b && b <= CARRIAGE_RETURN)
}

proof fn lemma_tracer_prefix_bytes(t: Seq<u8>)
    ensures
        starts_with(t, tracer_prefix()) <==> (t.len() >= 10 && t[0] == 84u8 && t[1] == 114u8
            && t[2] == 97u8 && t[3] == 99u8 && t[4] == 101u8 && t[5] == 114u8 && t[6] == 80u8
            && t[7] == 105u8 && t[8] == 100u8 && t[9] == 58u8),
{
    if t.len() >= 10 && t[0] == 84u8 && t[1] == 114u8 && t[2] == 97u8 && t[3] == 99u8 && t[4]
        == 101u8 && t[5] == 114u8 && t[6] == 80u8 && t[7] == 105u8 && t[8] == 100u8 && t[9]
        == 58u8 {
        assert(t.subrange(0, 10) =~= tracer_prefix());
    }
    if starts_with(t, tracer_prefix()) {
        assert(forall|j: int| 0 <= j < 10 ==> t.subrange(0, 10)[j] == t[j]);
    }
}

/// Classify the status-file line held in `text[pos..e)`: the tracer field's
/// verdict, or `None` when the line does not carry the field.
fn scan_line(text: &[u8], pos: usize, e: usize) -> (r: Option<State>)
    requires
        pos <= e <= text@.len(),
    ensures
        r == line_verdict(text@.subrange(pos as int, e as int)),
{
    let ghost line = text@.subrange(pos as int, e as int);
    // Trim the line: [a, b) is the line without surrounding whitespace.
    let mut a: usize = pos;
    while a < e && is_space_byte(*slice_index_get(text, a))
        invariant
            pos <= a <= e <= text@.len(),
            forall|k: int| pos <= k < a ==> is_space(text@[k]),
        decreases e - a,
    {
        a = a + 1;
    }
    let mut b: usize = e;
    while b > a && is_space_byte(*slice_index_get(text, b - 1))
        invariant
            pos <= a <= b <= e <= text@.len(),
            forall|k: int| b <= k < e ==> is_space(text@[k]),
        decreases b - a,
    {
        b = b - 1;
    }
    let ghost t = text@.subrange(a as int, b as int);
    proof {
        lemma_trim_start_range(line, a - pos);
        assert(line.subrange(a - pos, line.len() as int) =~= text@.subrange(a as int, e as int));
        let tail = text@.subrange(a as int, e as int);
        lemma_trim_end_range(tail, b - a);
        assert(tail.subrange(0, b - a) =~= t);
        assert(trim(line) == t);
        lemma_tracer_prefix_bytes(t);
        assert(forall|k: int| a <= k < b ==> t[k - a] == text@[k]);
    }
    // Does the trimmed line carry the tracer field?
    if b - a >= 10 && *slice_index_get(text, a) == 84u8 && *slice_index_get(text, a + 1) == 114u8
        && *slice_index_get(text, a + 2) == 97u8 && *slice_index_get(text, a + 3) == 99u8
        && *slice_index_get(text, a + 4) == 101u8 && *slice_index_get(text, a + 5) == 114u8
        && *slice_index_get(text, a + 6) == 80u8 && *slice_index_get(text, a + 7) == 105u8
        && *slice_index_get(text, a + 8) == 100u8 && *slice_index_get(text, a + 9) == COLON {
        let zero = *slice_index_get(text, b - 1) == DIGIT_ZERO && (*slice_index_get(text, b - 2)
            == SPACE || *slice_index_get(text, b - 2) == TAB || *slice_index_get(text, b - 2)
            == COLON);
        if zero {
            Some(State::Detatched)
        } else {
            Some(State::Attached)
        }
    } else {
        None
    }
}

/// Scan the raw contents of a process-status pseudo-file for the tracer
/// field, line by line.  Returns `Detatched` for a zero tracer id,
/// `Attached` for a non-zero one, and `Unknown` when no line carries the
/// field — the probe is best-effort and never fails.
///
/// The field may sit on any line; its digit may be set off by a space, a tab
/// or the label's colon; surrounding whitespace is ignored.
pub fn probe_status(text: &[u8]) -> (r: State)
    ensures
        r == probe_verdict(text@),
{
    let n: usize = text.len();
    let mut pos: usize = 0;
    proof {
        assert(text@.subrange(0, n as int) =~= text@);
    }
    loop
        invariant
            pos <= n,
            n == text@.len(),
            probe_verdict(text@) == probe_verdict(text@.subrange(pos as int, n as int)),
        decreases n - pos,
    {
        let ghost suffix = text@.subrange(pos as int, n as int);
        if pos == n {
            proof {
                assert(first_line(suffix) =~= Seq::<u8>::empty());
                assert(trim_start(Seq::<u8>::empty()) =~= Seq::<u8>::empty());
            }
            return State::Unknown;
        }
        // Find the end of the current line.
        let mut e: usize = pos;
        while e < n && *slice_index_get(text, e) != NEWLINE
            invariant
                pos <= e <= n,
                n == text@.len(),
                forall|k: int| pos <= k < e ==> text@[k] != NEWLINE,
            decreases n - e,
        {
            e = e + 1;
        }
        proof {
            lemma_first_line_range(suffix, e - pos);
            assert(suffix.subrange(0, e - pos) =~= text@.subrange(pos as int, e as int));
        }
        match scan_line(text, pos, e) {
            Some(st) => {
                return st;
            },
            None => {
                if e == n {
                    return State::Unknown;
                }
                proof {
                    assert(suffix.subrange(e + 1 - pos, suffix.len() as int) =~= text@.subrange(
                        e + 1,
                        n as int,
                    ));
                }
                pos = e + 1;
            },
        }
    }
}

/// Law: the probe's verdict depends on the status text alone.  Repeated
/// queries between which no attach or detach event changes the text
/// therefore report the same state — the oracle recomputes instead of
/// caching, and loses nothing by it.
pub proof fn lemma_probe_idempotent(t1: Seq<u8>, t2: Seq<u8>)
    requires
        t1 == t2,
    ensures
        probe_verdict(t1) == probe_verdict(t2),
{
}

/// Law: a wait given a deadline that has passed resolves at the poll that
/// notices it, whatever state that poll observes.  Together with the fixed
/// poll cadence this bounds the overshoot of a timed wait by one poll
/// interval.
pub proof fn lemma_wait_resolves_after_deadline(current: State)
    ensures
        wait_resolves(current, true),
{
}

/// Law: a wait that observes `Unknown` resolves immediately — it never
/// blocks, deadline or not, because no amount of polling can decide a
/// platform with no debugger test.
pub proof fn lemma_wait_unknown_immediate(deadline_passed: bool)
    ensures
        wait_resolves(State::Unknown, deadline_passed),
{
}

} // verus!
