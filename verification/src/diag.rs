//! Rendering and delivery of diagnostics.
//!
//! A diagnostic is an ephemeral formatted string: source location, a caller
//! message, the source text of the checked expression, and the pass/fail
//! labels of the checked value.  Its exact layout is pinned down by spec
//! functions here, the renderers are proved to produce it, and `output`
//! hands the finished text to the platform's debug sink.

use vstd::prelude::*;

use crate::checkable::{DebugUnwrap, MaybeDebug};

verus! {

/// The decimal digit character for `d` (values ten and above all map to the
/// last digit; callers only pass reduced digits).
pub open spec fn digit_char(d: nat) -> char {
    if d == 0 {
        '0'
    } else if d == 1 {
        '1'
    } else if d == 2 {
        '2'
    } else if d == 3 {
        '3'
    } else if d == 4 {
        '4'
    } else if d == 5 {
        '5'
    } else if d == 6 {
        '6'
    } else if d == 7 {
        '7'
    } else if d == 8 {
        '8'
    } else {
        '9'
    }
}

/// The usual decimal rendering of `n`: no sign, no leading zeros (except for
/// zero itself, which is a single digit).
pub open spec fn dec_seq(n: nat) -> Seq<char>
    decreases n,
{
    if n < 10 {
        seq![digit_char(n)]
    } else {
        dec_seq(n / 10) + seq![digit_char(n % 10)]
    }
}

/// Append the single decimal digit `d` to `s`.
fn push_digit(s: &mut String, d: u64)
    requires
        d < 10,
    ensures
        final(s)@ == old(s)@ + seq![digit_char(d as nat)],
{
    if d == 0 {
        s.append("0");
        proof {
            reveal_strlit("0");
            assert(s@ =~= old(s)@ + seq![digit_char(d as nat)]);
        }
    } else if d == 1 {
        s.append("1");
        proof {
            reveal_strlit("1");
            assert(s@ =~= old(s)@ + seq![digit_char(d as nat)]);
        }
    } else if d == 2 {
        s.append("2");
        proof {
            reveal_strlit("2");
            assert(s@ =~= old(s)@ + seq![digit_char(d as nat)]);
        }
    } else if d == 3 {
        s.append("3");
        proof {
            reveal_strlit("3");
            assert(s@ =~= old(s)@ + seq![digit_char(d as nat)]);
        }
    } else if d == 4 {
        s.append("4");
        proof {
            reveal_strlit("4");
            assert(s@ =~= old(s)@ + seq![digit_char(d as nat)]);
        }
    } else if d == 5 {
        s.append("5");
        proof {
            reveal_strlit("5");
            assert(s@ =~= old(s)@ + seq![digit_char(d as nat)]);
        }
    } else if d == 6 {
        s.append("6");
        proof {
            reveal_strlit("6");
            assert(s@ =~= old(s)@ + seq![digit_char(d as nat)]);
        }
    } else if d == 7 {
        s.append("7");
        proof {
            reveal_strlit("7");
            assert(s@ =~= old(s)@ + seq![digit_char(d as nat)]);
        }
    } else if d == 8 {
        s.append("8");
        proof {
            reveal_strlit("8");
            assert(s@ =~= old(s)@ + seq![digit_char(d as nat)]);
        }
    } else {
        s.append("9");
        proof {
            reveal_strlit("9");
            assert(s@ =~= old(s)@ + seq![digit_char(d as nat)]);
        }
    }
}

/// Append the decimal rendering of `n` to `s`.
fn push_dec(s: &mut String, n: u64)
    ensures
        final(s)@ == old(s)@ + dec_seq(n as nat),
    decreases n,
{
    if n >= 10 {
        push_dec(s, n / 10);
    }
    push_digit(s, n % 10);
    proof {
        if n >= 10 {
            assert(dec_seq(n as nat) == dec_seq(n as nat / 10) + seq![
                digit_char(n as nat % 10),
            ]);
            assert(s@ =~= old(s)@ + dec_seq(n as nat));
        } else {
            assert(n as nat % 10 == n as nat);
            assert(s@ =~= old(s)@ + dec_seq(n as nat));
        }
    }
}

/// The decimal rendering of `n` as an owned string.
pub fn u64_to_decimal(n: u64) -> (s: String)
    ensures
        s@ == dec_seq(n as nat),
{
    let mut s = String::new();
    push_dec(&mut s, n);
    proof {
        assert(s@ =~= dec_seq(n as nat));
    }
    s
}

/// The decimal rendering of `n` as an owned string — used for line numbers
/// and other counters in diagnostics.
pub fn u32_to_decimal(n: u32) -> (s: String)
    ensures
        s@ == dec_seq(n as nat),
{
    u64_to_decimal(n as u64)
}

/// The usual decimal rendering of a signed number: a leading minus sign for
/// a negative value, plain digits otherwise.
pub open spec fn int_dec_seq(n: int) -> Seq<char> {
    if n < 0 {
        seq!['-'] + dec_seq((-n) as nat)
    } else {
        dec_seq(n as nat)
    }
}

/// The decimal rendering of a signed number as an owned string.
pub fn i64_to_decimal(n: i64) -> (s: String)
    ensures
        s@ == int_dec_seq(n as int),
{
    if n >= 0 {
        u64_to_decimal(n as u64)
    } else {
        let mut s = String::from_str("-");
        let wide: i128 = n as i128;
        let magnitude: u64 = (-wide) as u64;
        push_dec(&mut s, magnitude);
        proof {
            reveal_strlit("-");
            assert(s@ =~= int_dec_seq(n as int));
        }
        s
    }
}

/// Does the text end in a NUL terminator?
pub open spec fn ends_nul(s: Seq<char>) -> bool {
    s.len() > 0 && s.last() == '\0'
}

/// Guarantee a trailing NUL terminator, for sinks that require one: appended
/// when missing, the text otherwise unchanged.
pub fn require_nul(message: String) -> (r: String)
    ensures
        r@ == if ends_nul(message@) {
            message@
        } else {
            message@.push('\0')
        },
{
    let ghost orig = message@;
    let n: usize = message.as_str().unicode_len();
    if n > 0 && message.as_str().get_char(n - 1) == '\0' {
        message
    } else {
        let mut m = message;
        m.append("\0");
        proof {
            reveal_strlit("\0");
            assert(m@ =~= orig.push('\0'));
        }
        m
    }
}

/// Guarantee the text carries no trailing NUL terminator, for sinks that
/// expect plain text: one trailing NUL is removed, the text otherwise
/// unchanged.
pub fn require_no_nul(message: String) -> (r: String)
    ensures
        r@ == if ends_nul(message@) {
            message@.drop_last()
        } else {
            message@
        },
{
    let ghost orig = message@;
    let n: usize = message.as_str().unicode_len();
    if n > 0 && message.as_str().get_char(n - 1) == '\0' {
        let trimmed = message.as_str().substring_char(0, n - 1);
        let r = String::from_str(trimmed);
        proof {
            assert(r@ =~= orig.drop_last());
        }
        r
    } else {
        message
    }
}

/// Relies on std::io::Stderr::write_all: delivers the given bytes to the
/// standard error stream, best effort; a failed write is ignored, as a
/// diagnostic must never turn fatal.
#[verifier::external_body]
fn write_stderr(s: &str) {
    let mut sink = std::io::stderr();
    let _ = std::io::Write::write_all(&mut sink, s.as_bytes());
}

/// Write one diagnostic message to the platform's standard debugging
/// channel.  On this platform that is the standard error stream, which wants
/// plain text: a trailing NUL left for other sinks is stripped before the
/// write.  The message should end in a newline; the sink combines bare
/// fragments unpredictably.
pub fn output(message: String) {
    let m = require_no_nul(message);
    write_stderr(m.as_str());
}

/// The first line of every diagnostic: `<file>(<line>): <message>`, with the
/// line ending both common line-ending conventions accept.
pub open spec fn location_line(file: Seq<char>, line: nat, msg: Seq<char>) -> Seq<char> {
    file + "("@ + dec_seq(line) + "): "@ + msg + "\r\n"@
}

/// The full text of a failed-check diagnostic: the location line, then the
/// checked expression's source text, the label of the expected (passing)
/// outcome — decorated with `(...)` when that outcome wraps a payload — and
/// the label of the found (failing) outcome, decorated with the rendered
/// failure payload when there is one.  A trailing NUL is kept for the sinks
/// that want one; `output` strips it for the others.
pub open spec fn unwrap_failed_text(
    file: Seq<char>,
    line: nat,
    msg: Seq<char>,
    expr: Seq<char>,
    pass: Seq<char>,
    fail: Seq<char>,
    pass_payload: bool,
    fail_payload: bool,
    err: Seq<char>,
) -> Seq<char> {
    location_line(file, line, msg) + "    Expression: "@ + expr + "\r\n"@ + "    Expected:   "@
        + pass + (if pass_payload {
        "(...)"@
    } else {
        Seq::<char>::empty()
    }) + "\r\n"@ + "    Found:      "@ + fail + (if fail_payload {
        "("@ + err + ")"@
    } else {
        Seq::<char>::empty()
    }) + "\r\n"@ + "\0"@
}

/// The full text of a plain bug report: the location line alone.
pub open spec fn bug_text(file: Seq<char>, line: nat, msg: Seq<char>) -> Seq<char> {
    location_line(file, line, msg)
}

/// Render a failed-check diagnostic from its parts.  The exact layout is
/// pinned down by [`unwrap_failed_text`]; keeping it stable preserves
/// cross-tool readability of the reports.
pub fn render_unwrap_failed(
    file: &str,
    line: u32,
    msg: &str,
    expr: &str,
    pass: &str,
    fail: &str,
    pass_payload: bool,
    fail_payload: bool,
    err: &str,
) -> (r: String)
    ensures
        r@ == unwrap_failed_text(
            file@,
            line as nat,
            msg@,
            expr@,
            pass@,
            fail@,
            pass_payload,
            fail_payload,
            err@,
        ),
{
    let mut s = String::from_str(file);
    s.append("(");
    let num = u32_to_decimal(line);
    s.append(num.as_str());
    s.append("): ");
    s.append(msg);
    s.append("\r\n");
    s.append("    Expression: ");
    s.append(expr);
    s.append("\r\n");
    s.append("    Expected:   ");
    s.append(pass);
    if pass_payload {
        s.append("(...)");
    }
    s.append("\r\n");
    s.append("    Found:      ");
    s.append(fail);
    if fail_payload {
        s.append("(");
        s.append(err);
        s.append(")");
    }
    s.append("\r\n");
    s.append("\0");
    proof {
        assert(s@ =~= unwrap_failed_text(
            file@,
            line as nat,
            msg@,
            expr@,
            pass@,
            fail@,
            pass_payload,
            fail_payload,
            err@,
        ));
    }
    s
}

/// Render a plain bug report from its parts; the layout is pinned down by
/// [`bug_text`].
pub fn render_bug(file: &str, line: u32, msg: &str) -> (r: String)
    ensures
        r@ == bug_text(file@, line as nat, msg@),
{
    let mut s = String::from_str(file);
    s.append("(");
    let num = u32_to_decimal(line);
    s.append(num.as_str());
    s.append("): ");
    s.append(msg);
    s.append("\r\n");
    proof {
        assert(s@ =~= bug_text(file@, line as nat, msg@));
    }
    s
}

/// Report a failed check: render the diagnostic for the failing value and
/// write it to the platform sink.  Only ever called on a value whose check
/// failed; the failure payload is extracted and rendered here.
pub fn log_unwrap_failed<O, E: MaybeDebug, DU: DebugUnwrap<O, E>>(
    file: &str,
    line: u32,
    msg: &str,
    expr: &str,
    du: DU,
)
    requires
        !du.spec_can_unwrap(),
{
    let labels = du.get_pass_fail_strs();
    let err = du.unwrap_err();
    let rendered = err.fmt();
    let text = render_unwrap_failed(
        file,
        line,
        msg,
        expr,
        labels.0,
        labels.1,
        labels.2,
        labels.3,
        rendered.as_str(),
    );
    output(text);
}

/// Report a bug by logging alone.  Unlike a panic this is non-fatal and
/// continuable: the report is written to the platform sink and control
/// returns to the caller.
pub fn log_bug(file: &str, line: u32, msg: &str) {
    let text = render_bug(file, line, msg);
    output(text);
}

/// Log priorities of the mobile platform's native logging facility, in
/// increasing order of severity.  Diagnostics are reported there as
/// `ERROR`.
#[allow(non_camel_case_types)]
#[derive(Clone, Copy, Debug)]
pub enum Priority {
    UNKNOWN,
    DEFAULT,
    VERBOSE,
    DEBUG,
    INFO,
    WARN,
    ERROR,
    FATAL,
    SILENT,
}

impl Priority {
    /// The numeric level the native logging facility assigns this priority.
    pub open spec fn spec_code(&self) -> i32 {
        match self {
            Priority::UNKNOWN => 0,
            Priority::DEFAULT => 1,
            Priority::VERBOSE => 2,
            Priority::DEBUG => 3,
            Priority::INFO => 4,
            Priority::WARN => 5,
            Priority::ERROR => 6,
            Priority::FATAL => 7,
            Priority::SILENT => 8,
        }
    }

    /// The numeric level passed to the facility's C entry points.
    pub fn code(&self) -> (r: i32)
        ensures
            r == self.spec_code(),
    {
        match self {
            Priority::UNKNOWN => 0,
            Priority::DEFAULT => 1,
            Priority::VERBOSE => 2,
            Priority::DEBUG => 3,
            Priority::INFO => 4,
            Priority::WARN => 5,
            Priority::ERROR => 6,
            Priority::FATAL => 7,
            Priority::SILENT => 8,
        }
    }
}

} // verus!
