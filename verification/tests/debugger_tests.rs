use bugsalot::debugger::{probe_status, should_break, wait_step, State};

#[test]
fn probe_zero_tracer_is_detached() {
    // A zero tracer id, set off by a tab.
    assert_eq!(probe_status(b"TracerPid:\t0"), State::Detatched);
}

#[test]
fn probe_nonzero_tracer_is_attached() {
    // A non-zero tracer id, set off by a space.
    assert_eq!(probe_status(b"TracerPid: 4821"), State::Attached);
}

#[test]
fn probe_without_tracer_field_is_unknown() {
    assert_eq!(probe_status(b"Name:\tcat\nUid:\t0\n"), State::Unknown);
    assert_eq!(probe_status(b""), State::Unknown);
}

#[test]
fn probe_finds_the_field_on_any_line() {
    let text = b"Name:\tcat\nUmask:\t0022\nTracerPid:\t0\nUid:\t0\n";
    assert_eq!(probe_status(text), State::Detatched);
    let text = b"Name:\tcat\nUmask:\t0022\nTracerPid:\t517\nUid:\t0\n";
    assert_eq!(probe_status(text), State::Attached);
}

#[test]
fn probe_tolerates_separator_variants_and_whitespace() {
    // Colon right before the digit, and surrounding whitespace to trim.
    assert_eq!(probe_status(b"TracerPid:0"), State::Detatched);
    assert_eq!(probe_status(b"  TracerPid: 0  \n"), State::Detatched);
    assert_eq!(probe_status(b"\tTracerPid:\t99\r\n"), State::Attached);
}

#[test]
fn probe_is_a_function_of_the_text() {
    // Repeated reads of an unchanged status file give the same state.
    let text = b"Name:\tcat\nTracerPid:\t0\n";
    let first = probe_status(text);
    let second = probe_status(text);
    assert_eq!(first, second);
}

#[test]
fn wait_attached_succeeds_immediately() {
    assert_eq!(wait_step(State::Attached, false), Some(Ok(())));
    assert_eq!(wait_step(State::Attached, true), Some(Ok(())));
}

#[test]
fn wait_unknown_fails_immediately() {
    // An unknown state is a non-retryable failure: no poll can resolve it.
    assert_eq!(
        wait_step(State::Unknown, false),
        Some(Err("Debugger state is unknown, cannot wait_until_attached"))
    );
    assert_eq!(
        wait_step(State::Unknown, true),
        Some(Err("Debugger state is unknown, cannot wait_until_attached"))
    );
}

#[test]
fn wait_detached_polls_until_deadline() {
    assert_eq!(wait_step(State::Detatched, false), None);
    assert_eq!(
        wait_step(State::Detatched, true),
        Some(Err("wait_until_attached timed out"))
    );
}

#[test]
fn breakpoint_only_when_attached() {
    assert!(should_break(State::Attached));
    assert!(!should_break(State::Detatched));
    assert!(!should_break(State::Unknown));
}
