use std::cell::Cell;

use bugsalot::checkable::Addr;
use bugsalot::diag::render_unwrap_failed;
use bugsalot::engine::{check_or, check_or_unit};

#[test]
fn check_true_passes_without_side_effects() {
    // A passing check returns the value and touches neither the breakpoint
    // trigger nor the fallback.
    let r: bool = check_or(
        "scenario_tests.rs",
        1,
        "msg",
        "flag",
        true,
        || panic!("breakpoint fired on a passing check"),
        || panic!("fallback evaluated on a passing check"),
    );
    assert_eq!(r, true);
}

#[test]
fn check_false_returns_fallback_and_traps_once() {
    // A failing check returns exactly the fallback and fires the breakpoint
    // trigger exactly once.
    let trap_count = Cell::new(0u32);
    let fallback_count = Cell::new(0u32);
    let r: bool = check_or(
        "scenario_tests.rs",
        2,
        "msg",
        "flag",
        false,
        || trap_count.set(trap_count.get() + 1),
        || {
            fallback_count.set(fallback_count.get() + 1);
            false
        },
    );
    assert_eq!(r, false);
    assert_eq!(trap_count.get(), 1);
    assert_eq!(fallback_count.get(), 1);
}

#[test]
fn check_some_passes_with_payload() {
    let v: Option<i32> = Some(42);
    let r: i32 = check_or(
        "scenario_tests.rs",
        3,
        "msg",
        "v",
        v,
        || panic!("breakpoint fired on a passing check"),
        || panic!("fallback evaluated on a passing check"),
    );
    assert_eq!(r, 42);
}

#[test]
fn check_none_returns_fallback() {
    let trap_count = Cell::new(0u32);
    let v: Option<i32> = None;
    let r: i32 = check_or(
        "scenario_tests.rs",
        4,
        "msg",
        "v",
        v,
        || trap_count.set(trap_count.get() + 1),
        || 0,
    );
    assert_eq!(r, 0);
    assert_eq!(trap_count.get(), 1);
}

#[test]
fn check_err_returns_fallback() {
    let trap_count = Cell::new(0u32);
    let v: Result<i32, &'static str> = Err("boom");
    let r: i32 = check_or(
        "scenario_tests.rs",
        5,
        "msg",
        "v",
        v,
        || trap_count.set(trap_count.get() + 1),
        || 0,
    );
    assert_eq!(r, 0);
    assert_eq!(trap_count.get(), 1);
}

#[test]
fn check_ok_passes_with_payload() {
    let v: Result<i32, &'static str> = Ok(7);
    let r: i32 = check_or(
        "scenario_tests.rs",
        6,
        "msg",
        "v",
        v,
        || panic!("breakpoint fired on a passing check"),
        || panic!("fallback evaluated on a passing check"),
    );
    assert_eq!(r, 7);
}

#[test]
fn check_null_address_returns_fallback() {
    let trap_count = Cell::new(0u32);
    let v = Addr { addr: 0 };
    let r: Addr = check_or(
        "scenario_tests.rs",
        7,
        "msg",
        "v",
        v,
        || trap_count.set(trap_count.get() + 1),
        || Addr { addr: 12 },
    );
    assert_eq!(r, Addr { addr: 12 });
    assert_eq!(trap_count.get(), 1);
}

#[test]
fn check_unit_failure_traps_once() {
    let trap_count = Cell::new(0u32);
    check_or_unit("scenario_tests.rs", 8, "msg", "flag", false, || trap_count.set(
        trap_count.get() + 1,
    ));
    assert_eq!(trap_count.get(), 1);
}

#[test]
fn check_unit_success_is_silent() {
    check_or_unit("scenario_tests.rs", 9, "msg", "flag", true, || panic!(
        "breakpoint fired on a passing check"
    ));
}

#[test]
fn diagnostic_for_failed_boolean_check() {
    // Scenario: `false` checked against `false` — bare labels, no payload
    // decoration on either side.
    let text = render_unwrap_failed(
        "checks.rs",
        7,
        "check failed",
        "flag",
        "true",
        "false",
        false,
        false,
        "false",
    );
    assert_eq!(
        text,
        "checks.rs(7): check failed\r\n    Expression: flag\r\n    Expected:   true\r\n    Found:      false\r\n\0"
    );
}

#[test]
fn diagnostic_for_failed_optional_check() {
    // Scenario: a `None` optional — the pass label wraps a payload, the fail
    // label is bare.
    let text = render_unwrap_failed(
        "checks.rs",
        12,
        "check failed",
        "lookup(k)",
        "Some",
        "None",
        true,
        false,
        "()",
    );
    assert_eq!(
        text,
        "checks.rs(12): check failed\r\n    Expression: lookup(k)\r\n    Expected:   Some(...)\r\n    Found:      None\r\n\0"
    );
}

#[test]
fn diagnostic_for_failed_result_check() {
    // Scenario: `Err("boom")` — both labels decorated, the failure payload
    // rendered into the found line.
    let text = render_unwrap_failed(
        "checks.rs",
        21,
        "check failed",
        "parse(s)",
        "Ok",
        "Err",
        true,
        true,
        "\"boom\"",
    );
    assert_eq!(
        text,
        "checks.rs(21): check failed\r\n    Expression: parse(s)\r\n    Expected:   Ok(...)\r\n    Found:      Err(\"boom\")\r\n\0"
    );
}
