use bugsalot::checkable::Addr;
use bugsalot::engine::{check_or, check_or_unit};

// The breakpoint trigger used by the tests: no debugger is attached while
// they run, so the trigger is inert.
fn no_trap() {}

#[test]
fn unwrap_examples() {
    let file = "unwrap_tests.rs";
    let msg = "unwrap! failed";

    let a = true;
    let _: bool = check_or(file, 11, msg, "a", a, no_trap, || false);
    let _: () = check_or_unit(file, 12, msg, "a", a, no_trap);
    let _: () = check_or_unit(file, 13, msg, "a", a, no_trap);
    let _: bool = check_or(file, 14, msg, "a", a, no_trap, || unreachable!());

    let a: Option<i32> = Some(42);
    let _: i32 = check_or(file, 17, msg, "a", a, no_trap, || 0);
    let _: () = check_or_unit(file, 18, msg, "a", a, no_trap);
    let _: () = check_or_unit(file, 19, msg, "a", a, no_trap);
    let _: i32 = check_or(file, 20, msg, "a", a, no_trap, || unreachable!());

    let a: Result<i32, &'static str> = Ok(42);
    let _: i32 = check_or(file, 23, msg, "a", a, no_trap, || 0);
    let _: () = check_or_unit(file, 24, msg, "a", a, no_trap);
    let _: () = check_or_unit(file, 25, msg, "a", a, no_trap);
    let _: i32 = check_or(file, 26, msg, "a", a, no_trap, || unreachable!());

    // A non-null pointer's address, as the core carries it; 12 stands where
    // the original fallback pointed at a 12.
    let a = Addr { addr: 42 };
    let _: Addr = check_or(file, 31, msg, "a", a, no_trap, || Addr { addr: 12 });
    let _: () = check_or_unit(file, 32, msg, "a", a, no_trap);
    let _: () = check_or_unit(file, 33, msg, "a", a, no_trap);
    let _: Addr = check_or(file, 34, msg, "a", a, no_trap, || unreachable!());
}

#[test]
fn expect_examples() {
    let file = "unwrap_tests.rs";

    let a = true;
    let _: bool = check_or(file, 41, "Couldn't do something", "a", a, no_trap, || false);
    let _: () = check_or_unit(file, 42, "Couldn't do something", "a", a, no_trap);
    let _: () = check_or_unit(file, 43, "Couldn't do something", "a", a, no_trap);
    let _: bool = check_or(file, 44, "Couldn't do something", "a", a, no_trap, || unreachable!());

    let a: Option<i32> = Some(42);
    let _: i32 = check_or(file, 47, "Couldn't do something", "a", a, no_trap, || 0);
    let _: () = check_or_unit(file, 48, "Couldn't do something", "a", a, no_trap);
    let _: () = check_or_unit(file, 49, "Couldn't do something", "a", a, no_trap);
    let _: i32 = check_or(file, 50, "Couldn't do something", "a", a, no_trap, || unreachable!());

    let a: Result<i32, &'static str> = Ok(42);
    let _: i32 = check_or(file, 53, "Couldn't do something", "a", a, no_trap, || 0);
    let _: () = check_or_unit(file, 54, "Couldn't do something", "a", a, no_trap);
    let _: () = check_or_unit(file, 55, "Couldn't do something", "a", a, no_trap);
    let _: i32 = check_or(file, 56, "Couldn't do something", "a", a, no_trap, || unreachable!());

    let a = Addr { addr: 42 };
    let _: Addr = check_or(file, 59, "Couldn't do something!", "a", a, no_trap, || Addr {
        addr: 12,
    });
    let _: () = check_or_unit(file, 60, "Couldn't do something!", "a", a, no_trap);
    let _: () = check_or_unit(file, 61, &format!("String {}", 42), "a", a, no_trap);
    let _: Addr = check_or(file, 62, &format!("String {}", 42), "a", a, no_trap, ||
        unreachable!());
}
