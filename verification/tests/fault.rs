use reprl::fault::{dispatch, HostAction, HostValue, HOST_FUNCTION_ARITY, HOST_FUNCTION_NAME};
use reprl::violation::Violation;

fn text(s: &str) -> HostValue {
    HostValue::Text(s.to_string())
}

#[test]
fn host_function_is_named_fuzzilli() {
    assert_eq!(HOST_FUNCTION_NAME, "fuzzilli");
    assert_eq!(HOST_FUNCTION_ARITY, 2);
}

#[test]
fn print_hands_out_the_bytes_of_its_argument() {
    assert_eq!(
        dispatch(&text("FUZZILLI_PRINT"), &text("hello")),
        Ok(HostAction::Print { bytes: b"hello".to_vec() })
    );
    assert_eq!(
        dispatch(&text("FUZZILLI_PRINT"), &text("")),
        Ok(HostAction::Print { bytes: Vec::new() })
    );
    assert_eq!(
        dispatch(&text("FUZZILLI_PRINT"), &text("\u{e9}\u{20ac}")),
        Ok(HostAction::Print { bytes: vec![0xc3, 0xa9, 0xe2, 0x82, 0xac] })
    );
}

#[test]
fn print_needs_a_string() {
    assert_eq!(
        dispatch(&text("FUZZILLI_PRINT"), &HostValue::Integer(5)),
        Err(Violation::HostArgument)
    );
    assert_eq!(dispatch(&text("FUZZILLI_PRINT"), &HostValue::Other), Err(Violation::HostArgument));
}

#[test]
fn crash_with_selector_zero_faults() {
    assert_eq!(dispatch(&text("FUZZILLI_CRASH"), &HostValue::Integer(0)), Ok(HostAction::Crash));
}

#[test]
fn crash_with_another_selector_reports_it() {
    assert_eq!(
        dispatch(&text("FUZZILLI_CRASH"), &HostValue::Integer(1)),
        Err(Violation::CrashSelector { selector: 1 })
    );
    assert_eq!(
        dispatch(&text("FUZZILLI_CRASH"), &HostValue::Integer(-7)),
        Err(Violation::CrashSelector { selector: -7 })
    );
    assert_eq!(
        dispatch(&text("FUZZILLI_CRASH"), &HostValue::Integer(i64::MAX)),
        Err(Violation::CrashSelector { selector: i64::MAX })
    );
}

#[test]
fn crash_needs_an_integer() {
    assert_eq!(dispatch(&text("FUZZILLI_CRASH"), &text("0")), Err(Violation::HostArgument));
    assert_eq!(dispatch(&text("FUZZILLI_CRASH"), &HostValue::Other), Err(Violation::HostArgument));
}

#[test]
fn other_commands_are_unknown() {
    assert_eq!(dispatch(&text("FUZZILLI_EXIT"), &text("x")), Err(Violation::UnknownHostCommand));
    assert_eq!(dispatch(&text("fuzzilli_print"), &text("x")), Err(Violation::UnknownHostCommand));
    assert_eq!(dispatch(&text("FUZZILLI_PRINT "), &text("x")), Err(Violation::UnknownHostCommand));
    assert_eq!(dispatch(&text(""), &HostValue::Integer(0)), Err(Violation::UnknownHostCommand));
}

#[test]
fn the_command_has_to_be_a_string() {
    assert_eq!(dispatch(&HostValue::Integer(0), &text("x")), Err(Violation::HostArgument));
    assert_eq!(dispatch(&HostValue::Other, &HostValue::Other), Err(Violation::HostArgument));
}
