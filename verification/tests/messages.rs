use dscp_qos::error::{DscpError, FlowStep, OsFailure};

#[test]
fn formats_a_failure_message() {
    let f = OsFailure::new(FlowStep::SetFlow, 87, "  The parameter is incorrect.\r\n");
    assert_eq!(f.code, 87);
    assert_eq!(f.message, "[Error 87] QOSSetFlow: The parameter is incorrect.");
}

#[test]
fn each_step_carries_its_os_name() {
    assert_eq!(FlowStep::CreateHandle.label(), "QOSCreateHandle");
    assert_eq!(FlowStep::AddSocketToFlow.label(), "QOSAddSocketToFlow");
    assert_eq!(FlowStep::SetFlow.label(), "QOSSetFlow");
}

#[test]
fn renders_the_largest_code_in_decimal() {
    let f = OsFailure::new(FlowStep::CreateHandle, u32::MAX, "x");
    assert_eq!(f.message, "[Error 4294967295] QOSCreateHandle: x");
}

#[test]
fn renders_code_one() {
    let f = OsFailure::new(FlowStep::AddSocketToFlow, 1, "Incorrect function.");
    assert_eq!(f.message, "[Error 1] QOSAddSocketToFlow: Incorrect function.");
}

#[test]
fn trims_unicode_whitespace_around_the_description() {
    let f = OsFailure::new(FlowStep::SetFlow, 5, "\u{00A0}\u{3000} Access is denied. \t\u{2028}");
    assert_eq!(f.message, "[Error 5] QOSSetFlow: Access is denied.");
}

#[test]
fn keeps_whitespace_inside_the_description() {
    let f = OsFailure::new(FlowStep::SetFlow, 5, " one  two ");
    assert_eq!(f.message, "[Error 5] QOSSetFlow: one  two");
}

#[test]
fn a_blank_description_leaves_an_empty_tail() {
    let f = OsFailure::new(FlowStep::CreateHandle, 5, " \r\n\t ");
    assert_eq!(f.message, "[Error 5] QOSCreateHandle: ");
}

#[test]
fn unsupported_platform_has_its_own_message() {
    let e = DscpError::Unsupported;
    assert_eq!(
        e.message(),
        "socket DSCP marking is unsupported on this platform"
    );
}

#[test]
fn an_os_failure_message_passes_through_unchanged() {
    let f = OsFailure::new(FlowStep::SetFlow, 87, "The parameter is incorrect.");
    let expected = f.message.clone();
    let e = DscpError::Os(f);
    assert_eq!(e.message(), expected);
}
