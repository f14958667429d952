use dscp_qos::error::{DscpError, OsFailure};
use dscp_qos::flow::{
    begin_set_socket_dscp, begin_set_socket_tos, CallOutcome, FlowSetup, QosCall,
};

fn started(r: Result<FlowSetup, DscpError>) -> FlowSetup {
    match r {
        Ok(s) => s,
        Err(_) => panic!("the pipeline was refused on a QoS-capable platform"),
    }
}

/// Drive a pipeline to its end, every call succeeding; return the calls it
/// asked for and its verdict.
fn drive_all_success(mut s: FlowSetup) -> (Vec<QosCall>, Result<(), OsFailure>) {
    let mut calls = Vec::new();
    while let Some(c) = s.next_call() {
        calls.push(c);
        s.absorb(CallOutcome::Succeeded);
    }
    (calls, s.into_result())
}

#[test]
fn tos_184_becomes_dscp_46_and_succeeds() {
    let s = started(begin_set_socket_tos(7, 184, true));
    assert_eq!(s.dscp, 46);
    assert_eq!(s.socket, 7);
    let (calls, verdict) = drive_all_success(s);
    assert_eq!(
        calls,
        vec![
            QosCall::ConnectLoopback,
            QosCall::CreateHandle,
            QosCall::AddSocketToFlow,
            QosCall::SetFlow { dscp: 46 },
        ]
    );
    assert!(verdict.is_ok());
}

#[test]
fn tos_conversion_is_a_two_bit_shift() {
    for tos in 0..=255u16 {
        let s = started(begin_set_socket_tos(1, tos as u8, true));
        assert_eq!(s.dscp, (tos as u8) >> 2);
        assert!(s.dscp <= 63);
    }
}

#[test]
fn dscp_is_passed_through_unconverted() {
    let s = started(begin_set_socket_dscp(3, 46, true));
    assert_eq!(s.dscp, 46);
    let (calls, verdict) = drive_all_success(s);
    assert_eq!(calls[3], QosCall::SetFlow { dscp: 46 });
    assert!(verdict.is_ok());
}

#[test]
fn an_out_of_range_code_is_not_validated() {
    let s = started(begin_set_socket_dscp(3, 200, true));
    let (calls, verdict) = drive_all_success(s);
    assert_eq!(calls[3], QosCall::SetFlow { dscp: 200 });
    assert!(verdict.is_ok());
}

#[test]
fn unsupported_platform_refuses_both_entry_points() {
    let r = begin_set_socket_dscp(7, 46, false);
    assert!(matches!(r, Err(DscpError::Unsupported)));
    let r = begin_set_socket_tos(7, 184, false);
    assert!(matches!(r, Err(DscpError::Unsupported)));
}

#[test]
fn a_failing_connect_does_not_abort_the_pipeline() {
    let mut s = started(begin_set_socket_dscp(7, 46, true));
    assert_eq!(s.next_call(), Some(QosCall::ConnectLoopback));
    s.absorb(CallOutcome::Failed {
        code: 10049,
        detail: String::from("The requested address is not valid in its context."),
    });
    let (calls, verdict) = drive_all_success(s);
    assert_eq!(
        calls,
        vec![
            QosCall::CreateHandle,
            QosCall::AddSocketToFlow,
            QosCall::SetFlow { dscp: 46 },
        ]
    );
    assert!(verdict.is_ok());
}

#[test]
fn a_failing_handle_creation_stops_the_pipeline() {
    let mut s = started(begin_set_socket_dscp(7, 46, true));
    s.absorb(CallOutcome::Succeeded);
    assert_eq!(s.next_call(), Some(QosCall::CreateHandle));
    s.absorb(CallOutcome::Failed {
        code: 1062,
        detail: String::from("The service has not been started.\r\n"),
    });
    assert_eq!(s.next_call(), None);
    match s.into_result() {
        Ok(()) => panic!("a failed pipeline reported success"),
        Err(f) => {
            assert_eq!(f.code, 1062);
            assert_eq!(
                f.message,
                "[Error 1062] QOSCreateHandle: The service has not been started."
            );
        }
    }
}

#[test]
fn an_invalid_socket_yields_a_structured_failure() {
    let mut s = started(begin_set_socket_dscp(99, 46, true));
    s.absorb(CallOutcome::Succeeded);
    s.absorb(CallOutcome::Succeeded);
    assert_eq!(s.next_call(), Some(QosCall::AddSocketToFlow));
    s.absorb(CallOutcome::Failed {
        code: 10038,
        detail: String::from("An operation was attempted on something that is not a socket. "),
    });
    assert_eq!(s.next_call(), None);
    match s.into_result() {
        Ok(()) => panic!("a failed pipeline reported success"),
        Err(f) => {
            assert_eq!(f.code, 10038);
            assert_eq!(
                f.message,
                "[Error 10038] QOSAddSocketToFlow: An operation was attempted on something that is not a socket."
            );
        }
    }
}

#[test]
fn a_failing_flow_update_stops_the_pipeline() {
    let mut s = started(begin_set_socket_dscp(7, 46, true));
    s.absorb(CallOutcome::Succeeded);
    s.absorb(CallOutcome::Succeeded);
    s.absorb(CallOutcome::Succeeded);
    assert_eq!(s.next_call(), Some(QosCall::SetFlow { dscp: 46 }));
    s.absorb(CallOutcome::Failed {
        code: 87,
        detail: String::from("The parameter is incorrect."),
    });
    match s.into_result() {
        Ok(()) => panic!("a failed pipeline reported success"),
        Err(f) => {
            assert_eq!(f.code, 87);
            assert_eq!(f.message, "[Error 87] QOSSetFlow: The parameter is incorrect.");
        }
    }
}

#[test]
fn repeating_the_pipeline_applies_the_same_marking() {
    let first = started(begin_set_socket_dscp(7, 46, true));
    let (first_calls, first_verdict) = drive_all_success(first);
    let second = started(begin_set_socket_dscp(7, 46, true));
    let (second_calls, second_verdict) = drive_all_success(second);
    assert!(first_verdict.is_ok());
    assert!(second_verdict.is_ok());
    assert_eq!(first_calls, second_calls);
    assert_eq!(first_calls[3], QosCall::SetFlow { dscp: 46 });
}

#[test]
fn a_finished_pipeline_asks_for_nothing_more() {
    let mut s = started(begin_set_socket_dscp(7, 46, true));
    s.absorb(CallOutcome::Succeeded);
    s.absorb(CallOutcome::Succeeded);
    s.absorb(CallOutcome::Succeeded);
    s.absorb(CallOutcome::Succeeded);
    assert_eq!(s.next_call(), None);
    assert!(s.into_result().is_ok());
}
