//! The structured failure a caller receives when the flow-setup pipeline
//! stops: the OS error code current at the failing call, and a message of the
//! shape `[Error <code>] <step name>: <trimmed OS description>`.

use vstd::prelude::*;
use vstd::string::*;

use crate::text::{
    decimal_of, is_space, lemma_decimal_shape, lemma_trim_keeps_printable, push_decimal, trim,
    trim_of,
};

verus! {

/// The three checked steps of the flow-setup pipeline, under the names the
/// operating system gives the corresponding calls.
#[derive(Clone, Copy, PartialEq, Eq, Structural, Debug)]
pub enum FlowStep {
    CreateHandle,
    AddSocketToFlow,
    SetFlow,
}

/// The label a failure of each checked step carries.
pub open spec fn step_label_of(step: FlowStep) -> Seq<char> {
    match step {
        FlowStep::CreateHandle => "QOSCreateHandle"@,
        FlowStep::AddSocketToFlow => "QOSAddSocketToFlow"@,
        FlowStep::SetFlow => "QOSSetFlow"@,
    }
}

impl FlowStep {
    pub fn label(&self) -> (r: &'static str)
        ensures
            r@ == step_label_of(*self),
    {
        match self {
            FlowStep::CreateHandle => "QOSCreateHandle",
            FlowStep::AddSocketToFlow => "QOSAddSocketToFlow",
            FlowStep::SetFlow => "QOSSetFlow",
        }
    }
}

/// The full message of a structured failure: the decimal error code, the
/// failing step's label, and the OS-rendered description with surrounding
/// whitespace removed.
pub open spec fn failure_message_of(step: FlowStep, code: u32, detail: Seq<char>) -> Seq<char> {
    "[Error "@ + decimal_of(code as nat) + "] "@ + step_label_of(step) + ": "@ + trim_of(detail)
}

/// A checked OS call that failed: the numeric error code the OS held right
/// after the call, and the fully formatted message.
pub struct OsFailure {
    pub code: u32,
    pub message: String,
}

impl OsFailure {
    /// Build the structured failure for `step` from the OS error `code` and
    /// the OS-rendered `detail` text. A zero code describes no failure, so it
    /// is excluded rather than rendered.
    pub fn new(step: FlowStep, code: u32, detail: &str) -> (r: OsFailure)
        requires
            code != 0,
        ensures
            r.code == code,
            r.message@ == failure_message_of(step, code, detail@),
    {
        let mut message = String::from_str("[Error ");
        push_decimal(&mut message, code);
        message.append("] ");
        message.append(step.label());
        message.append(": ");
        message.append(trim(detail));
        proof {
            assert(message@ =~= failure_message_of(step, code, detail@));
        }
        OsFailure { code, message }
    }
}

/// A failed attempt to mark a socket's traffic.
pub enum DscpError {
    /// The platform does not expose the QoS facility at all.
    Unsupported,
    /// A checked OS call failed.
    Os(OsFailure),
}

/// The message reported when the platform lacks the QoS facility.
pub open spec fn unsupported_message() -> Seq<char> {
    "socket DSCP marking is unsupported on this platform"@
}

/// The caller-visible message of each failure.
pub open spec fn error_message_of(e: DscpError) -> Seq<char> {
    match e {
        DscpError::Unsupported => unsupported_message(),
        DscpError::Os(f) => f.message@,
    }
}

impl DscpError {
    pub fn message(&self) -> (r: String)
        ensures
            r@ == error_message_of(*self),
    {
        match self {
            DscpError::Unsupported => String::from_str(
                "socket DSCP marking is unsupported on this platform",
            ),
            DscpError::Os(f) => f.message.clone(),
        }
    }
}

/// Law (message shape): a structured failure's message is exactly
/// `[Error <digits>] <step name>: <trimmed detail>` — it opens with the
/// bracketed code, the code's digits never start with a zero, the label is
/// one of the three checked steps' names, and the tail is nonempty whenever
/// the OS description held a printable character.
pub proof fn lemma_failure_message_shape(step: FlowStep, code: u32, detail: Seq<char>)
    requires
        code != 0,
    ensures
        ({
            let m = failure_message_of(step, code, detail);
            let digits = decimal_of(code as nat);
            &&& m.subrange(0, 7) == "[Error "@
            &&& m.subrange(7, 7 + digits.len() as int) == digits
            &&& digits.len() >= 1 && digits[0] != '0'
            &&& (step_label_of(step) == "QOSCreateHandle"@ || step_label_of(step)
                == "QOSAddSocketToFlow"@ || step_label_of(step) == "QOSSetFlow"@)
            &&& m == "[Error "@ + digits + "] "@ + step_label_of(step) + ": "@ + trim_of(detail)
            &&& (exists|k: int| 0 <= k < detail.len() && !is_space(detail[k])) ==> trim_of(
                detail,
            ).len() > 0
        }),
{
    reveal_strlit("[Error ");
    lemma_decimal_shape(code as nat);
    let m = failure_message_of(step, code, detail);
    let digits = decimal_of(code as nat);
    assert(m.subrange(0, 7) =~= "[Error "@);
    assert(m.subrange(7, 7 + digits.len() as int) =~= digits);
    if exists|k: int| 0 <= k < detail.len() && !is_space(detail[k]) {
        lemma_trim_keeps_printable(detail);
    }
}

} // verus!
