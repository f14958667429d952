//! The flow-setup pipeline: the strict sequence of OS calls that marks a
//! socket's outgoing traffic, kept as a state machine. An unverified driver
//! performs each call this machine asks for and feeds the outcome back; the
//! machine decides what comes next, and what a failure means.
//!
//! The sequence is linear: a loopback connect whose result is discarded, then
//! three checked calls — create the QoS handle, register the socket as a
//! flow, set the flow's outgoing-DSCP attribute. The first checked call that
//! fails stops the pipeline with a structured failure; nothing is retried.

use vstd::prelude::*;

use crate::error::{failure_message_of, DscpError, FlowStep, OsFailure};

verus! {

/// Where the pipeline stands: one phase per pending call, plus the two
/// terminal phases.
#[derive(Clone, Copy, PartialEq, Eq, Structural, Debug)]
pub enum Phase {
    /// About to issue the loopback connect (its result is discarded).
    Connecting,
    /// About to request the QoS subsystem handle.
    CreatingHandle,
    /// About to register the socket with the QoS handle as a flow.
    AddingSocket,
    /// About to set the flow's outgoing-DSCP attribute.
    SettingFlow,
    /// Every call succeeded; the marking is applied.
    Applied,
    /// A checked call failed; the failure is recorded.
    Failed,
}

/// One OS call the pipeline asks its driver to perform.
#[derive(Clone, Copy, PartialEq, Eq, Structural, Debug)]
pub enum QosCall {
    /// Bind the socket to a local loopback address, as the QoS facility
    /// wants before a flow can be created.
    ConnectLoopback,
    /// Request a QoS subsystem handle.
    CreateHandle,
    /// Register the socket with the handle: best-effort traffic type,
    /// non-adaptive flow.
    AddSocketToFlow,
    /// Set the flow's outgoing-DSCP attribute to this one-byte code.
    SetFlow { dscp: u8 },
}

/// What one OS call came back with. A failure carries the error code the OS
/// held right after the call — read immediately, before anything can
/// overwrite it — and the OS-rendered description of that code.
pub enum CallOutcome {
    Succeeded,
    Failed { code: u32, detail: String },
}

pub open spec fn is_terminal(p: Phase) -> bool {
    p == Phase::Applied || p == Phase::Failed
}

/// The checked step a phase is about to perform, if any. The loopback
/// connect is not checked: its failure is not surfaced.
pub open spec fn checked_step_of(p: Phase) -> Option<FlowStep> {
    match p {
        Phase::CreatingHandle => Some(FlowStep::CreateHandle),
        Phase::AddingSocket => Some(FlowStep::AddSocketToFlow),
        Phase::SettingFlow => Some(FlowStep::SetFlow),
        _ => None,
    }
}

/// Where the pipeline moves when the pending call reports `ok`. The connect
/// phase moves on either way; a checked phase moves on only on success.
pub open spec fn phase_after(p: Phase, ok: bool) -> Phase {
    match p {
        Phase::Connecting => Phase::CreatingHandle,
        Phase::CreatingHandle => if ok {
            Phase::AddingSocket
        } else {
            Phase::Failed
        },
        Phase::AddingSocket => if ok {
            Phase::SettingFlow
        } else {
            Phase::Failed
        },
        Phase::SettingFlow => if ok {
            Phase::Applied
        } else {
            Phase::Failed
        },
        Phase::Applied => Phase::Applied,
        Phase::Failed => Phase::Failed,
    }
}

/// The call a pipeline in phase `p` asks for, when it carries `dscp`.
pub open spec fn call_at(p: Phase, dscp: u8) -> Option<QosCall> {
    match p {
        Phase::Connecting => Some(QosCall::ConnectLoopback),
        Phase::CreatingHandle => Some(QosCall::CreateHandle),
        Phase::AddingSocket => Some(QosCall::AddSocketToFlow),
        Phase::SettingFlow => Some(QosCall::SetFlow { dscp }),
        Phase::Applied | Phase::Failed => None,
    }
}

/// One attempt to mark the outgoing traffic of `socket` with `dscp`.
/// The socket stays the caller's: it is carried only so the driver knows
/// which descriptor to hand to each call.
pub struct FlowSetup {
    pub socket: usize,
    pub dscp: u8,
    pub phase: Phase,
    pub failure: Option<OsFailure>,
}

impl FlowSetup {
    /// A failure is recorded exactly in the failed phase.
    pub open spec fn wf(&self) -> bool {
        (self.phase == Phase::Failed) <==> (self.failure is Some)
    }

    pub fn new(socket: usize, dscp: u8) -> (s: FlowSetup)
        ensures
            s.socket == socket,
            s.dscp == dscp,
            s.phase == Phase::Connecting,
            s.failure is None,
            s.wf(),
    {
        FlowSetup { socket, dscp, phase: Phase::Connecting, failure: None }
    }

    /// The call to perform next; nothing, once the pipeline is over.
    pub fn next_call(&self) -> (c: Option<QosCall>)
        ensures
            c == call_at(self.phase, self.dscp),
            c is None <==> is_terminal(self.phase),
    {
        match self.phase {
            Phase::Connecting => Some(QosCall::ConnectLoopback),
            Phase::CreatingHandle => Some(QosCall::CreateHandle),
            Phase::AddingSocket => Some(QosCall::AddSocketToFlow),
            Phase::SettingFlow => Some(QosCall::SetFlow { dscp: self.dscp }),
            Phase::Applied | Phase::Failed => None,
        }
    }

    /// Absorb the outcome of the pending call. A failing connect is
    /// discarded and the pipeline moves on; a failing checked call stops it
    /// with the structured failure built from the captured code and text.
    /// A zero code describes no failure, so the driver may not hand one in.
    pub fn absorb(&mut self, outcome: CallOutcome)
        requires
            !is_terminal(old(self).phase),
            old(self).wf(),
            outcome matches CallOutcome::Failed { code, .. } ==> code != 0,
        ensures
            final(self).socket == old(self).socket,
            final(self).dscp == old(self).dscp,
            final(self).phase == phase_after(old(self).phase, outcome is Succeeded),
            final(self).wf(),
            match outcome {
                CallOutcome::Succeeded => final(self).failure == old(self).failure,
                CallOutcome::Failed { code, detail } => match checked_step_of(old(self).phase) {
                    Some(step) => final(self).failure matches Some(f) && f.code == code
                        && f.message@ == failure_message_of(step, code, detail@),
                    None => final(self).failure == old(self).failure,
                },
            },
    {
        match outcome {
            CallOutcome::Succeeded => {
                self.phase = match self.phase {
                    Phase::Connecting => Phase::CreatingHandle,
                    Phase::CreatingHandle => Phase::AddingSocket,
                    Phase::AddingSocket => Phase::SettingFlow,
                    Phase::SettingFlow => Phase::Applied,
                    Phase::Applied => Phase::Applied,
                    Phase::Failed => Phase::Failed,
                };
            },
            CallOutcome::Failed { code, detail } => {
                match self.phase {
                    Phase::Connecting => {
                        self.phase = Phase::CreatingHandle;
                    },
                    Phase::CreatingHandle => {
                        self.failure = Some(
                            OsFailure::new(FlowStep::CreateHandle, code, detail.as_str()),
                        );
                        self.phase = Phase::Failed;
                    },
                    Phase::AddingSocket => {
                        self.failure = Some(
                            OsFailure::new(FlowStep::AddSocketToFlow, code, detail.as_str()),
                        );
                        self.phase = Phase::Failed;
                    },
                    Phase::SettingFlow => {
                        self.failure = Some(
                            OsFailure::new(FlowStep::SetFlow, code, detail.as_str()),
                        );
                        self.phase = Phase::Failed;
                    },
                    // a terminal pipeline absorbs nothing: excluded above
                    Phase::Applied | Phase::Failed => {
                    },
                }
            },
        }
    }

    /// The pipeline's verdict, once it is over: success with no value, or
    /// the recorded structured failure.
    pub fn into_result(self) -> (r: Result<(), OsFailure>)
        requires
            is_terminal(self.phase),
            self.wf(),
        ensures
            self.phase == Phase::Applied ==> r is Ok,
            self.phase == Phase::Failed ==> (r matches Err(f) && self.failure == Some(f)),
    {
        match self.failure {
            None => Ok(()),
            Some(f) => Err(f),
        }
    }
}

/// Begin marking `socket`'s outgoing traffic with `dscp`. `qos_available`
/// says whether the platform exposes the QoS facility; without it, the
/// attempt is refused outright rather than tried. The value of `dscp` is not
/// validated: codes above 63 pass through to the OS uninterpreted.
pub fn begin_set_socket_dscp(socket: usize, dscp: u8, qos_available: bool) -> (r: Result<
    FlowSetup,
    DscpError,
>)
    ensures
        !qos_available ==> (r matches Err(e) && e == DscpError::Unsupported),
        qos_available ==> (r matches Ok(s) && s.socket == socket && s.dscp == dscp && s.phase
            == Phase::Connecting && s.failure is None && s.wf()),
{
    if qos_available {
        Ok(FlowSetup::new(socket, dscp))
    } else {
        Err(DscpError::Unsupported)
    }
}

/// Begin marking from a legacy Type-of-Service byte: the DSCP code is the
/// byte's top six bits, `tos >> 2`, always in 0..=63.
pub fn begin_set_socket_tos(socket: usize, tos: u8, qos_available: bool) -> (r: Result<
    FlowSetup,
    DscpError,
>)
    ensures
        !qos_available ==> (r matches Err(e) && e == DscpError::Unsupported),
        qos_available ==> (r matches Ok(s) && s.socket == socket && s.dscp == tos >> 2 && s.dscp
            <= 63 && s.phase == Phase::Connecting && s.failure is None && s.wf()),
{
    proof {
        assert(tos >> 2 <= 63) by (bit_vector);
    }
    begin_set_socket_dscp(socket, tos >> 2, qos_available)
}

} // verus!
