//! The pipeline viewed whole: a run is the sequence of calls a pipeline
//! issues, each paired with its outcome. This module models what a run does
//! to the socket's outgoing marking, and proves the laws that hold of every
//! run — the conversion a ToS byte goes through, what a fully successful run
//! performs, and that repeating one changes nothing.

use vstd::prelude::*;

use crate::flow::{call_at, is_terminal, phase_after, Phase, QosCall};

verus! {

/// The final phase of a pipeline that starts in `p` and absorbs the outcomes
/// `oks`, one per issued call.
pub open spec fn final_phase(p: Phase, oks: Seq<bool>) -> Phase
    decreases oks.len(),
{
    if oks.len() == 0 {
        p
    } else {
        final_phase(phase_after(p, oks[0]), oks.drop_first())
    }
}

/// The run of a pipeline that starts in `p` carrying `dscp` and absorbs the
/// outcomes `oks`: each issued call, paired with its outcome.
pub open spec fn run_from(p: Phase, dscp: u8, oks: Seq<bool>) -> Seq<(QosCall, bool)>
    decreases oks.len(),
{
    if oks.len() == 0 {
        Seq::empty()
    } else {
        match call_at(p, dscp) {
            Some(c) => seq![(c, oks[0])] + run_from(phase_after(p, oks[0]), dscp, oks.drop_first()),
            None => Seq::empty(),
        }
    }
}

/// What one performed call does to the socket's outgoing marking: only a
/// successful flow update changes it.
pub open spec fn apply_call(m: Option<u8>, c: QosCall, ok: bool) -> Option<u8> {
    match c {
        QosCall::SetFlow { dscp } => if ok {
            Some(dscp)
        } else {
            m
        },
        _ => m,
    }
}

/// The socket's outgoing marking after a run, starting from marking `m`.
pub open spec fn marking_after(m: Option<u8>, run: Seq<(QosCall, bool)>) -> Option<u8>
    decreases run.len(),
{
    if run.len() == 0 {
        m
    } else {
        marking_after(apply_call(m, run[0].0, run[0].1), run.drop_first())
    }
}

/// The run of a fully successful invocation with code `dscp`: connect,
/// create the handle, register the flow, set the DSCP attribute, every call
/// succeeding.
pub open spec fn success_run(dscp: u8) -> Seq<(QosCall, bool)> {
    seq![
        (QosCall::ConnectLoopback, true),
        (QosCall::CreateHandle, true),
        (QosCall::AddSocketToFlow, true),
        (QosCall::SetFlow { dscp }, true),
    ]
}

/// Law (only the given code): a run never asks the flow update to apply any
/// code but the one the pipeline carries.
pub proof fn lemma_run_uses_carried_dscp(p: Phase, dscp: u8, oks: Seq<bool>, i: int)
    requires
        0 <= i < run_from(p, dscp, oks).len(),
        run_from(p, dscp, oks)[i].0 is SetFlow,
    ensures
        run_from(p, dscp, oks)[i].0 == (QosCall::SetFlow { dscp }),
    decreases oks.len(),
{
    if oks.len() > 0 && call_at(p, dscp) is Some {
        if i > 0 {
            lemma_run_uses_carried_dscp(phase_after(p, oks[0]), dscp, oks.drop_first(), i - 1);
        }
    }
}

/// Law (ToS conversion): a pipeline begun from the ToS byte `tos` carries
/// `tos >> 2`, so any flow update in any of its runs applies exactly
/// `tos >> 2` — the byte's top six bits, whatever the outcomes were.
pub proof fn lemma_tos_run_flow_update(tos: u8, oks: Seq<bool>, i: int)
    requires
        0 <= i < run_from(Phase::Connecting, tos >> 2, oks).len(),
        run_from(Phase::Connecting, tos >> 2, oks)[i].0 is SetFlow,
    ensures
        run_from(Phase::Connecting, tos >> 2, oks)[i].0 == (QosCall::SetFlow { dscp: tos >> 2 }),
{
    lemma_run_uses_carried_dscp(Phase::Connecting, tos >> 2, oks, i);
}

/// Law (successful pipeline): fed four successes from the start, the
/// pipeline performs exactly the connect, create-handle, add-socket,
/// set-flow sequence and ends with the marking applied.
pub proof fn lemma_success_pipeline(dscp: u8)
    ensures
        run_from(Phase::Connecting, dscp, seq![true, true, true, true]) == success_run(dscp),
        final_phase(Phase::Connecting, seq![true, true, true, true]) == Phase::Applied,
{
    let o4 = seq![true, true, true, true];
    let o3 = seq![true, true, true];
    let o2 = seq![true, true];
    let o1 = seq![true];
    let o0 = Seq::<bool>::empty();
    assert(o4.drop_first() =~= o3);
    assert(o3.drop_first() =~= o2);
    assert(o2.drop_first() =~= o1);
    assert(o1.drop_first() =~= o0);
    assert(run_from(Phase::Applied, dscp, o0) =~= Seq::<(QosCall, bool)>::empty());
    assert(run_from(Phase::SettingFlow, dscp, o1) =~= seq![(QosCall::SetFlow { dscp }, true)]);
    assert(run_from(Phase::AddingSocket, dscp, o2) =~= seq![
        (QosCall::AddSocketToFlow, true),
        (QosCall::SetFlow { dscp }, true),
    ]);
    assert(run_from(Phase::CreatingHandle, dscp, o3) =~= seq![
        (QosCall::CreateHandle, true),
        (QosCall::AddSocketToFlow, true),
        (QosCall::SetFlow { dscp }, true),
    ]);
    assert(run_from(Phase::Connecting, dscp, o4) =~= success_run(dscp));
    assert(final_phase(Phase::Connecting, o4) == final_phase(Phase::CreatingHandle, o3));
    assert(final_phase(Phase::CreatingHandle, o3) == final_phase(Phase::AddingSocket, o2));
    assert(final_phase(Phase::AddingSocket, o2) == final_phase(Phase::SettingFlow, o1));
    assert(final_phase(Phase::SettingFlow, o1) == final_phase(Phase::Applied, o0));
    assert(final_phase(Phase::Applied, o0) == Phase::Applied);
}

/// Law (marking applied): a fully successful run leaves the socket marked
/// with the requested code, whatever marking it had before.
pub proof fn lemma_success_run_marks(m: Option<u8>, dscp: u8)
    ensures
        marking_after(m, success_run(dscp)) == Some(dscp),
{
    let r = success_run(dscp);
    let r1 = r.drop_first();
    let r2 = r1.drop_first();
    let r3 = r2.drop_first();
    let r4 = r3.drop_first();
    assert(r4 =~= Seq::<(QosCall, bool)>::empty());
    assert(marking_after(m, r) == marking_after(m, r1));
    assert(marking_after(m, r1) == marking_after(m, r2));
    assert(marking_after(m, r2) == marking_after(m, r3));
    assert(marking_after(m, r3) == marking_after(Some(dscp), r4));
}

/// Law (idempotence): running the fully successful pipeline twice with the
/// same code leaves exactly the marking one run leaves.
pub proof fn lemma_set_dscp_idempotent(m: Option<u8>, dscp: u8)
    ensures
        marking_after(marking_after(m, success_run(dscp)), success_run(dscp)) == marking_after(
            m,
            success_run(dscp),
        ),
        marking_after(m, success_run(dscp)) == Some(dscp),
{
    lemma_success_run_marks(m, dscp);
    lemma_success_run_marks(Some(dscp), dscp);
}

/// Law (no silent success): over a four-outcome run from the start, the
/// pipeline ends applied exactly when all three checked calls succeeded —
/// the connect outcome is discarded — and it always ends in a terminal
/// phase, so a failing checked call can only end it failed.
pub proof fn lemma_applied_iff_checked_succeed(oks: Seq<bool>)
    requires
        oks.len() == 4,
    ensures
        final_phase(Phase::Connecting, oks) == Phase::Applied <==> (oks[1] && oks[2] && oks[3]),
        is_terminal(final_phase(Phase::Connecting, oks)),
{
    let o3 = oks.drop_first();
    let o2 = o3.drop_first();
    let o1 = o2.drop_first();
    let o0 = o1.drop_first();
    assert(o0 =~= Seq::<bool>::empty());
    assert(o3[0] == oks[1] && o2[0] == oks[2] && o1[0] == oks[3]);
    assert(final_phase(Phase::Connecting, oks) == final_phase(Phase::CreatingHandle, o3));
    assert(final_phase(Phase::CreatingHandle, o3) == final_phase(
        phase_after(Phase::CreatingHandle, oks[1]),
        o2,
    ));
    if oks[1] {
        assert(final_phase(Phase::AddingSocket, o2) == final_phase(
            phase_after(Phase::AddingSocket, oks[2]),
            o1,
        ));
        if oks[2] {
            assert(final_phase(Phase::SettingFlow, o1) == final_phase(
                phase_after(Phase::SettingFlow, oks[3]),
                o0,
            ));
            assert(final_phase(Phase::Applied, o0) == Phase::Applied);
            assert(final_phase(Phase::Failed, o0) == Phase::Failed);
        } else {
            assert(final_phase(Phase::Failed, o1) == final_phase(Phase::Failed, o0));
            assert(final_phase(Phase::Failed, o0) == Phase::Failed);
        }
    } else {
        assert(final_phase(Phase::Failed, o2) == final_phase(Phase::Failed, o1));
        assert(final_phase(Phase::Failed, o1) == final_phase(Phase::Failed, o0));
        assert(final_phase(Phase::Failed, o0) == Phase::Failed);
    }
}

} // verus!
