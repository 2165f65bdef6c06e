//! What holds of every run of the bring-up sequence.

use crate::error::ErrorView;
use crate::wintun::{
    pending_action, spec_step, valid, ActionView, Phase, WintunView, ADAPTER_BUFF_SIZE,
    SETTLE_MILLIS,
};
use crate::proto::MTU;
use vstd::prelude::*;

verus! {

/// The state after the reports arrived one by one, starting in state `w`.
/// A report is the failure of the attempt, or `None` for its success.
pub open spec fn spec_run(w: WintunView, reports: Seq<Option<ErrorView>>) -> WintunView
    decreases reports.len(),
{
    if reports.len() == 0 {
        w
    } else {
        spec_step(spec_run(w, reports.drop_last()), reports.last())
    }
}

/// The action that answers report `i` of a run.
pub open spec fn action_at(w: WintunView, reports: Seq<Option<ErrorView>>, i: int) -> ActionView {
    pending_action(spec_run(w, reports.take(i + 1)))
}

/// How far a phase lies along the sequence.
pub open spec fn rank(phase: Phase) -> int {
    match phase {
        Phase::Absent => 0,
        Phase::OpenAttempted => 1,
        Phase::CreateAttempted => 2,
        Phase::Open => 3,
        Phase::ConfiguredIp => 4,
        Phase::ConfiguredMtu => 5,
        Phase::SessionStarted => 6,
        Phase::Failed => 7,
    }
}

/// One more report takes the run one step further.
pub proof fn lemma_run_unfolds(w: WintunView, reports: Seq<Option<ErrorView>>, i: int)
    requires
        0 <= i < reports.len(),
    ensures
        spec_run(w, reports.take(i + 1)) == spec_step(spec_run(w, reports.take(i)), reports[i]),
{
    assert(reports.take(i + 1).drop_last() =~= reports.take(i));
}

/// A step keeps a state valid, leaves address and prefix length alone, and
/// never goes back along the sequence.
pub proof fn lemma_step_advances(w: WintunView, failure: Option<ErrorView>)
    requires
        valid(w),
    ensures
        valid(spec_step(w, failure)),
        spec_step(w, failure).address == w.address,
        spec_step(w, failure).netmask_count == w.netmask_count,
        rank(spec_step(w, failure).phase) >= rank(w.phase),
        rank(spec_step(w, failure).phase) == rank(w.phase) <==> (w.phase == Phase::SessionStarted
            || w.phase == Phase::Failed),
{
}

/// The same of a whole run.
pub proof fn lemma_run_advances(w: WintunView, reports: Seq<Option<ErrorView>>)
    requires
        valid(w),
    ensures
        valid(spec_run(w, reports)),
        spec_run(w, reports).address == w.address,
        spec_run(w, reports).netmask_count == w.netmask_count,
        rank(spec_run(w, reports).phase) >= rank(w.phase),
    decreases reports.len(),
{
    if reports.len() > 0 {
        lemma_run_advances(w, reports.drop_last());
        lemma_step_advances(spec_run(w, reports.drop_last()), reports.last());
    }
}

/// A run never goes back: the phase after more reports lies at least as far
/// along the sequence as the phase after fewer.
pub proof fn lemma_run_monotone(w: WintunView, reports: Seq<Option<ErrorView>>, i: int, j: int)
    requires
        valid(w),
        0 <= i <= j <= reports.len(),
    ensures
        rank(spec_run(w, reports.take(i)).phase) <= rank(spec_run(w, reports.take(j)).phase),
    decreases j - i,
{
    if i < j {
        lemma_run_monotone(w, reports, i, j - 1);
        lemma_run_unfolds(w, reports, j - 1);
        lemma_run_advances(w, reports.take(j - 1));
        lemma_step_advances(spec_run(w, reports.take(j - 1)), reports[j - 1]);
    }
}

/// Creating the adapter is called for exactly when the open was in flight
/// and failed: the one fallback of the sequence.
pub proof fn lemma_only_failed_open_falls_through(w: WintunView, failure: Option<ErrorView>)
    requires
        valid(w),
    ensures
        pending_action(spec_step(w, failure)) is CreateAdapter <==> (w.phase
            == Phase::OpenAttempted && failure is Some),
        pending_action(spec_step(w, failure)) is CreateAdapter ==> pending_action(
            spec_step(w, failure),
        ) == (ActionView::CreateAdapter { settle_millis: SETTLE_MILLIS }),
{
}

/// Any failure but that of the open ends the sequence: the machine enters
/// `Failed`, records that error and calls for the abort with it.
pub proof fn lemma_failure_aborts(w: WintunView, error: ErrorView)
    requires
        valid(w),
        w.phase == Phase::CreateAttempted || w.phase == Phase::Open || w.phase
            == Phase::ConfiguredIp || w.phase == Phase::ConfiguredMtu,
    ensures
        spec_step(w, Some(error)).phase == Phase::Failed,
        spec_step(w, Some(error)).failure == Some(error),
        pending_action(spec_step(w, Some(error))) == ActionView::Abort(error),
{
}

/// Once failed, always failed: whatever is reported, the state stays and the
/// same abort is called for.
pub proof fn lemma_failed_is_final(w: WintunView, reports: Seq<Option<ErrorView>>)
    requires
        valid(w),
        w.phase == Phase::Failed,
    ensures
        spec_run(w, reports) == w,
        pending_action(spec_run(w, reports)) == ActionView::Abort(w.failure->0),
    decreases reports.len(),
{
    if reports.len() > 0 {
        lemma_failed_is_final(w, reports.drop_last());
    }
}

/// Once the session runs, whatever is reported, the state stays and nothing
/// more is called for.
pub proof fn lemma_started_is_final(w: WintunView, reports: Seq<Option<ErrorView>>)
    requires
        valid(w),
        w.phase == Phase::SessionStarted,
    ensures
        spec_run(w, reports) == w,
        pending_action(spec_run(w, reports)) == ActionView::Ready,
    decreases reports.len(),
{
    if reports.len() > 0 {
        lemma_started_is_final(w, reports.drop_last());
    }
}

/// The session is started only after the MTU command succeeded, the MTU is
/// set only after the address assignment succeeded, and the address is
/// assigned only after an adapter was opened or created.
pub proof fn lemma_attempts_in_order(w: WintunView, failure: Option<ErrorView>)
    requires
        valid(w),
    ensures
        pending_action(spec_step(w, failure)) is StartSession <==> (w.phase == Phase::ConfiguredIp
            && failure is None),
        pending_action(spec_step(w, failure)) is SetMtu <==> (w.phase == Phase::Open && failure
            is None),
        pending_action(spec_step(w, failure)) is AssignAddress <==> ((w.phase
            == Phase::OpenAttempted || w.phase == Phase::CreateAttempted) && failure is None),
        pending_action(spec_step(w, failure)) is OpenAdapter <==> w.phase == Phase::Absent,
{
}

/// In no run, from whatever state, is the creation of the adapter called for
/// twice.
pub proof fn lemma_create_at_most_once(
    w: WintunView,
    reports: Seq<Option<ErrorView>>,
    i: int,
    j: int,
)
    requires
        valid(w),
        0 <= i < j < reports.len(),
    ensures
        !(action_at(w, reports, i) is CreateAdapter && action_at(w, reports, j) is CreateAdapter),
{
    if action_at(w, reports, i) is CreateAdapter && action_at(w, reports, j) is CreateAdapter {
        let before = spec_run(w, reports.take(j));
        lemma_run_unfolds(w, reports, j);
        lemma_run_advances(w, reports.take(j));
        lemma_only_failed_open_falls_through(before, reports[j]);
        lemma_run_monotone(w, reports, i + 1, j);
    }
}

/// When the open and the creation both fail, the creation was the one
/// retry: the run ends in `Failed` with the creation's error, every later
/// report is answered by the abort with that error, and so no session start
/// is ever called for.
pub proof fn lemma_open_and_create_failing(
    w: WintunView,
    reports: Seq<Option<ErrorView>>,
    i: int,
)
    requires
        valid(w),
        w.phase == Phase::Absent,
        3 <= reports.len(),
        reports[1] is Some,
        reports[2] is Some,
        0 <= i < reports.len(),
    ensures
        action_at(w, reports, 0) == ActionView::OpenAdapter,
        action_at(w, reports, 1) == (ActionView::CreateAdapter { settle_millis: SETTLE_MILLIS }),
        i >= 2 ==> action_at(w, reports, i) == ActionView::Abort(reports[2]->0),
        !(action_at(w, reports, i) is StartSession),
        spec_run(w, reports).phase == Phase::Failed,
        spec_run(w, reports).failure == reports[2],
{
    lemma_run_unfolds(w, reports, 0);
    lemma_run_unfolds(w, reports, 1);
    lemma_run_unfolds(w, reports, 2);
    assert(reports.take(0) =~= Seq::empty());
    let failed = spec_run(w, reports.take(3));
    assert(failed.phase == Phase::Failed && failed.failure == reports[2]);
    let rest = reports.skip(3);
    lemma_run_splits(w, reports.take(3), rest);
    assert(reports.take(3) + rest =~= reports);
    lemma_failed_is_final(failed, rest);
    if i >= 3 {
        let more = reports.take(i + 1).skip(3);
        lemma_run_splits(w, reports.take(3), more);
        assert(reports.take(3) + more =~= reports.take(i + 1));
        lemma_failed_is_final(failed, more);
    }
}

/// A run over two runs of reports, one after the other, is the second run
/// from where the first ended.
pub proof fn lemma_run_splits(
    w: WintunView,
    first: Seq<Option<ErrorView>>,
    second: Seq<Option<ErrorView>>,
)
    ensures
        spec_run(w, first + second) == spec_run(spec_run(w, first), second),
    decreases second.len(),
{
    if second.len() == 0 {
        assert(first + second =~= first);
    } else {
        lemma_run_splits(w, first, second.drop_last());
        assert((first + second).drop_last() =~= first + second.drop_last());
    }
}

/// When nothing fails, five reports after the start bring the session up,
/// by these attempts in this order: open, assign the address with the
/// mask's prefix length, set the MTU, start the session.
pub proof fn lemma_success_path(w: WintunView, reports: Seq<Option<ErrorView>>)
    requires
        valid(w),
        w.phase == Phase::Absent,
        reports.len() == 5,
        forall|i: int| 1 <= i < 5 ==> reports[i] is None,
    ensures
        action_at(w, reports, 0) == ActionView::OpenAdapter,
        action_at(w, reports, 1) == (ActionView::AssignAddress {
            address: w.address,
            prefix: w.netmask_count,
        }),
        action_at(w, reports, 2) == (ActionView::SetMtu { mtu: MTU }),
        action_at(w, reports, 3) == (ActionView::StartSession { capacity: ADAPTER_BUFF_SIZE }),
        action_at(w, reports, 4) == ActionView::Ready,
        spec_run(w, reports).phase == Phase::SessionStarted,
{
    assert(reports.take(0) =~= Seq::empty());
    lemma_run_unfolds(w, reports, 0);
    lemma_run_unfolds(w, reports, 1);
    lemma_run_unfolds(w, reports, 2);
    lemma_run_unfolds(w, reports, 3);
    lemma_run_unfolds(w, reports, 4);
    assert(reports.take(5) =~= reports);
}

} // verus!
