//! What holds of every run, whatever the machine answers.
//!
//! A run is the sequence of states that [`WorkflowView::step`] gives for a
//! sequence of events. The statements below hold for every plan and every
//! sequence of events, also for events that answer no pending action.

use vstd::prelude::*;
use crate::orchestrator::{Action, EventView, HaltReason, Report, Stage, WorkflowView};
use crate::plan::PlanView;
use crate::remover::{directory_policy, entry_policy, Decision, DirectoryEvent, EntryEvent};

verus! {

/// The state that `events`, taken in order, lead to from `start`.
pub open spec fn run_from(start: WorkflowView, events: Seq<EventView>) -> WorkflowView
    decreases events.len(),
{
    if events.len() == 0 {
        start
    } else {
        run_from(start, events.drop_last()).step(events.last())
    }
}

/// The state that `events` lead to in a run of `plan`.
pub open spec fn run(plan: PlanView, events: Seq<EventView>) -> WorkflowView {
    run_from(WorkflowView::initial(plan), events)
}

/// A plan whose lists a machine can hold.
pub open spec fn plan_fits(plan: PlanView) -> bool {
    plan.entries.len() <= usize::MAX && plan.directories.len() <= usize::MAX
}

/// The position of a stage in the order of the stages.
pub open spec fn stage_rank(stage: Stage) -> nat {
    match stage {
        Stage::Start => 0,
        Stage::PrivilegeChecked => 1,
        Stage::ProcessChecked => 2,
        Stage::PathResolved => 3,
        Stage::EntriesRemoved => 4,
        Stage::DirectoriesRemoved => 5,
        Stage::Done => 6,
    }
}

/// The run has left the configuration entry at `index` behind.
pub open spec fn past_entry(w: WorkflowView, index: usize) -> bool {
    stage_rank(w.stage) > 3 || (w.stage == Stage::PathResolved && w.cursor > index)
}

/// The run has left the directory at `index` behind.
pub open spec fn past_directory(w: WorkflowView, index: usize) -> bool {
    stage_rank(w.stage) > 4 || (w.stage == Stage::EntriesRemoved && w.cursor > index)
}

/// Every state of a run is one that the workflow's invariant describes.
pub proof fn lemma_run_wf(start: WorkflowView, events: Seq<EventView>)
    requires
        start.wf(),
    ensures
        run_from(start, events).wf(),
    decreases events.len(),
{
    if events.len() > 0 {
        lemma_run_wf(start, events.drop_last());
        crate::orchestrator::lemma_step_wf(run_from(start, events.drop_last()), events.last());
    }
}

/// Stages are passed in their order: no step leads back to an earlier
/// stage, and within a removal stage no step leads back to an earlier
/// target.
pub proof fn law_no_way_back(w: WorkflowView, event: EventView)
    requires
        w.wf(),
    ensures
        stage_rank(w.stage) <= stage_rank(w.step(event).stage),
        w.step(event).stage == w.stage ==> w.cursor <= w.step(event).cursor,
        w.step(event).plan == w.plan,
        w.install_path is Some ==> w.step(event).install_path == w.install_path,
{
}

/// Removal order: while a configuration entry is being opened or deleted,
/// the install path has been resolved; while a directory is being probed
/// or removed, every configuration entry of the plan has been reported
/// gone, and the directory lies under the one install path resolved
/// before.
pub proof fn law_removal_order(plan: PlanView, events: Seq<EventView>)
    requires
        plan_fits(plan),
    ensures
        ({
            let w = run(plan, events);
            &&& (w.pending() is OpenEntry || w.pending() is DeleteEntry) ==> {
                &&& w.install_path is Some
                &&& w.log.contains(Report::PathFound)
            }
            &&& (w.pending() is ProbeDirectory || w.pending() is RemoveDirectory) ==> {
                &&& w.install_path is Some
                &&& w.log.contains(Report::PathFound)
                &&& forall|i: usize|
                    i < plan.entries.len() ==> #[trigger] w.log.contains(Report::EntryDeleted(i))
            }
            &&& w.pending().is_destructive() ==> !w.log.contains(Report::PrivilegeMissing)
                && !w.log.contains(Report::ProcessOpen) && !w.log.contains(Report::PathMissing)
        }),
{
    crate::orchestrator::lemma_initial_wf(plan);
    lemma_run_wf(WorkflowView::initial(plan), events);
    lemma_run_keeps_plan(WorkflowView::initial(plan), events);
    let w = run(plan, events);
    if stage_rank(w.stage) >= 3 {
        lemma_log_of_removal_stage(w);
    }
}

/// The plan of a run never changes.
pub proof fn lemma_run_keeps_plan(start: WorkflowView, events: Seq<EventView>)
    requires
        start.wf(),
    ensures
        run_from(start, events).plan == start.plan,
    decreases events.len(),
{
    if events.len() > 0 {
        lemma_run_keeps_plan(start, events.drop_last());
        lemma_run_wf(start, events.drop_last());
        law_no_way_back(run_from(start, events.drop_last()), events.last());
    }
}

/// What the status log holds once the removals have begun.
pub proof fn lemma_log_of_removal_stage(w: WorkflowView)
    requires
        w.wf(),
        stage_rank(w.stage) >= 3,
    ensures
        w.install_path is Some,
        w.log.contains(Report::PathFound),
        !w.log.contains(Report::PrivilegeMissing),
        !w.log.contains(Report::ProcessOpen),
        !w.log.contains(Report::PathMissing),
        forall|i: usize|
            i < w.entries_done() ==> #[trigger] w.log.contains(Report::EntryDeleted(i)),
        forall|j: usize|
            j < w.directories_done() ==> #[trigger] w.log.contains(Report::DirectoryDeleted(j)),
{
    let log = w.expected_log();
    assert(w.log == log);
    assert(log[3] == Report::PathFound);
    assert forall|i: usize| i < w.entries_done() implies #[trigger] log.contains(
        Report::EntryDeleted(i),
    ) by {
        assert(log[4 + i] == Report::EntryDeleted(i));
    }
    assert forall|j: usize| j < w.directories_done() implies #[trigger] log.contains(
        Report::DirectoryDeleted(j),
    ) by {
        assert(log[4 + w.entries_done() + j] == Report::DirectoryDeleted(j));
    }
    assert forall|k: int| 0 <= k < log.len() implies log[k] != Report::PrivilegeMissing && log[k]
        != Report::ProcessOpen && log[k] != Report::PathMissing by {
        if k < 4 {
        } else if k < 4 + w.entries_done() {
            assert(log[k] == Report::EntryDeleted((k - 4) as usize));
        } else if k < 4 + w.entries_done() + w.directories_done() {
            assert(log[k] == Report::DirectoryDeleted((k - 4 - w.entries_done()) as usize));
        } else {
        }
    }
}

/// A halted run stays as it is: whatever events follow, the state does not
/// change, and the only thing left to do is to finish.
pub proof fn law_halt_is_final(halted: WorkflowView, later: Seq<EventView>)
    requires
        halted.finished(),
    ensures
        run_from(halted, later) == halted,
        halted.pending() == Action::Finish,
    decreases later.len(),
{
    if later.len() > 0 {
        law_halt_is_final(halted, later.drop_last());
    }
}

/// Short circuit, configuration entries: where the deletion of the entry
/// at hand fails, the run halts in its stage with that entry as the
/// reason. From then on no event changes anything: no later entry is
/// opened or deleted, the directory stage is never entered, and the status
/// log ends with the failure.
pub proof fn law_entry_failure_halts(w: WorkflowView, later: Seq<EventView>)
    requires
        w.wf(),
        w.pending() is DeleteEntry,
    ensures
        ({
            let halted = w.step(EventView::Entry(EntryEvent::Deleted(false)));
            let end = run_from(halted, later);
            &&& halted.halted == Some(HaltReason::EntryRemoval(w.cursor))
            &&& halted.stage == Stage::PathResolved
            &&& halted.log == w.log.push(Report::EntryFailed(w.cursor))
            &&& end == halted
            &&& end.pending() == Action::Finish
            &&& forall|i: usize|
                w.cursor <= i ==> !#[trigger] end.log.contains(Report::EntryDeleted(i))
            &&& forall|j: usize| !#[trigger] end.log.contains(Report::DirectoryDeleted(j))
        }),
{
    let halted = w.step(EventView::Entry(EntryEvent::Deleted(false)));
    crate::orchestrator::lemma_step_wf(w, EventView::Entry(EntryEvent::Deleted(false)));
    law_halt_is_final(halted, later);
    lemma_log_holds_only_done(halted);
}

/// Short circuit, directories: where the removal of the directory at hand
/// fails for another reason than that it was not found, the run halts in
/// its stage with that directory as the reason. From then on no event
/// changes anything: no later directory is probed or removed, and the run
/// never reaches its end state.
pub proof fn law_directory_failure_halts(w: WorkflowView, later: Seq<EventView>)
    requires
        w.wf(),
        w.pending() is RemoveDirectory,
    ensures
        ({
            let failure = EventView::Directory(
                DirectoryEvent::Removed(crate::remover::RemoveOutcome::Failed),
            );
            let halted = w.step(failure);
            let end = run_from(halted, later);
            &&& halted.halted == Some(HaltReason::DirectoryRemoval(w.cursor))
            &&& halted.stage == Stage::EntriesRemoved
            &&& halted.log == w.log.push(Report::DirectoryFailed(w.cursor))
            &&& end == halted
            &&& end.pending() == Action::Finish
            &&& !end.succeeded()
            &&& forall|j: usize|
                w.cursor <= j ==> !#[trigger] end.log.contains(Report::DirectoryDeleted(j))
        }),
{
    let failure = EventView::Directory(
        DirectoryEvent::Removed(crate::remover::RemoveOutcome::Failed),
    );
    let halted = w.step(failure);
    crate::orchestrator::lemma_step_wf(w, failure);
    law_halt_is_final(halted, later);
    lemma_log_holds_only_done(halted);
}

/// A line that reports a target gone names one of the first `entries`
/// configuration entries or one of the first `directories` directories.
pub open spec fn names_target_below(line: Report, entries: nat, directories: nat) -> bool {
    match line {
        Report::EntryDeleted(index) => index < entries,
        Report::DirectoryDeleted(index) => index < directories,
        _ => true,
    }
}

/// The status log reports as gone only the targets that the run has left
/// behind.
pub proof fn lemma_log_holds_only_done(w: WorkflowView)
    requires
        w.wf(),
    ensures
        forall|i: usize|
            w.entries_done() <= i ==> !#[trigger] w.log.contains(Report::EntryDeleted(i)),
        forall|j: usize|
            w.directories_done() <= j ==> !#[trigger] w.log.contains(Report::DirectoryDeleted(j)),
{
    let log = w.expected_log();
    let p = w.preamble().len();
    let e = w.entries_done();
    let d = w.directories_done();
    assert(w.log == log);
    assert forall|k: int| 0 <= k < log.len() implies names_target_below(
        #[trigger] log[k],
        e,
        d,
    ) by {
        if k < p {
            assert(log[k] == w.preamble()[k]);
        } else if k < p + e {
            assert(log[k] == Report::EntryDeleted((k - p) as usize));
        } else if k < p + e + d {
            assert(log[k] == Report::DirectoryDeleted((k - p - e) as usize));
        } else {
            assert(w.halted is Some);
            assert(log[k] == w.halted->0.spec_report());
        }
    }
    assert forall|i: usize| e <= i implies !#[trigger] log.contains(Report::EntryDeleted(i)) by {
        if log.contains(Report::EntryDeleted(i)) {
            let k = choose|k: int| 0 <= k < log.len() && log[k] == Report::EntryDeleted(i);
            assert(names_target_below(log[k], e, d));
        }
    }
    assert forall|j: usize| d <= j implies !#[trigger] log.contains(
        Report::DirectoryDeleted(j),
    ) by {
        if log.contains(Report::DirectoryDeleted(j)) {
            let k = choose|k: int| 0 <= k < log.len() && log[k] == Report::DirectoryDeleted(j);
            assert(names_target_below(log[k], e, d));
        }
    }
}

/// Once a run has left a configuration entry behind, it stays behind.
pub proof fn lemma_past_entry_stays(w: WorkflowView, index: usize, later: Seq<EventView>)
    requires
        w.wf(),
        past_entry(w, index),
    ensures
        past_entry(run_from(w, later), index),
        run_from(w, later).pending() != Action::OpenEntry(index),
        run_from(w, later).pending() != Action::DeleteEntry(index),
    decreases later.len(),
{
    if later.len() > 0 {
        lemma_past_entry_stays(w, index, later.drop_last());
        lemma_run_wf(w, later.drop_last());
        law_no_way_back(run_from(w, later.drop_last()), later.last());
    }
}

/// Once a run has left a directory behind, it stays behind.
pub proof fn lemma_past_directory_stays(w: WorkflowView, index: usize, later: Seq<EventView>)
    requires
        w.wf(),
        past_directory(w, index),
    ensures
        past_directory(run_from(w, later), index),
        run_from(w, later).pending() != Action::ProbeDirectory(index),
        run_from(w, later).pending() != Action::RemoveDirectory(index),
    decreases later.len(),
{
    if later.len() > 0 {
        lemma_past_directory_stays(w, index, later.drop_last());
        lemma_run_wf(w, later.drop_last());
        law_no_way_back(run_from(w, later.drop_last()), later.last());
    }
}

/// Absence, configuration entries: an entry that cannot be opened counts
/// as removed. The run reports it gone, does not halt, and never asks for
/// its deletion, whatever events follow.
pub proof fn law_absent_entry_untouched(w: WorkflowView, later: Seq<EventView>)
    requires
        w.wf(),
        w.pending() is OpenEntry,
    ensures
        entry_policy(EntryEvent::Opened(false)) == Decision::Succeed,
        ({
            let next = w.step(EventView::Entry(EntryEvent::Opened(false)));
            let end = run_from(next, later);
            &&& next.halted is None
            &&& next.log == w.log.push(Report::EntryDeleted(w.cursor))
            &&& !next.pending().is_destructive()
            &&& end.pending() != Action::DeleteEntry(w.cursor)
            &&& end.pending() != Action::OpenEntry(w.cursor)
        }),
{
    let absent = EventView::Entry(EntryEvent::Opened(false));
    let next = w.step(absent);
    crate::orchestrator::lemma_step_wf(w, absent);
    lemma_past_entry_stays(next, w.cursor, later);
}

/// Absence, directories: a directory whose metadata cannot be read counts
/// as removed. The run reports it gone, does not halt, and never asks for
/// its removal, whatever events follow.
pub proof fn law_absent_directory_untouched(w: WorkflowView, later: Seq<EventView>)
    requires
        w.wf(),
        w.pending() is ProbeDirectory,
    ensures
        directory_policy(DirectoryEvent::Probed(false)) == Decision::Succeed,
        ({
            let next = w.step(EventView::Directory(DirectoryEvent::Probed(false)));
            let end = run_from(next, later);
            &&& next.halted is None
            &&& next.log == w.log.push(Report::DirectoryDeleted(w.cursor))
            &&& !next.pending().is_destructive()
            &&& end.pending() != Action::RemoveDirectory(w.cursor)
            &&& end.pending() != Action::ProbeDirectory(w.cursor)
        }),
{
    let absent = EventView::Directory(DirectoryEvent::Probed(false));
    let next = w.step(absent);
    crate::orchestrator::lemma_step_wf(w, absent);
    lemma_past_directory_stays(next, w.cursor, later);
}

/// A destructive action is asked for only in answer to a successful look
/// at the same target: a deletion follows an entry that was opened, a
/// removal follows a directory whose metadata was read.
pub proof fn law_look_before_delete(w: WorkflowView, event: EventView)
    requires
        w.wf(),
        !w.pending().is_destructive(),
        w.step(event).pending().is_destructive(),
    ensures
        w.pending() is OpenEntry ==> event == EventView::Entry(EntryEvent::Opened(true))
            && w.step(event).pending() == Action::DeleteEntry(w.cursor),
        w.pending() is ProbeDirectory ==> event == EventView::Directory(
            DirectoryEvent::Probed(true),
        ) && w.step(event).pending() == Action::RemoveDirectory(w.cursor),
        w.pending() is OpenEntry || w.pending() is ProbeDirectory,
{
}

} // verus!
