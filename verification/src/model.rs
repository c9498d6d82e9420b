//! A model of the machine, for statements about whole runs.
//!
//! The model holds what the workflow can observe: whether the caller is
//! elevated, which processes run, what the program listings hold, and which
//! configuration entries and directories exist. It answers each action as
//! a machine does that nothing but the run itself changes: a look changes
//! nothing, a deletion that succeeds takes the target away, and one that
//! fails leaves everything as it was. Some targets may be locked: they
//! exist and every attempt to delete them fails.

use vstd::prelude::*;
use crate::laws::{plan_fits, stage_rank};
use crate::orchestrator::{lemma_initial_wf, lemma_step_wf, Action, EventView, Stage, WorkflowView};
use crate::plan::{DirectoryTargetView, PlanView, StoreRoot};
use crate::remover::{DirectoryEvent, EntryEvent, RemoveOutcome};
use crate::resolver::resolved_path;
use crate::scanner::{installed_programs, RootProbeView};

verus! {

/// What identifies an entry of the configuration store.
pub struct EntryKey {
    pub root: StoreRoot,
    pub path: Seq<char>,
}

/// The machine, as far as a run can tell.
pub struct Machine {
    /// Whether the caller is elevated.
    pub elevated: bool,
    /// The executable names of the running processes.
    pub processes: Seq<Seq<char>>,
    /// What a walk over the program listings finds.
    pub listing: Seq<RootProbeView>,
    /// The configuration entries that exist.
    pub entries: Set<EntryKey>,
    /// The configuration entries whose deletion fails.
    pub locked_entries: Set<EntryKey>,
    /// The directories that exist.
    pub directories: Set<DirectoryTargetView>,
    /// The directories whose removal fails.
    pub locked_directories: Set<DirectoryTargetView>,
}

/// How a run against a machine ended.
pub struct Outcome {
    /// The state in which the run stopped.
    pub state: WorkflowView,
    /// The machine as the run left it.
    pub machine: Machine,
    /// The actions that the run performed, in order.
    pub performed: Seq<Action>,
}

/// The key of the configuration entry at `index` of `plan`.
pub open spec fn entry_key(plan: PlanView, index: int) -> EntryKey {
    EntryKey { root: plan.entries[index].root, path: plan.entries[index].path }
}

/// The directory at `index` of `plan`, below `root`.
pub open spec fn directory_key(plan: PlanView, root: Seq<char>, index: int)
    -> DirectoryTargetView {
    DirectoryTargetView { root, name: plan.directories[index] }
}

impl Machine {
    /// How the removal of `directory` ends on this machine.
    pub open spec fn removal(self, directory: DirectoryTargetView) -> RemoveOutcome {
        if !self.directories.contains(directory) {
            RemoveOutcome::NotFound
        } else if self.locked_directories.contains(directory) {
            RemoveOutcome::Failed
        } else {
            RemoveOutcome::Removed
        }
    }

    /// What the machine reports when the pending action of `w` is
    /// performed; nothing where the run is over.
    pub open spec fn answer(self, w: WorkflowView) -> Option<EventView> {
        match w.pending() {
            Action::CheckPrivilege => Some(EventView::Privilege(self.elevated)),
            Action::ListProcesses => Some(EventView::Processes(self.processes)),
            Action::ScanPrograms => Some(EventView::Programs(self.listing)),
            Action::OpenEntry(index) => Some(
                EventView::Entry(
                    EntryEvent::Opened(self.entries.contains(entry_key(w.plan, index as int))),
                ),
            ),
            Action::DeleteEntry(index) => Some(
                EventView::Entry(
                    EntryEvent::Deleted(
                        !self.locked_entries.contains(entry_key(w.plan, index as int)),
                    ),
                ),
            ),
            Action::ProbeDirectory(index) => Some(
                EventView::Directory(
                    DirectoryEvent::Probed(
                        self.directories.contains(
                            directory_key(w.plan, w.install_path->0, index as int),
                        ),
                    ),
                ),
            ),
            Action::RemoveDirectory(index) => Some(
                EventView::Directory(
                    DirectoryEvent::Removed(
                        self.removal(directory_key(w.plan, w.install_path->0, index as int)),
                    ),
                ),
            ),
            Action::Finish => None,
        }
    }

    /// The machine after the pending action of `w` was performed.
    pub open spec fn after(self, w: WorkflowView) -> Machine {
        match w.pending() {
            Action::DeleteEntry(index) => {
                let key = entry_key(w.plan, index as int);
                if self.locked_entries.contains(key) {
                    self
                } else {
                    Machine { entries: self.entries.remove(key), ..self }
                }
            },
            Action::RemoveDirectory(index) => {
                let key = directory_key(w.plan, w.install_path->0, index as int);
                if self.removal(key) == RemoveOutcome::Removed {
                    Machine { directories: self.directories.remove(key), ..self }
                } else {
                    self
                }
            },
            _ => self,
        }
    }
}

/// The run that starts in state `w` on `machine` and performs at most
/// `fuel` actions.
pub open spec fn drive(w: WorkflowView, machine: Machine, fuel: nat) -> Outcome
    decreases fuel,
{
    match machine.answer(w) {
        Some(event) if fuel > 0 => {
            let rest = drive(w.step(event), machine.after(w), (fuel - 1) as nat);
            Outcome { performed: seq![w.pending()] + rest.performed, ..rest }
        },
        _ => Outcome { state: w, machine, performed: Seq::empty() },
    }
}

/// The number of actions that no run of `plan` exceeds.
pub open spec fn most_actions(plan: PlanView) -> nat {
    3 + 2 * plan.entries.len() + 2 * plan.directories.len()
}

/// The run of `plan` on `machine`, from its first action to its end.
pub open spec fn whole_run(plan: PlanView, machine: Machine) -> Outcome {
    drive(WorkflowView::initial(plan), machine, most_actions(plan))
}

/// The number of actions that a run in state `w` has left at most.
pub open spec fn actions_left(w: WorkflowView) -> nat {
    let entries = w.plan.entries.len();
    let directories = w.plan.directories.len();
    let begun: nat = if w.destroying {
        1
    } else {
        0
    };
    if w.finished() {
        0
    } else {
        match w.stage {
            Stage::Start => 3 + 2 * entries + 2 * directories,
            Stage::PrivilegeChecked => 2 + 2 * entries + 2 * directories,
            Stage::ProcessChecked => 1 + 2 * entries + 2 * directories,
            Stage::PathResolved => (2 * (entries - w.cursor) - begun + 2 * directories) as nat,
            Stage::EntriesRemoved => (2 * (directories - w.cursor) - begun) as nat,
            _ => 0,
        }
    }
}

/// The number of actions that a run in state `w` has left where every
/// target is found absent.
pub open spec fn looks_left(w: WorkflowView) -> nat {
    let entries = w.plan.entries.len();
    let directories = w.plan.directories.len();
    if w.finished() {
        0
    } else {
        match w.stage {
            Stage::Start => 3 + entries + directories,
            Stage::PrivilegeChecked => 2 + entries + directories,
            Stage::ProcessChecked => 1 + entries + directories,
            Stage::PathResolved => (entries - w.cursor + directories) as nat,
            Stage::EntriesRemoved => (directories - w.cursor) as nat,
            _ => 0,
        }
    }
}

/// The guards that the run has passed hold of the machine.
pub open spec fn guards_hold(w: WorkflowView, machine: Machine) -> bool {
    &&& stage_rank(w.stage) >= 1 ==> machine.elevated
    &&& stage_rank(w.stage) >= 2 ==> !machine.processes.contains(w.plan.process_executable)
    &&& stage_rank(w.stage) >= 3 ==> resolved_path(
        installed_programs(machine.listing),
        w.plan.program_name,
        w.plan.uninstaller_marker,
    ) == w.install_path
}

/// The first `entries` configuration entries of `plan` and its first
/// `directories` directories below `root` do not exist on the machine.
pub open spec fn targets_gone(
    plan: PlanView,
    root: Seq<char>,
    machine: Machine,
    entries: nat,
    directories: nat,
) -> bool {
    &&& forall|i: int| 0 <= i < entries ==> !machine.entries.contains(#[trigger] entry_key(plan, i))
    &&& forall|j: int|
        0 <= j < directories ==> !machine.directories.contains(
            #[trigger] directory_key(plan, root, j),
        )
}

/// The targets that the run has left behind do not exist on the machine.
pub open spec fn done_targets_gone(w: WorkflowView, machine: Machine) -> bool {
    targets_gone(w.plan, w.install_path->0, machine, w.entries_done(), w.directories_done())
}

/// The machine always answers the pending action, and its answer brings
/// the run closer to its end.
pub proof fn lemma_answer_advances(w: WorkflowView, machine: Machine)
    requires
        w.wf(),
        !w.finished(),
    ensures
        machine.answer(w) is Some,
        w.answers(machine.answer(w)->0),
        w.step(machine.answer(w)->0).wf(),
        w.step(machine.answer(w)->0).plan == w.plan,
        actions_left(w.step(machine.answer(w)->0)) < actions_left(w),
{
    lemma_step_wf(w, machine.answer(w)->0);
}

/// What one action leaves as it was, and what it establishes.
pub proof fn lemma_action_keeps(w: WorkflowView, machine: Machine)
    requires
        w.wf(),
        !w.finished(),
        guards_hold(w, machine),
        done_targets_gone(w, machine),
    ensures
        ({
            let next = w.step(machine.answer(w)->0);
            let left = machine.after(w);
            &&& left.elevated == machine.elevated
            &&& left.processes == machine.processes
            &&& left.listing == machine.listing
            &&& left.locked_entries == machine.locked_entries
            &&& left.locked_directories == machine.locked_directories
            &&& left.entries.subset_of(machine.entries)
            &&& left.directories.subset_of(machine.directories)
            &&& next.halted is None ==> guards_hold(next, left) && done_targets_gone(next, left)
        }),
{
    lemma_answer_advances(w, machine);
    let next = w.step(machine.answer(w)->0);
    let left = machine.after(w);
    if next.halted is None {
        assert forall|i: int| 0 <= i < next.entries_done() implies !left.entries.contains(
            #[trigger] entry_key(next.plan, i),
        ) by {
            if i < w.entries_done() {
                assert(!machine.entries.contains(entry_key(w.plan, i)));
            }
        }
        assert forall|j: int| 0 <= j < next.directories_done() implies !left.directories.contains(
            #[trigger] directory_key(next.plan, next.install_path->0, j),
        ) by {
            if j < w.directories_done() {
                assert(!machine.directories.contains(
                    directory_key(w.plan, w.install_path->0, j),
                ));
            }
        }
    }
}

/// Every run ends: with as many actions as a state has left at most, the
/// run from that state stops in a state that is over.
pub proof fn law_run_ends(w: WorkflowView, machine: Machine, fuel: nat)
    requires
        w.wf(),
        fuel >= actions_left(w),
    ensures
        drive(w, machine, fuel).state.finished(),
        drive(w, machine, fuel).state.wf(),
        drive(w, machine, fuel).state.plan == w.plan,
    decreases fuel,
{
    if !w.finished() {
        lemma_answer_advances(w, machine);
        law_run_ends(w.step(machine.answer(w)->0), machine.after(w), (fuel - 1) as nat);
    }
}

/// Every run of a plan ends, well or badly, within the plan's bound on
/// actions.
pub proof fn law_whole_run_ends(plan: PlanView, machine: Machine)
    requires
        plan_fits(plan),
    ensures
        whole_run(plan, machine).state.finished(),
        whole_run(plan, machine).state.wf(),
        whole_run(plan, machine).state.plan == plan,
{
    lemma_initial_wf(plan);
    law_run_ends(WorkflowView::initial(plan), machine, most_actions(plan));
}

/// A run that succeeds leaves a machine on which every guard still holds
/// and none of the plan's targets exists.
pub proof fn lemma_success_clears(w: WorkflowView, machine: Machine, fuel: nat)
    requires
        w.wf(),
        guards_hold(w, machine),
        done_targets_gone(w, machine),
        drive(w, machine, fuel).state.succeeded(),
    ensures
        ({
            let end = drive(w, machine, fuel);
            &&& end.state.wf()
            &&& end.state.plan == w.plan
            &&& end.machine.elevated == machine.elevated
            &&& end.machine.processes == machine.processes
            &&& end.machine.listing == machine.listing
            &&& guards_hold(end.state, end.machine)
            &&& done_targets_gone(end.state, end.machine)
        }),
    decreases fuel,
{
    if !w.finished() && fuel > 0 {
        lemma_answer_advances(w, machine);
        lemma_action_keeps(w, machine);
        let next = w.step(machine.answer(w)->0);
        if next.halted is Some {
            assert(drive(next, machine.after(w), (fuel - 1) as nat).state == next);
        } else {
            lemma_success_clears(next, machine.after(w), (fuel - 1) as nat);
        }
    }
}

/// On a machine where every guard holds and none of the plan's targets
/// exists, a run succeeds by looks alone: it changes nothing and performs
/// no destructive action.
pub proof fn lemma_quiet_run(w: WorkflowView, machine: Machine, root: Seq<char>, fuel: nat)
    requires
        w.wf(),
        w.halted is None,
        !w.destroying,
        machine.elevated,
        !machine.processes.contains(w.plan.process_executable),
        resolved_path(
            installed_programs(machine.listing),
            w.plan.program_name,
            w.plan.uninstaller_marker,
        ) == Some(root),
        stage_rank(w.stage) >= 3 ==> w.install_path == Some(root),
        targets_gone(w.plan, root, machine, w.plan.entries.len(), w.plan.directories.len()),
        fuel >= looks_left(w),
    ensures
        ({
            let end = drive(w, machine, fuel);
            &&& end.state.succeeded()
            &&& end.state.wf()
            &&& end.state.plan == w.plan
            &&& end.machine == machine
            &&& forall|k: int|
                0 <= k < end.performed.len() ==> !(#[trigger] end.performed[k]).is_destructive()
        }),
    decreases fuel,
{
    if !w.finished() {
        lemma_answer_advances(w, machine);
        let next = w.step(machine.answer(w)->0);
        match w.pending() {
            Action::OpenEntry(index) => {
                assert(!machine.entries.contains(entry_key(w.plan, index as int)));
            },
            Action::ProbeDirectory(index) => {
                assert(!machine.directories.contains(directory_key(w.plan, root, index as int)));
            },
            _ => {},
        }
        assert(machine.after(w) == machine);
        lemma_quiet_run(next, machine, root, (fuel - 1) as nat);
        let rest = drive(next, machine, (fuel - 1) as nat);
        let end = drive(w, machine, fuel);
        assert(end.performed == seq![w.pending()] + rest.performed);
        assert forall|k: int| 0 <= k < end.performed.len() implies !(
        #[trigger] end.performed[k]).is_destructive() by {
            if k > 0 {
                assert(end.performed[k] == rest.performed[k - 1]);
            }
        }
    }
}

/// Idempotence: where a run of a plan succeeds, a second run on the
/// machine that the first one left succeeds too. The second run finds
/// every target absent: it performs no destructive action, leaves the
/// machine as it found it, and ends with the same status log.
pub proof fn law_second_run_succeeds_by_absence(plan: PlanView, machine: Machine)
    requires
        plan_fits(plan),
        whole_run(plan, machine).state.succeeded(),
    ensures
        ({
            let first = whole_run(plan, machine);
            let second = whole_run(plan, first.machine);
            &&& second.state.succeeded()
            &&& second.machine == first.machine
            &&& second.state.log == first.state.log
            &&& forall|k: int|
                0 <= k < second.performed.len() ==> !(
                #[trigger] second.performed[k]).is_destructive()
        }),
{
    let start = WorkflowView::initial(plan);
    lemma_initial_wf(plan);
    lemma_success_clears(start, machine, most_actions(plan));
    let first = whole_run(plan, machine);
    let root = first.state.install_path->0;
    lemma_quiet_run(start, first.machine, root, most_actions(plan));
    let second = whole_run(plan, first.machine);
    assert(second.state.expected_log() == first.state.expected_log());
}

} // verus!
