//! The workflow: which question or removal comes next, and when a run ends.
//!
//! A [`Workflow`] never touches the machine. It names the next
//! [`Action`]; a driver performs it and hands the outcome back as an
//! [`Event`]; [`Workflow::step`] gives the state that follows. A run ends
//! at [`Action::Finish`], either at [`Stage::Done`] or halted at the stage
//! whose guard failed. Nothing is retried and nothing is undone.

use vstd::prelude::*;
use crate::plan::{ConfigEntryTarget, DirectoryTarget, PlanView, RemovalPlan};
use crate::prober::{is_target_process_running, name_views};
use crate::remover::{
    directory_policy,
    entry_policy,
    remove_config_entry,
    remove_directory,
    Decision,
    DirectoryEvent,
    EntryEvent,
};
use crate::resolver::{resolve_install_path, resolved_path};
use crate::scanner::{
    installed_programs,
    listing_views,
    scan_installed_programs,
    text_of,
    RootProbe,
    RootProbeView,
};

verus! {

/// How far a run has come.
#[derive(Clone, Copy, Debug, PartialEq, Eq, Structural)]
pub enum Stage {
    /// Nothing is known yet; the privilege check is due.
    Start,
    /// The caller is elevated; the process check is due.
    PrivilegeChecked,
    /// The application is not running; its install path is to be found.
    ProcessChecked,
    /// The install path is known; configuration entries are being deleted.
    PathResolved,
    /// All configuration entries are gone; directories are being removed.
    EntriesRemoved,
    /// All directories are gone. Nothing is left to wait for, so a run
    /// passes through this stage to `Done` within one step.
    DirectoriesRemoved,
    /// The run succeeded.
    Done,
}

/// The kinds of failure that end a run.
#[derive(Clone, Copy, Debug, PartialEq, Eq, Structural)]
pub enum FailureKind {
    /// A condition for starting was not met. Nothing was removed.
    Precondition,
    /// The application's install record was not found or not understood.
    /// Nothing was removed.
    Discovery,
    /// A target exists and could not be removed. Targets before it are
    /// gone, targets after it are untouched.
    Removal,
}

/// Why a run was halted.
#[derive(Clone, Copy, Debug, PartialEq, Eq, Structural)]
pub enum HaltReason {
    /// The caller is not elevated.
    NotElevated,
    /// The application is running.
    ProcessRunning,
    /// No install path could be derived from the program records.
    InstallPathNotFound,
    /// The configuration entry at this index of the plan was not deleted.
    EntryRemoval(usize),
    /// The directory at this index of the plan was not removed.
    DirectoryRemoval(usize),
}

/// The label of a status line.
#[derive(Clone, Copy, Debug, PartialEq, Eq, Structural)]
pub enum Tag {
    Info,
    Okay,
    Fail,
}

/// One line of the status log.
#[derive(Clone, Copy, Debug, PartialEq, Eq, Structural)]
pub enum Report {
    /// The run began.
    Started,
    /// The caller is elevated.
    PrivilegeGranted,
    /// The caller is not elevated.
    PrivilegeMissing,
    /// The application is not running.
    ProcessClosed,
    /// The application is running.
    ProcessOpen,
    /// The install path was found.
    PathFound,
    /// The install path was not found.
    PathMissing,
    /// The configuration entry at this index is gone.
    EntryDeleted(usize),
    /// The configuration entry at this index could not be deleted.
    EntryFailed(usize),
    /// The directory at this index is gone.
    DirectoryDeleted(usize),
    /// The directory at this index could not be removed.
    DirectoryFailed(usize),
}

/// What the driver is asked to do next.
#[derive(Clone, Copy, Debug, PartialEq, Eq, Structural)]
pub enum Action {
    /// Ask whether the caller is elevated.
    CheckPrivilege,
    /// Take a snapshot of the process table.
    ListProcesses,
    /// Walk the plan's program listings.
    ScanPrograms,
    /// Try to open the configuration entry at this index of the plan.
    OpenEntry(usize),
    /// Delete the configuration entry at this index, with all below it.
    DeleteEntry(usize),
    /// Read the metadata of the directory at this index of the plan.
    ProbeDirectory(usize),
    /// Remove the tree of the directory at this index.
    RemoveDirectory(usize),
    /// The run is over.
    Finish,
}

/// What the driver found when it performed an action.
#[derive(Clone, Debug, PartialEq, Eq)]
pub enum Event {
    /// Whether the caller is elevated.
    Privilege(bool),
    /// The executable names of the running processes.
    Processes(Vec<String>),
    /// What the walk over the program listings found.
    Programs(Vec<RootProbe>),
    /// What the store reported about the current configuration entry.
    Entry(EntryEvent),
    /// What the file system reported about the current directory.
    Directory(DirectoryEvent),
}

pub enum EventView {
    Privilege(bool),
    Processes(Seq<Seq<char>>),
    Programs(Seq<RootProbeView>),
    Entry(EntryEvent),
    Directory(DirectoryEvent),
}

impl View for Event {
    type V = EventView;

    open spec fn view(&self) -> EventView {
        match *self {
            Event::Privilege(elevated) => EventView::Privilege(elevated),
            Event::Processes(names) => EventView::Processes(name_views(names@)),
            Event::Programs(listing) => EventView::Programs(listing_views(listing@)),
            Event::Entry(observed) => EventView::Entry(observed),
            Event::Directory(observed) => EventView::Directory(observed),
        }
    }
}

impl HaltReason {
    /// The kind of failure that this reason belongs to.
    pub open spec fn spec_kind(self) -> FailureKind {
        match self {
            HaltReason::NotElevated | HaltReason::ProcessRunning => FailureKind::Precondition,
            HaltReason::InstallPathNotFound => FailureKind::Discovery,
            HaltReason::EntryRemoval(_) | HaltReason::DirectoryRemoval(_) => FailureKind::Removal,
        }
    }

    /// The status line that reports this reason.
    pub open spec fn spec_report(self) -> Report {
        match self {
            HaltReason::NotElevated => Report::PrivilegeMissing,
            HaltReason::ProcessRunning => Report::ProcessOpen,
            HaltReason::InstallPathNotFound => Report::PathMissing,
            HaltReason::EntryRemoval(index) => Report::EntryFailed(index),
            HaltReason::DirectoryRemoval(index) => Report::DirectoryFailed(index),
        }
    }

    /// The kind of failure that this reason belongs to.
    pub fn kind(self) -> (kind: FailureKind)
        ensures
            kind == self.spec_kind(),
    {
        match self {
            HaltReason::NotElevated => FailureKind::Precondition,
            HaltReason::ProcessRunning => FailureKind::Precondition,
            HaltReason::InstallPathNotFound => FailureKind::Discovery,
            HaltReason::EntryRemoval(_) => FailureKind::Removal,
            HaltReason::DirectoryRemoval(_) => FailureKind::Removal,
        }
    }

    /// The status line that reports this reason.
    pub fn report(self) -> (line: Report)
        ensures
            line == self.spec_report(),
    {
        match self {
            HaltReason::NotElevated => Report::PrivilegeMissing,
            HaltReason::ProcessRunning => Report::ProcessOpen,
            HaltReason::InstallPathNotFound => Report::PathMissing,
            HaltReason::EntryRemoval(index) => Report::EntryFailed(index),
            HaltReason::DirectoryRemoval(index) => Report::DirectoryFailed(index),
        }
    }
}

impl Report {
    /// The label under which this line is shown.
    pub open spec fn spec_tag(self) -> Tag {
        match self {
            Report::Started => Tag::Info,
            Report::PrivilegeGranted
            | Report::ProcessClosed
            | Report::PathFound
            | Report::EntryDeleted(_)
            | Report::DirectoryDeleted(_) => Tag::Okay,
            Report::PrivilegeMissing
            | Report::ProcessOpen
            | Report::PathMissing
            | Report::EntryFailed(_)
            | Report::DirectoryFailed(_) => Tag::Fail,
        }
    }

    /// The label under which this line is shown.
    pub fn tag(self) -> (tag: Tag)
        ensures
            tag == self.spec_tag(),
    {
        match self {
            Report::Started => Tag::Info,
            Report::PrivilegeGranted => Tag::Okay,
            Report::ProcessClosed => Tag::Okay,
            Report::PathFound => Tag::Okay,
            Report::EntryDeleted(_) => Tag::Okay,
            Report::DirectoryDeleted(_) => Tag::Okay,
            Report::PrivilegeMissing => Tag::Fail,
            Report::ProcessOpen => Tag::Fail,
            Report::PathMissing => Tag::Fail,
            Report::EntryFailed(_) => Tag::Fail,
            Report::DirectoryFailed(_) => Tag::Fail,
        }
    }
}

impl Action {
    /// Whether performing this action changes the machine.
    pub open spec fn is_destructive(self) -> bool {
        self is DeleteEntry || self is RemoveDirectory
    }
}

/// The state of a run, as contracts see it.
pub struct WorkflowView {
    /// The plan that the run follows.
    pub plan: PlanView,
    /// The stage reached last.
    pub stage: Stage,
    /// Why the run was halted at `stage`, if it was.
    pub halted: Option<HaltReason>,
    /// The install path, once resolved.
    pub install_path: Option<Seq<char>>,
    /// Index of the target at hand within the list of the current stage.
    pub cursor: usize,
    /// Whether the target at hand was found and is to be deleted.
    pub destroying: bool,
    /// The status lines so far.
    pub log: Seq<Report>,
}

impl WorkflowView {
    /// The state in which a run of `plan` begins.
    pub open spec fn initial(plan: PlanView) -> WorkflowView {
        WorkflowView {
            plan,
            stage: Stage::Start,
            halted: None,
            install_path: None,
            cursor: 0,
            destroying: false,
            log: seq![Report::Started],
        }
    }

    /// The run is over, well or badly.
    pub open spec fn finished(self) -> bool {
        self.halted is Some || self.stage == Stage::Done
    }

    /// The run succeeded.
    pub open spec fn succeeded(self) -> bool {
        self.halted is None && self.stage == Stage::Done
    }

    /// What the driver is asked to do in this state.
    pub open spec fn pending(self) -> Action {
        if self.halted is Some {
            Action::Finish
        } else {
            match self.stage {
                Stage::Start => Action::CheckPrivilege,
                Stage::PrivilegeChecked => Action::ListProcesses,
                Stage::ProcessChecked => Action::ScanPrograms,
                Stage::PathResolved => if self.destroying {
                    Action::DeleteEntry(self.cursor)
                } else {
                    Action::OpenEntry(self.cursor)
                },
                Stage::EntriesRemoved => if self.destroying {
                    Action::RemoveDirectory(self.cursor)
                } else {
                    Action::ProbeDirectory(self.cursor)
                },
                Stage::DirectoriesRemoved | Stage::Done => Action::Finish,
            }
        }
    }

    /// The reason with which the guard of the current stage fails.
    pub open spec fn stage_failure(self) -> HaltReason {
        match self.stage {
            Stage::Start => HaltReason::NotElevated,
            Stage::PrivilegeChecked => HaltReason::ProcessRunning,
            Stage::ProcessChecked => HaltReason::InstallPathNotFound,
            Stage::PathResolved => HaltReason::EntryRemoval(self.cursor),
            _ => HaltReason::DirectoryRemoval(self.cursor),
        }
    }

    /// The run halts where it stands, and says why.
    pub open spec fn halt(self) -> WorkflowView {
        WorkflowView {
            halted: Some(self.stage_failure()),
            log: self.log.push(self.stage_failure().spec_report()),
            ..self
        }
    }

    /// The run moves on to `stage`, and says so with `line`.
    pub open spec fn proceed(self, stage: Stage, line: Report) -> WorkflowView {
        WorkflowView { stage, log: self.log.push(line), ..self }
    }

    /// The directory stage begins; it is over at once where the plan names
    /// no directory.
    pub open spec fn enter_directories(self) -> WorkflowView {
        if self.plan.directories.len() > 0 {
            WorkflowView { stage: Stage::EntriesRemoved, cursor: 0, destroying: false, ..self }
        } else {
            WorkflowView { stage: Stage::Done, cursor: 0, destroying: false, ..self }
        }
    }

    /// The entry stage begins; it is over at once where the plan names no
    /// entry.
    pub open spec fn enter_entries(self) -> WorkflowView {
        if self.plan.entries.len() > 0 {
            WorkflowView { stage: Stage::PathResolved, cursor: 0, destroying: false, ..self }
        } else {
            self.enter_directories()
        }
    }

    /// The entry at hand is gone: on to the next one, or to the
    /// directories after the last.
    pub open spec fn entry_done(self) -> WorkflowView {
        let logged = WorkflowView {
            log: self.log.push(Report::EntryDeleted(self.cursor)),
            destroying: false,
            ..self
        };
        if self.cursor + 1 < self.plan.entries.len() {
            WorkflowView { cursor: (self.cursor + 1) as usize, ..logged }
        } else {
            logged.enter_directories()
        }
    }

    /// The directory at hand is gone: on to the next one, or to the end
    /// after the last.
    pub open spec fn directory_done(self) -> WorkflowView {
        let logged = WorkflowView {
            log: self.log.push(Report::DirectoryDeleted(self.cursor)),
            destroying: false,
            ..self
        };
        if self.cursor + 1 < self.plan.directories.len() {
            WorkflowView { cursor: (self.cursor + 1) as usize, ..logged }
        } else {
            WorkflowView { stage: Stage::Done, cursor: 0, ..logged }
        }
    }

    /// Whether `event` answers the action that is pending on an entry.
    pub open spec fn answers_entry(self, event: EntryEvent) -> bool {
        (event is Deleted) == self.destroying
    }

    /// Whether `event` answers the action that is pending on a directory.
    pub open spec fn answers_directory(self, event: DirectoryEvent) -> bool {
        (event is Removed) == self.destroying
    }

    /// Whether `event` answers the pending action.
    pub open spec fn answers(self, event: EventView) -> bool {
        !self.finished() && match (self.stage, event) {
            (Stage::Start, EventView::Privilege(_)) => true,
            (Stage::PrivilegeChecked, EventView::Processes(_)) => true,
            (Stage::ProcessChecked, EventView::Programs(_)) => true,
            (Stage::PathResolved, EventView::Entry(observed)) => self.answers_entry(observed),
            (Stage::EntriesRemoved, EventView::Directory(observed)) => self.answers_directory(
                observed,
            ),
            _ => false,
        }
    }

    /// The state that follows this one on `event`.
    ///
    /// An event that does not answer the pending action changes nothing;
    /// so does every event once the run is over.
    pub open spec fn step(self, event: EventView) -> WorkflowView {
        if !self.answers(event) {
            self
        } else {
            match event {
                EventView::Privilege(elevated) => if elevated {
                    self.proceed(Stage::PrivilegeChecked, Report::PrivilegeGranted)
                } else {
                    self.halt()
                },
                EventView::Processes(names) => if names.contains(self.plan.process_executable) {
                    self.halt()
                } else {
                    self.proceed(Stage::ProcessChecked, Report::ProcessClosed)
                },
                EventView::Programs(listing) => match resolved_path(
                    installed_programs(listing),
                    self.plan.program_name,
                    self.plan.uninstaller_marker,
                ) {
                    Some(path) => (WorkflowView {
                        install_path: Some(path),
                        log: self.log.push(Report::PathFound),
                        ..self
                    }).enter_entries(),
                    None => self.halt(),
                },
                EventView::Entry(observed) => match entry_policy(observed) {
                    Decision::Attempt => WorkflowView { destroying: true, ..self },
                    Decision::Succeed => self.entry_done(),
                    Decision::Fail => self.halt(),
                },
                EventView::Directory(observed) => match directory_policy(observed) {
                    Decision::Attempt => WorkflowView { destroying: true, ..self },
                    Decision::Succeed => self.directory_done(),
                    Decision::Fail => self.halt(),
                },
            }
        }
    }

    /// How many configuration entries are gone for certain.
    pub open spec fn entries_done(self) -> nat {
        match self.stage {
            Stage::Start | Stage::PrivilegeChecked | Stage::ProcessChecked => 0,
            Stage::PathResolved => self.cursor as nat,
            _ => self.plan.entries.len(),
        }
    }

    /// How many directories are gone for certain.
    pub open spec fn directories_done(self) -> nat {
        match self.stage {
            Stage::EntriesRemoved => self.cursor as nat,
            Stage::DirectoriesRemoved | Stage::Done => self.plan.directories.len(),
            _ => 0,
        }
    }

    /// The status lines of the stages before the removals.
    pub open spec fn preamble(self) -> Seq<Report> {
        match self.stage {
            Stage::Start => seq![Report::Started],
            Stage::PrivilegeChecked => seq![Report::Started, Report::PrivilegeGranted],
            Stage::ProcessChecked => seq![
                Report::Started,
                Report::PrivilegeGranted,
                Report::ProcessClosed,
            ],
            _ => seq![
                Report::Started,
                Report::PrivilegeGranted,
                Report::ProcessClosed,
                Report::PathFound,
            ],
        }
    }

    /// The status log that belongs to this state: the lines of the stages
    /// passed, one line for each target that is gone, in the plan's order,
    /// and the failure last, if there is one.
    pub open spec fn expected_log(self) -> Seq<Report> {
        self.preamble() + Seq::new(self.entries_done(), |i: int| Report::EntryDeleted(i as usize))
            + Seq::new(self.directories_done(), |j: int| Report::DirectoryDeleted(j as usize))
            + match self.halted {
            Some(reason) => seq![reason.spec_report()],
            None => Seq::empty(),
        }
    }

    /// What holds of every state that a run can reach.
    pub open spec fn wf(self) -> bool {
        &&& self.plan.entries.len() <= usize::MAX
        &&& self.plan.directories.len() <= usize::MAX
        &&& match self.stage {
            Stage::Start | Stage::PrivilegeChecked | Stage::ProcessChecked => {
                &&& self.install_path is None
                &&& self.cursor == 0
                &&& !self.destroying
            },
            Stage::PathResolved => {
                &&& self.install_path is Some
                &&& self.cursor < self.plan.entries.len()
            },
            Stage::EntriesRemoved => {
                &&& self.install_path is Some
                &&& self.cursor < self.plan.directories.len()
            },
            Stage::DirectoriesRemoved => false,
            Stage::Done => {
                &&& self.install_path is Some
                &&& self.cursor == 0
                &&& !self.destroying
                &&& self.halted is None
            },
        }
        &&& self.halted matches Some(reason) ==> reason == self.stage_failure()
        &&& self.log == self.expected_log()
    }
}

/// A run begins in a state that a run can reach.
pub proof fn lemma_initial_wf(plan: PlanView)
    requires
        plan.entries.len() <= usize::MAX,
        plan.directories.len() <= usize::MAX,
    ensures
        WorkflowView::initial(plan).wf(),
{
    let w = WorkflowView::initial(plan);
    assert(w.log =~= w.expected_log());
}

proof fn lemma_halt_wf(w: WorkflowView)
    requires
        w.wf(),
        !w.finished(),
    ensures
        w.halt().wf(),
{
    let next = w.halt();
    assert(next.log =~= next.expected_log());
}

proof fn lemma_proceed_wf(w: WorkflowView, stage: Stage, line: Report)
    requires
        w.wf(),
        !w.finished(),
        (w.stage == Stage::Start && stage == Stage::PrivilegeChecked && line
            == Report::PrivilegeGranted) || (w.stage == Stage::PrivilegeChecked && stage
            == Stage::ProcessChecked && line == Report::ProcessClosed),
    ensures
        w.proceed(stage, line).wf(),
{
    let next = w.proceed(stage, line);
    assert(next.log =~= next.expected_log());
}

proof fn lemma_found_wf(w: WorkflowView, path: Seq<char>)
    requires
        w.wf(),
        !w.finished(),
        w.stage == Stage::ProcessChecked,
    ensures
        (WorkflowView {
            install_path: Some(path),
            log: w.log.push(Report::PathFound),
            ..w
        }).enter_entries().wf(),
{
    let next = (WorkflowView {
        install_path: Some(path),
        log: w.log.push(Report::PathFound),
        ..w
    }).enter_entries();
    assert(next.log =~= next.expected_log());
}

proof fn lemma_entry_done_wf(w: WorkflowView)
    requires
        w.wf(),
        !w.finished(),
        w.stage == Stage::PathResolved,
    ensures
        w.entry_done().wf(),
{
    let next = w.entry_done();
    assert(next.log =~= next.expected_log());
}

proof fn lemma_directory_done_wf(w: WorkflowView)
    requires
        w.wf(),
        !w.finished(),
        w.stage == Stage::EntriesRemoved,
    ensures
        w.directory_done().wf(),
{
    let next = w.directory_done();
    assert(next.log =~= next.expected_log());
}

/// A step leads from a state that a run can reach to another such state.
pub proof fn lemma_step_wf(w: WorkflowView, event: EventView)
    requires
        w.wf(),
    ensures
        w.step(event).wf(),
{
    if w.answers(event) {
        match event {
            EventView::Privilege(elevated) => {
                if elevated {
                    lemma_proceed_wf(w, Stage::PrivilegeChecked, Report::PrivilegeGranted);
                } else {
                    lemma_halt_wf(w);
                }
            },
            EventView::Processes(names) => {
                if names.contains(w.plan.process_executable) {
                    lemma_halt_wf(w);
                } else {
                    lemma_proceed_wf(w, Stage::ProcessChecked, Report::ProcessClosed);
                }
            },
            EventView::Programs(listing) => {
                match resolved_path(
                    installed_programs(listing),
                    w.plan.program_name,
                    w.plan.uninstaller_marker,
                ) {
                    Some(path) => lemma_found_wf(w, path),
                    None => lemma_halt_wf(w),
                }
            },
            EventView::Entry(observed) => {
                match entry_policy(observed) {
                    Decision::Attempt => {},
                    Decision::Succeed => lemma_entry_done_wf(w),
                    Decision::Fail => lemma_halt_wf(w),
                }
            },
            EventView::Directory(observed) => {
                match directory_policy(observed) {
                    Decision::Attempt => {},
                    Decision::Succeed => lemma_directory_done_wf(w),
                    Decision::Fail => lemma_halt_wf(w),
                }
            },
        }
    }
}

/// A run in progress.
///
/// A value of this type is always in a state that a run can reach: it is
/// made by [`Workflow::new`] and changed by [`Workflow::step`] alone.
#[derive(Debug)]
pub struct Workflow {
    plan: RemovalPlan,
    stage: Stage,
    halted: Option<HaltReason>,
    install_path: Option<String>,
    cursor: usize,
    destroying: bool,
    log: Vec<Report>,
}

impl View for Workflow {
    type V = WorkflowView;

    closed spec fn view(&self) -> WorkflowView {
        WorkflowView {
            plan: self.plan@,
            stage: self.stage,
            halted: self.halted,
            install_path: text_of(self.install_path),
            cursor: self.cursor,
            destroying: self.destroying,
            log: self.log@,
        }
    }
}

/// The stage that follows the last configuration entry.
fn stage_after_entries(plan: &RemovalPlan) -> (stage: Stage)
    ensures
        stage == if plan@.directories.len() > 0 {
            Stage::EntriesRemoved
        } else {
            Stage::Done
        },
{
    if plan.directories.len() > 0 {
        Stage::EntriesRemoved
    } else {
        Stage::Done
    }
}

/// The stage that follows the resolution of the install path.
fn stage_after_path(plan: &RemovalPlan) -> (stage: Stage)
    ensures
        stage == if plan@.entries.len() > 0 {
            Stage::PathResolved
        } else if plan@.directories.len() > 0 {
            Stage::EntriesRemoved
        } else {
            Stage::Done
        },
{
    if plan.entries.len() > 0 {
        Stage::PathResolved
    } else {
        stage_after_entries(plan)
    }
}

impl Workflow {
    #[verifier::type_invariant]
    spec fn inv(&self) -> bool {
        self@.wf()
    }

    /// A run of `plan`, before its first step.
    pub fn new(plan: RemovalPlan) -> (run: Workflow)
        ensures
            run@ == WorkflowView::initial(plan@),
            run@.wf(),
    {
        proof {
            assert(plan@.entries.len() == plan.entries.len());
            assert(plan@.directories.len() == plan.directories.len());
            lemma_initial_wf(plan@);
        }
        let mut log: Vec<Report> = Vec::new();
        log.push(Report::Started);
        assert(log@ =~= seq![Report::Started]);
        Workflow {
            plan,
            stage: Stage::Start,
            halted: None,
            install_path: None,
            cursor: 0,
            destroying: false,
            log,
        }
    }

    /// What the driver is to do next.
    pub fn pending(&self) -> (action: Action)
        ensures
            action == self@.pending(),
    {
        if self.halted.is_some() {
            return Action::Finish;
        }
        match self.stage {
            Stage::Start => Action::CheckPrivilege,
            Stage::PrivilegeChecked => Action::ListProcesses,
            Stage::ProcessChecked => Action::ScanPrograms,
            Stage::PathResolved => {
                if self.destroying {
                    Action::DeleteEntry(self.cursor)
                } else {
                    Action::OpenEntry(self.cursor)
                }
            },
            Stage::EntriesRemoved => {
                if self.destroying {
                    Action::RemoveDirectory(self.cursor)
                } else {
                    Action::ProbeDirectory(self.cursor)
                }
            },
            Stage::DirectoriesRemoved => Action::Finish,
            Stage::Done => Action::Finish,
        }
    }

    /// The state that follows on `event`, the outcome of the pending
    /// action.
    ///
    /// An event that does not answer the pending action changes nothing,
    /// and nothing changes once the run is over.
    pub fn step(self, event: Event) -> (next: Workflow)
        ensures
            next@ == self@.step(event@),
            next@.wf(),
    {
        proof {
            use_type_invariant(&self);
            lemma_step_wf(self@, event@);
        }
        if self.halted.is_some() {
            return self;
        }
        match event {
            Event::Privilege(elevated) => match self.stage {
                Stage::Start => {
                    if elevated {
                        self.proceed(Stage::PrivilegeChecked, Report::PrivilegeGranted)
                    } else {
                        self.halt()
                    }
                },
                _ => self,
            },
            Event::Processes(names) => match self.stage {
                Stage::PrivilegeChecked => {
                    if is_target_process_running(&names, self.plan.process_executable.as_str()) {
                        self.halt()
                    } else {
                        self.proceed(Stage::ProcessChecked, Report::ProcessClosed)
                    }
                },
                _ => self,
            },
            Event::Programs(listing) => match self.stage {
                Stage::ProcessChecked => self.resolve(&listing),
                _ => self,
            },
            Event::Entry(observed) => match self.stage {
                Stage::PathResolved => self.on_entry(observed),
                _ => self,
            },
            Event::Directory(observed) => match self.stage {
                Stage::EntriesRemoved => self.on_directory(observed),
                _ => self,
            },
        }
    }

    fn halt(self) -> (next: Workflow)
        requires
            !self@.finished(),
        ensures
            next@ == self@.halt(),
    {
        proof {
            use_type_invariant(&self);
            lemma_halt_wf(self@);
        }
        let reason = match self.stage {
            Stage::Start => HaltReason::NotElevated,
            Stage::PrivilegeChecked => HaltReason::ProcessRunning,
            Stage::ProcessChecked => HaltReason::InstallPathNotFound,
            Stage::PathResolved => HaltReason::EntryRemoval(self.cursor),
            _ => HaltReason::DirectoryRemoval(self.cursor),
        };
        let Workflow { plan, stage, halted: _, install_path, cursor, destroying, log } = self;
        let mut log = log;
        log.push(reason.report());
        Workflow { plan, stage, halted: Some(reason), install_path, cursor, destroying, log }
    }

    fn proceed(self, stage: Stage, line: Report) -> (next: Workflow)
        requires
            !self@.finished(),
            (self@.stage == Stage::Start && stage == Stage::PrivilegeChecked && line
                == Report::PrivilegeGranted) || (self@.stage == Stage::PrivilegeChecked && stage
                == Stage::ProcessChecked && line == Report::ProcessClosed),
        ensures
            next@ == self@.proceed(stage, line),
    {
        proof {
            use_type_invariant(&self);
            lemma_proceed_wf(self@, stage, line);
        }
        let Workflow { plan, stage: _, halted, install_path, cursor, destroying, log } = self;
        let mut log = log;
        log.push(line);
        Workflow { plan, stage, halted, install_path, cursor, destroying, log }
    }

    fn resolve(self, listing: &Vec<RootProbe>) -> (next: Workflow)
        requires
            !self@.finished(),
            self@.stage == Stage::ProcessChecked,
        ensures
            next@ == self@.step(EventView::Programs(listing_views(listing@))),
    {
        proof {
            use_type_invariant(&self);
        }
        let programs = scan_installed_programs(listing);
        let found = resolve_install_path(
            &programs,
            self.plan.program_name.as_str(),
            self.plan.uninstaller_marker.as_str(),
        );
        match found {
            Some(path) => {
                proof {
                    lemma_found_wf(self@, path@);
                }
                let Workflow { plan, stage: _, halted, install_path: _, cursor: _, destroying: _, log } =
                    self;
                let mut log = log;
                log.push(Report::PathFound);
                let stage = stage_after_path(&plan);
                Workflow {
                    plan,
                    stage,
                    halted,
                    install_path: Some(path),
                    cursor: 0,
                    destroying: false,
                    log,
                }
            },
            None => self.halt(),
        }
    }

    fn on_entry(self, observed: EntryEvent) -> (next: Workflow)
        requires
            !self@.finished(),
            self@.stage == Stage::PathResolved,
        ensures
            next@ == self@.step(EventView::Entry(observed)),
    {
        proof {
            use_type_invariant(&self);
        }
        let answers = match observed {
            EntryEvent::Opened(_) => !self.destroying,
            EntryEvent::Deleted(_) => self.destroying,
        };
        if !answers {
            return self;
        }
        match remove_config_entry(observed) {
            Decision::Attempt => {
                let Workflow { plan, stage, halted, install_path, cursor, destroying: _, log } = self;
                Workflow { plan, stage, halted, install_path, cursor, destroying: true, log }
            },
            Decision::Succeed => {
                proof {
                    lemma_entry_done_wf(self@);
                }
                let Workflow { plan, stage, halted, install_path, cursor, destroying: _, log } = self;
                let mut log = log;
                log.push(Report::EntryDeleted(cursor));
                if cursor + 1 < plan.entries.len() {
                    Workflow {
                        plan,
                        stage,
                        halted,
                        install_path,
                        cursor: cursor + 1,
                        destroying: false,
                        log,
                    }
                } else {
                    let stage = stage_after_entries(&plan);
                    Workflow {
                        plan,
                        stage,
                        halted,
                        install_path,
                        cursor: 0,
                        destroying: false,
                        log,
                    }
                }
            },
            Decision::Fail => self.halt(),
        }
    }

    fn on_directory(self, observed: DirectoryEvent) -> (next: Workflow)
        requires
            !self@.finished(),
            self@.stage == Stage::EntriesRemoved,
        ensures
            next@ == self@.step(EventView::Directory(observed)),
    {
        proof {
            use_type_invariant(&self);
        }
        let answers = match observed {
            DirectoryEvent::Probed(_) => !self.destroying,
            DirectoryEvent::Removed(_) => self.destroying,
        };
        if !answers {
            return self;
        }
        match remove_directory(observed) {
            Decision::Attempt => {
                let Workflow { plan, stage, halted, install_path, cursor, destroying: _, log } = self;
                Workflow { plan, stage, halted, install_path, cursor, destroying: true, log }
            },
            Decision::Succeed => {
                proof {
                    lemma_directory_done_wf(self@);
                }
                let Workflow { plan, stage, halted, install_path, cursor, destroying: _, log } = self;
                let mut log = log;
                log.push(Report::DirectoryDeleted(cursor));
                if cursor + 1 < plan.directories.len() {
                    Workflow {
                        plan,
                        stage,
                        halted,
                        install_path,
                        cursor: cursor + 1,
                        destroying: false,
                        log,
                    }
                } else {
                    Workflow {
                        plan,
                        stage: Stage::Done,
                        halted,
                        install_path,
                        cursor: 0,
                        destroying: false,
                        log,
                    }
                }
            },
            Decision::Fail => self.halt(),
        }
    }
}

impl Workflow {
    /// The plan that the run follows.
    pub fn plan(&self) -> (plan: &RemovalPlan)
        ensures
            plan@ == self@.plan,
    {
        &self.plan
    }

    /// The stage reached last.
    pub fn stage(&self) -> (stage: Stage)
        ensures
            stage == self@.stage,
            self@.wf(),
    {
        proof {
            use_type_invariant(self);
        }
        self.stage
    }

    /// Why the run was halted, if it was.
    pub fn halt_reason(&self) -> (reason: Option<HaltReason>)
        ensures
            reason == self@.halted,
    {
        self.halted
    }

    /// Whether the run is over, well or badly.
    pub fn is_finished(&self) -> (over: bool)
        ensures
            over == self@.finished(),
            over == (self@.pending() == Action::Finish),
    {
        proof {
            use_type_invariant(self);
        }
        if self.halted.is_some() {
            return true;
        }
        match self.stage {
            Stage::Done => true,
            _ => false,
        }
    }

    /// Whether the run succeeded.
    pub fn has_succeeded(&self) -> (well: bool)
        ensures
            well == self@.succeeded(),
    {
        if self.halted.is_some() {
            return false;
        }
        match self.stage {
            Stage::Done => true,
            _ => false,
        }
    }

    /// The install path, once resolved.
    pub fn install_path(&self) -> (path: Option<String>)
        ensures
            text_of(path) == self@.install_path,
    {
        match &self.install_path {
            Some(path) => Some(path.clone()),
            None => None,
        }
    }

    /// The status lines so far, oldest first.
    pub fn log(&self) -> (lines: &Vec<Report>)
        ensures
            lines@ == self@.log,
            lines@ == self@.expected_log(),
    {
        proof {
            use_type_invariant(self);
        }
        &self.log
    }

    /// The configuration entry at `index` of the plan, if there is one.
    pub fn entry_target(&self, index: usize) -> (target: Option<ConfigEntryTarget>)
        ensures
            match target {
                Some(entry) => index < self@.plan.entries.len() && entry@
                    == self@.plan.entries[index as int],
                None => index >= self@.plan.entries.len(),
            },
    {
        if index < self.plan.entries.len() {
            Some(self.plan.entries[index].duplicate())
        } else {
            None
        }
    }

    /// The directory at `index` of the plan, below the install path. There
    /// is none before the install path is resolved.
    pub fn directory_target(&self, index: usize) -> (target: Option<DirectoryTarget>)
        ensures
            match target {
                Some(directory) => {
                    &&& index < self@.plan.directories.len()
                    &&& self@.install_path == Some(directory@.root)
                    &&& directory@.name == self@.plan.directories[index as int]
                },
                None => index >= self@.plan.directories.len() || self@.install_path is None,
            },
    {
        if index >= self.plan.directories.len() {
            return None;
        }
        match &self.install_path {
            Some(path) => Some(
                DirectoryTarget { root: path.clone(), name: self.plan.directories[index].clone() },
            ),
            None => None,
        }
    }
}

} // verus!
