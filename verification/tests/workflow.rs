use steam_reset::orchestrator::{Action, Event, HaltReason, Report, Stage, Workflow};
use steam_reset::plan::{ConfigEntryTarget, DirectoryTarget, RemovalPlan, StoreRoot};
use steam_reset::remover::{DirectoryEvent, EntryEvent, RemoveOutcome};
use steam_reset::scanner::{KeyProbe, RootProbe};

/// A machine that lives in memory and answers as the real one would if
/// nothing but the run changed it.
struct Machine {
    elevated: bool,
    processes: Vec<String>,
    listing: Vec<RootProbe>,
    entries: Vec<(StoreRoot, String)>,
    locked_entries: Vec<(StoreRoot, String)>,
    directories: Vec<(String, String)>,
    locked_directories: Vec<(String, String)>,
    performed: Vec<Action>,
}

fn steam_listing(command: &str) -> Vec<RootProbe> {
    vec![
        RootProbe::Opened(vec![KeyProbe::Opened {
            display_name: Some("Steam".to_string()),
            uninstall_command: Some(command.to_string()),
        }]),
        RootProbe::Unopened,
    ]
}

fn clean_machine() -> Machine {
    Machine {
        elevated: true,
        processes: vec!["explorer.exe".to_string()],
        listing: steam_listing("C:\\Steam\\uninstall.exe"),
        entries: Vec::new(),
        locked_entries: Vec::new(),
        directories: Vec::new(),
        locked_directories: Vec::new(),
        performed: Vec::new(),
    }
}

fn installed_machine() -> Machine {
    let plan = RemovalPlan::standard();
    let mut machine = clean_machine();
    for entry in plan.entries.iter() {
        machine.entries.push((entry.root, entry.path.clone()));
    }
    for name in plan.directories.iter() {
        machine.directories.push(("C:\\Steam".to_string(), name.clone()));
    }
    machine
}

fn entry_key(target: &ConfigEntryTarget) -> (StoreRoot, String) {
    (target.root, target.path.clone())
}

fn directory_key(target: &DirectoryTarget) -> (String, String) {
    (target.root.clone(), target.name.clone())
}

impl Machine {
    fn answer(&mut self, run: &Workflow, action: Action) -> Event {
        self.performed.push(action);
        match action {
            Action::CheckPrivilege => Event::Privilege(self.elevated),
            Action::ListProcesses => Event::Processes(self.processes.clone()),
            Action::ScanPrograms => Event::Programs(self.listing.clone()),
            Action::OpenEntry(index) => {
                let key = entry_key(&run.entry_target(index).unwrap());
                Event::Entry(EntryEvent::Opened(self.entries.contains(&key)))
            }
            Action::DeleteEntry(index) => {
                let key = entry_key(&run.entry_target(index).unwrap());
                if self.locked_entries.contains(&key) {
                    Event::Entry(EntryEvent::Deleted(false))
                } else {
                    self.entries.retain(|held| *held != key);
                    Event::Entry(EntryEvent::Deleted(true))
                }
            }
            Action::ProbeDirectory(index) => {
                let key = directory_key(&run.directory_target(index).unwrap());
                Event::Directory(DirectoryEvent::Probed(self.directories.contains(&key)))
            }
            Action::RemoveDirectory(index) => {
                let key = directory_key(&run.directory_target(index).unwrap());
                if !self.directories.contains(&key) {
                    Event::Directory(DirectoryEvent::Removed(RemoveOutcome::NotFound))
                } else if self.locked_directories.contains(&key) {
                    Event::Directory(DirectoryEvent::Removed(RemoveOutcome::Failed))
                } else {
                    self.directories.retain(|held| *held != key);
                    Event::Directory(DirectoryEvent::Removed(RemoveOutcome::Removed))
                }
            }
            Action::Finish => unreachable!(),
        }
    }

    fn run(&mut self, plan: RemovalPlan) -> Workflow {
        self.performed.clear();
        let mut run = Workflow::new(plan);
        let mut steps: usize = 0;
        while !run.is_finished() {
            let action = run.pending();
            let event = self.answer(&run, action);
            run = run.step(event);
            steps += 1;
            assert!(steps <= 1000);
        }
        assert_eq!(run.pending(), Action::Finish);
        run
    }

    fn destructive_actions(&self) -> usize {
        self.performed
            .iter()
            .filter(|action| matches!(action, Action::DeleteEntry(_) | Action::RemoveDirectory(_)))
            .count()
    }

    fn removal_attempts(&self) -> usize {
        self.performed
            .iter()
            .filter(|action| {
                matches!(
                    action,
                    Action::OpenEntry(_)
                        | Action::DeleteEntry(_)
                        | Action::ProbeDirectory(_)
                        | Action::RemoveDirectory(_)
                )
            })
            .count()
    }
}

fn full_log() -> Vec<Report> {
    let mut log = vec![
        Report::Started,
        Report::PrivilegeGranted,
        Report::ProcessClosed,
        Report::PathFound,
    ];
    for index in 0..7usize {
        log.push(Report::EntryDeleted(index));
    }
    for index in 0..5usize {
        log.push(Report::DirectoryDeleted(index));
    }
    log
}

fn small_plan(entries: usize, directories: usize) -> RemovalPlan {
    let mut plan = RemovalPlan::standard();
    plan.entries.truncate(entries);
    plan.directories.truncate(directories);
    plan
}

/// A run of the standard plan that has just resolved its install path.
fn at_first_entry() -> Workflow {
    Workflow::new(RemovalPlan::standard())
        .step(Event::Privilege(true))
        .step(Event::Processes(Vec::new()))
        .step(Event::Programs(steam_listing("C:\\Steam\\uninstall.exe")))
}

/// A run of the standard plan that has just left its last entry behind.
fn at_first_directory() -> Workflow {
    let mut run = at_first_entry();
    for _ in 0..7usize {
        run = run.step(Event::Entry(EntryEvent::Opened(false)));
    }
    run
}

#[test]
fn a_new_run_asks_for_the_privilege_check() {
    let run = Workflow::new(RemovalPlan::standard());
    assert_eq!(run.stage(), Stage::Start);
    assert_eq!(run.halt_reason(), None);
    assert_eq!(run.pending(), Action::CheckPrivilege);
    assert_eq!(run.install_path(), None);
    assert_eq!(run.log(), &vec![Report::Started]);
    assert!(!run.is_finished());
    assert!(!run.has_succeeded());
    assert_eq!(run.plan(), &RemovalPlan::standard());
}

#[test]
fn happy_path_with_everything_absent_reaches_done() {
    let mut machine = clean_machine();
    let run = machine.run(RemovalPlan::standard());
    assert_eq!(run.stage(), Stage::Done);
    assert_eq!(run.halt_reason(), None);
    assert!(run.has_succeeded());
    assert_eq!(run.install_path(), Some("C:\\Steam".to_string()));
    assert_eq!(run.log(), &full_log());
    let entry_lines: usize =
        run.log().iter().filter(|line| matches!(line, Report::EntryDeleted(_))).count();
    let directory_lines: usize =
        run.log().iter().filter(|line| matches!(line, Report::DirectoryDeleted(_))).count();
    assert_eq!(entry_lines, 7);
    assert_eq!(directory_lines, 5);
    assert_eq!(machine.destructive_actions(), 0);
    let mut expected = vec![Action::CheckPrivilege, Action::ListProcesses, Action::ScanPrograms];
    for index in 0..7usize {
        expected.push(Action::OpenEntry(index));
    }
    for index in 0..5usize {
        expected.push(Action::ProbeDirectory(index));
    }
    assert_eq!(machine.performed, expected);
}

#[test]
fn happy_path_with_everything_present_deletes_everything() {
    let mut machine = installed_machine();
    let run = machine.run(RemovalPlan::standard());
    assert!(run.has_succeeded());
    assert_eq!(run.log(), &full_log());
    assert!(machine.entries.is_empty());
    assert!(machine.directories.is_empty());
    assert_eq!(machine.destructive_actions(), 12);
    let mut expected = vec![Action::CheckPrivilege, Action::ListProcesses, Action::ScanPrograms];
    for index in 0..7usize {
        expected.push(Action::OpenEntry(index));
        expected.push(Action::DeleteEntry(index));
    }
    for index in 0..5usize {
        expected.push(Action::ProbeDirectory(index));
        expected.push(Action::RemoveDirectory(index));
    }
    assert_eq!(machine.performed, expected);
}

#[test]
fn without_privilege_the_run_halts_at_start() {
    let mut machine = installed_machine();
    machine.elevated = false;
    let run = machine.run(RemovalPlan::standard());
    assert_eq!(run.stage(), Stage::Start);
    assert_eq!(run.halt_reason(), Some(HaltReason::NotElevated));
    assert!(run.is_finished());
    assert!(!run.has_succeeded());
    assert_eq!(run.log(), &vec![Report::Started, Report::PrivilegeMissing]);
    assert_eq!(machine.performed, vec![Action::CheckPrivilege]);
    assert_eq!(machine.removal_attempts(), 0);
    assert_eq!(machine.entries.len(), 7);
    assert_eq!(machine.directories.len(), 5);
}

#[test]
fn a_running_process_halts_the_run_before_the_scan() {
    let mut machine = installed_machine();
    machine.processes.push("steam.exe".to_string());
    let run = machine.run(RemovalPlan::standard());
    assert_eq!(run.stage(), Stage::PrivilegeChecked);
    assert_eq!(run.halt_reason(), Some(HaltReason::ProcessRunning));
    assert_eq!(
        run.log(),
        &vec![Report::Started, Report::PrivilegeGranted, Report::ProcessOpen]
    );
    assert_eq!(machine.performed, vec![Action::CheckPrivilege, Action::ListProcesses]);
    assert!(!machine.performed.contains(&Action::ScanPrograms));
    assert_eq!(machine.removal_attempts(), 0);
}

#[test]
fn a_missing_install_record_halts_the_run_before_any_removal() {
    let mut machine = installed_machine();
    machine.listing = vec![RootProbe::Unopened, RootProbe::Opened(Vec::new())];
    let run = machine.run(RemovalPlan::standard());
    assert_eq!(run.stage(), Stage::ProcessChecked);
    assert_eq!(run.halt_reason(), Some(HaltReason::InstallPathNotFound));
    assert_eq!(run.install_path(), None);
    assert_eq!(
        run.log(),
        &vec![
            Report::Started,
            Report::PrivilegeGranted,
            Report::ProcessClosed,
            Report::PathMissing
        ]
    );
    assert_eq!(machine.removal_attempts(), 0);
}

#[test]
fn an_install_record_without_the_marker_halts_the_run() {
    let mut machine = installed_machine();
    machine.listing = steam_listing("C:\\Steam\\setup.exe /remove");
    let run = machine.run(RemovalPlan::standard());
    assert_eq!(run.halt_reason(), Some(HaltReason::InstallPathNotFound));
    assert_eq!(machine.removal_attempts(), 0);
}

#[test]
fn a_second_run_succeeds_by_absence_alone() {
    let mut machine = installed_machine();
    let first = machine.run(RemovalPlan::standard());
    assert!(first.has_succeeded());
    assert_eq!(machine.destructive_actions(), 12);
    let second = machine.run(RemovalPlan::standard());
    assert!(second.has_succeeded());
    assert_eq!(second.log(), first.log());
    assert_eq!(machine.destructive_actions(), 0);
    assert_eq!(machine.removal_attempts(), 12);
}

#[test]
fn a_second_run_after_a_partly_installed_first_succeeds_too() {
    let mut machine = installed_machine();
    machine.entries.remove(1);
    machine.entries.remove(4);
    machine.directories.remove(0);
    let first = machine.run(RemovalPlan::standard());
    assert!(first.has_succeeded());
    assert_eq!(machine.destructive_actions(), 9);
    let second = machine.run(RemovalPlan::standard());
    assert!(second.has_succeeded());
    assert_eq!(machine.destructive_actions(), 0);
}

#[test]
fn a_failed_entry_deletion_halts_the_run_at_that_entry() {
    let mut machine = installed_machine();
    let plan = RemovalPlan::standard();
    machine.locked_entries.push(entry_key(&plan.entries[2]));
    let run = machine.run(plan);
    assert_eq!(run.stage(), Stage::PathResolved);
    assert_eq!(run.halt_reason(), Some(HaltReason::EntryRemoval(2)));
    assert_eq!(
        run.log(),
        &vec![
            Report::Started,
            Report::PrivilegeGranted,
            Report::ProcessClosed,
            Report::PathFound,
            Report::EntryDeleted(0),
            Report::EntryDeleted(1),
            Report::EntryFailed(2),
        ]
    );
    assert_eq!(
        machine.performed,
        vec![
            Action::CheckPrivilege,
            Action::ListProcesses,
            Action::ScanPrograms,
            Action::OpenEntry(0),
            Action::DeleteEntry(0),
            Action::OpenEntry(1),
            Action::DeleteEntry(1),
            Action::OpenEntry(2),
            Action::DeleteEntry(2),
        ]
    );
    assert_eq!(machine.entries.len(), 5);
    assert_eq!(machine.directories.len(), 5);
}

#[test]
fn a_failed_directory_removal_halts_the_run_at_that_directory() {
    let mut machine = installed_machine();
    machine.locked_directories.push(("C:\\Steam".to_string(), "userdata".to_string()));
    let run = machine.run(RemovalPlan::standard());
    assert_eq!(run.stage(), Stage::EntriesRemoved);
    assert_eq!(run.halt_reason(), Some(HaltReason::DirectoryRemoval(2)));
    assert_eq!(run.log().last(), Some(&Report::DirectoryFailed(2)));
    assert_eq!(run.log().len(), 4 + 7 + 2 + 1);
    assert!(!machine.performed.contains(&Action::ProbeDirectory(3)));
    assert!(!machine.performed.contains(&Action::ProbeDirectory(4)));
    assert_eq!(
        machine.directories,
        vec![
            ("C:\\Steam".to_string(), "userdata".to_string()),
            ("C:\\Steam".to_string(), "dumps".to_string()),
            ("C:\\Steam".to_string(), "config".to_string()),
        ]
    );
    assert!(machine.entries.is_empty());
}

#[test]
fn a_halted_run_ignores_every_event() {
    let halted = at_first_entry()
        .step(Event::Entry(EntryEvent::Opened(true)))
        .step(Event::Entry(EntryEvent::Deleted(false)));
    assert_eq!(halted.halt_reason(), Some(HaltReason::EntryRemoval(0)));
    let log = halted.log().clone();
    let events = vec![
        Event::Privilege(true),
        Event::Processes(Vec::new()),
        Event::Programs(steam_listing("C:\\Steam\\uninstall.exe")),
        Event::Entry(EntryEvent::Opened(false)),
        Event::Entry(EntryEvent::Opened(true)),
        Event::Entry(EntryEvent::Deleted(true)),
        Event::Directory(DirectoryEvent::Probed(false)),
        Event::Directory(DirectoryEvent::Removed(RemoveOutcome::Removed)),
    ];
    let mut run = halted;
    for event in events {
        run = run.step(event);
        assert_eq!(run.stage(), Stage::PathResolved);
        assert_eq!(run.halt_reason(), Some(HaltReason::EntryRemoval(0)));
        assert_eq!(run.pending(), Action::Finish);
        assert_eq!(run.log(), &log);
    }
}

#[test]
fn a_finished_run_ignores_every_event() {
    let mut machine = clean_machine();
    let done = machine.run(RemovalPlan::standard());
    let run = done
        .step(Event::Privilege(false))
        .step(Event::Entry(EntryEvent::Deleted(false)))
        .step(Event::Directory(DirectoryEvent::Removed(RemoveOutcome::Failed)));
    assert!(run.has_succeeded());
    assert_eq!(run.log(), &full_log());
}

#[test]
fn an_absent_entry_is_reported_gone_and_left_alone() {
    let run = at_first_entry();
    assert_eq!(run.pending(), Action::OpenEntry(0));
    let run = run.step(Event::Entry(EntryEvent::Opened(false)));
    assert_eq!(run.halt_reason(), None);
    assert_eq!(run.log().last(), Some(&Report::EntryDeleted(0)));
    assert_eq!(run.pending(), Action::OpenEntry(1));
}

#[test]
fn a_present_entry_is_deleted_after_the_look() {
    let run = at_first_entry().step(Event::Entry(EntryEvent::Opened(true)));
    assert_eq!(run.pending(), Action::DeleteEntry(0));
    assert_eq!(run.log().len(), 4);
    let run = run.step(Event::Entry(EntryEvent::Deleted(true)));
    assert_eq!(run.log().last(), Some(&Report::EntryDeleted(0)));
    assert_eq!(run.pending(), Action::OpenEntry(1));
}

#[test]
fn an_absent_directory_is_reported_gone_and_left_alone() {
    let run = at_first_directory();
    assert_eq!(run.stage(), Stage::EntriesRemoved);
    assert_eq!(run.pending(), Action::ProbeDirectory(0));
    let run = run.step(Event::Directory(DirectoryEvent::Probed(false)));
    assert_eq!(run.halt_reason(), None);
    assert_eq!(run.log().last(), Some(&Report::DirectoryDeleted(0)));
    assert_eq!(run.pending(), Action::ProbeDirectory(1));
}

#[test]
fn a_directory_that_vanishes_before_its_removal_is_reported_gone() {
    let run = at_first_directory().step(Event::Directory(DirectoryEvent::Probed(true)));
    assert_eq!(run.pending(), Action::RemoveDirectory(0));
    let run = run.step(Event::Directory(DirectoryEvent::Removed(RemoveOutcome::NotFound)));
    assert_eq!(run.halt_reason(), None);
    assert_eq!(run.log().last(), Some(&Report::DirectoryDeleted(0)));
    assert_eq!(run.pending(), Action::ProbeDirectory(1));
}

#[test]
fn an_entry_deletion_has_no_benign_failure() {
    let run = at_first_entry()
        .step(Event::Entry(EntryEvent::Opened(true)))
        .step(Event::Entry(EntryEvent::Deleted(false)));
    assert_eq!(run.halt_reason(), Some(HaltReason::EntryRemoval(0)));
    assert_eq!(run.log().last(), Some(&Report::EntryFailed(0)));
}

#[test]
fn events_that_answer_nothing_change_nothing() {
    let run = Workflow::new(RemovalPlan::standard());
    let run = run
        .step(Event::Processes(vec!["steam.exe".to_string()]))
        .step(Event::Programs(Vec::new()))
        .step(Event::Entry(EntryEvent::Deleted(false)))
        .step(Event::Directory(DirectoryEvent::Removed(RemoveOutcome::Failed)));
    assert_eq!(run.stage(), Stage::Start);
    assert_eq!(run.halt_reason(), None);
    assert_eq!(run.pending(), Action::CheckPrivilege);
    assert_eq!(run.log(), &vec![Report::Started]);
}

#[test]
fn a_deletion_report_before_the_look_is_ignored() {
    let run = at_first_entry();
    let run = run
        .step(Event::Entry(EntryEvent::Deleted(true)))
        .step(Event::Entry(EntryEvent::Deleted(false)))
        .step(Event::Directory(DirectoryEvent::Probed(false)));
    assert_eq!(run.pending(), Action::OpenEntry(0));
    assert_eq!(run.halt_reason(), None);
    assert_eq!(run.log().len(), 4);
    let run = run.step(Event::Entry(EntryEvent::Opened(true)));
    let run = run.step(Event::Entry(EntryEvent::Opened(false)));
    assert_eq!(run.pending(), Action::DeleteEntry(0));
    assert_eq!(run.log().len(), 4);
}

#[test]
fn a_removal_report_before_the_probe_is_ignored() {
    let run = at_first_directory();
    let run = run
        .step(Event::Directory(DirectoryEvent::Removed(RemoveOutcome::Failed)))
        .step(Event::Entry(EntryEvent::Opened(false)));
    assert_eq!(run.pending(), Action::ProbeDirectory(0));
    assert_eq!(run.halt_reason(), None);
    let run = run.step(Event::Directory(DirectoryEvent::Probed(true)));
    let run = run.step(Event::Directory(DirectoryEvent::Probed(false)));
    assert_eq!(run.pending(), Action::RemoveDirectory(0));
}

#[test]
fn targets_are_taken_in_the_order_of_the_plan() {
    let mut run = at_first_entry();
    for index in 0..7usize {
        assert_eq!(run.stage(), Stage::PathResolved);
        assert_eq!(run.pending(), Action::OpenEntry(index));
        run = run.step(Event::Entry(EntryEvent::Opened(true)));
        assert_eq!(run.pending(), Action::DeleteEntry(index));
        run = run.step(Event::Entry(EntryEvent::Deleted(true)));
    }
    for index in 0..5usize {
        assert_eq!(run.stage(), Stage::EntriesRemoved);
        assert_eq!(run.pending(), Action::ProbeDirectory(index));
        run = run.step(Event::Directory(DirectoryEvent::Probed(true)));
        assert_eq!(run.pending(), Action::RemoveDirectory(index));
        run = run.step(Event::Directory(DirectoryEvent::Removed(RemoveOutcome::Removed)));
    }
    assert_eq!(run.stage(), Stage::Done);
    assert_eq!(run.pending(), Action::Finish);
}

#[test]
fn targets_name_what_the_plan_names() {
    let run = at_first_directory();
    let plan = RemovalPlan::standard();
    for index in 0..7usize {
        assert_eq!(run.entry_target(index), Some(plan.entries[index].clone()));
    }
    assert_eq!(run.entry_target(7), None);
    for index in 0..5usize {
        assert_eq!(
            run.directory_target(index),
            Some(DirectoryTarget {
                root: "C:\\Steam".to_string(),
                name: plan.directories[index].clone(),
            })
        );
    }
    assert_eq!(run.directory_target(5), None);
}

#[test]
fn there_is_no_directory_target_before_the_path_is_resolved() {
    let run = Workflow::new(RemovalPlan::standard());
    assert_eq!(run.directory_target(0), None);
    assert_eq!(
        run.entry_target(6),
        Some(ConfigEntryTarget {
            root: StoreRoot::ClassesRoot,
            path: "steam".to_string(),
            label: "HKEY_CLASSES_ROOT".to_string(),
        })
    );
}

#[test]
fn the_install_path_stays_the_same_through_the_run() {
    let mut run = at_first_entry();
    assert_eq!(run.install_path(), Some("C:\\Steam".to_string()));
    run = run.step(Event::Programs(steam_listing("D:\\Other\\uninstall.exe")));
    assert_eq!(run.install_path(), Some("C:\\Steam".to_string()));
    for _ in 0..7usize {
        run = run.step(Event::Entry(EntryEvent::Opened(false)));
        run = run.step(Event::Programs(steam_listing("D:\\Other\\uninstall.exe")));
        assert_eq!(run.install_path(), Some("C:\\Steam".to_string()));
    }
    for index in 0..5usize {
        assert_eq!(run.directory_target(index).unwrap().root, "C:\\Steam");
        run = run.step(Event::Directory(DirectoryEvent::Probed(false)));
    }
    assert!(run.has_succeeded());
    assert_eq!(run.install_path(), Some("C:\\Steam".to_string()));
}

#[test]
fn a_plan_without_entries_goes_straight_to_the_directories() {
    let run = Workflow::new(small_plan(0, 2))
        .step(Event::Privilege(true))
        .step(Event::Processes(Vec::new()))
        .step(Event::Programs(steam_listing("C:\\Steam\\uninstall.exe")));
    assert_eq!(run.stage(), Stage::EntriesRemoved);
    assert_eq!(run.pending(), Action::ProbeDirectory(0));
    assert_eq!(run.log().len(), 4);
}

#[test]
fn a_plan_without_targets_is_done_once_the_path_is_found() {
    let run = Workflow::new(small_plan(0, 0))
        .step(Event::Privilege(true))
        .step(Event::Processes(Vec::new()))
        .step(Event::Programs(steam_listing("C:\\Steam\\uninstall.exe")));
    assert_eq!(run.stage(), Stage::Done);
    assert!(run.has_succeeded());
    assert_eq!(run.pending(), Action::Finish);
    assert_eq!(
        run.log(),
        &vec![Report::Started, Report::PrivilegeGranted, Report::ProcessClosed, Report::PathFound]
    );
}

#[test]
fn a_plan_without_directories_is_done_after_the_last_entry() {
    let run = Workflow::new(small_plan(1, 0))
        .step(Event::Privilege(true))
        .step(Event::Processes(Vec::new()))
        .step(Event::Programs(steam_listing("C:\\Steam\\uninstall.exe")));
    assert_eq!(run.pending(), Action::OpenEntry(0));
    let run = run.step(Event::Entry(EntryEvent::Opened(false)));
    assert_eq!(run.stage(), Stage::Done);
    assert!(run.has_succeeded());
}

#[test]
fn the_process_check_uses_the_name_of_the_plan() {
    let mut plan = RemovalPlan::standard();
    plan.process_executable = "other.exe".to_string();
    let run = Workflow::new(plan)
        .step(Event::Privilege(true))
        .step(Event::Processes(vec!["steam.exe".to_string()]));
    assert_eq!(run.stage(), Stage::ProcessChecked);
    let run = Workflow::new(RemovalPlan::standard())
        .step(Event::Privilege(true))
        .step(Event::Processes(vec!["Steam.exe".to_string()]));
    assert_eq!(run.stage(), Stage::ProcessChecked);
    assert_eq!(run.halt_reason(), None);
}
