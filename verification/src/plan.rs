//! The fixed inputs of a run: what to look for and what to remove.
//!
//! A plan is built once, handed to the workflow and never changed again.

use vstd::prelude::*;

verus! {

/// One of the well-known roots of the configuration store.
#[derive(Clone, Copy, Debug, PartialEq, Eq, Structural)]
pub enum StoreRoot {
    CurrentUser,
    LocalMachine,
    ClassesRoot,
}

/// An entry of the configuration store that a run deletes.
#[derive(Clone, Debug, PartialEq, Eq)]
pub struct ConfigEntryTarget {
    /// The root under which the entry lives.
    pub root: StoreRoot,
    /// The entry's path below that root.
    pub path: String,
    /// The root's name as shown to the user.
    pub label: String,
}

/// A place of the configuration store where installed programs are listed.
#[derive(Clone, Debug, PartialEq, Eq)]
pub struct SearchRoot {
    pub root: StoreRoot,
    pub path: String,
}

/// A subdirectory to remove, named relative to the directory it lies in.
#[derive(Clone, Debug, PartialEq, Eq)]
pub struct DirectoryTarget {
    /// The resolved install path.
    pub root: String,
    /// The subdirectory's name below `root`.
    pub name: String,
}

/// Everything a run is configured with.
#[derive(Clone, Debug, PartialEq, Eq)]
pub struct RemovalPlan {
    /// Executable name of the process that must not be running.
    pub process_executable: String,
    /// Display name under which the application is registered.
    pub program_name: String,
    /// What follows the install path in the application's uninstall command.
    pub uninstaller_marker: String,
    /// Where installed programs are listed.
    pub search_roots: Vec<SearchRoot>,
    /// Configuration entries to delete, in this order.
    pub entries: Vec<ConfigEntryTarget>,
    /// Subdirectories of the install path to remove, in this order.
    pub directories: Vec<String>,
}

pub struct EntryTargetView {
    pub root: StoreRoot,
    pub path: Seq<char>,
    pub label: Seq<char>,
}

pub struct SearchRootView {
    pub root: StoreRoot,
    pub path: Seq<char>,
}

pub struct DirectoryTargetView {
    pub root: Seq<char>,
    pub name: Seq<char>,
}

pub struct PlanView {
    pub process_executable: Seq<char>,
    pub program_name: Seq<char>,
    pub uninstaller_marker: Seq<char>,
    pub search_roots: Seq<SearchRootView>,
    pub entries: Seq<EntryTargetView>,
    pub directories: Seq<Seq<char>>,
}

impl View for ConfigEntryTarget {
    type V = EntryTargetView;

    open spec fn view(&self) -> EntryTargetView {
        EntryTargetView { root: self.root, path: self.path@, label: self.label@ }
    }
}

impl View for SearchRoot {
    type V = SearchRootView;

    open spec fn view(&self) -> SearchRootView {
        SearchRootView { root: self.root, path: self.path@ }
    }
}

impl View for DirectoryTarget {
    type V = DirectoryTargetView;

    open spec fn view(&self) -> DirectoryTargetView {
        DirectoryTargetView { root: self.root@, name: self.name@ }
    }
}

impl View for RemovalPlan {
    type V = PlanView;

    open spec fn view(&self) -> PlanView {
        PlanView {
            process_executable: self.process_executable@,
            program_name: self.program_name@,
            uninstaller_marker: self.uninstaller_marker@,
            search_roots: self.search_roots@.map_values(|r: SearchRoot| r@),
            entries: self.entries@.map_values(|e: ConfigEntryTarget| e@),
            directories: self.directories@.map_values(|d: String| d@),
        }
    }
}

impl StoreRoot {
    /// The name under which the store itself knows this root.
    pub open spec fn spec_label(self) -> Seq<char> {
        match self {
            StoreRoot::CurrentUser => "HKEY_CURRENT_USER"@,
            StoreRoot::LocalMachine => "HKEY_LOCAL_MACHINE"@,
            StoreRoot::ClassesRoot => "HKEY_CLASSES_ROOT"@,
        }
    }

    /// The name under which the store itself knows this root.
    pub fn label(self) -> (name: String)
        ensures
            name@ == self.spec_label(),
    {
        match self {
            StoreRoot::CurrentUser => "HKEY_CURRENT_USER".to_owned(),
            StoreRoot::LocalMachine => "HKEY_LOCAL_MACHINE".to_owned(),
            StoreRoot::ClassesRoot => "HKEY_CLASSES_ROOT".to_owned(),
        }
    }
}

impl ConfigEntryTarget {
    /// The entry at `path` under `root`, labelled with the root's own name.
    pub fn new(root: StoreRoot, path: &str) -> (target: ConfigEntryTarget)
        ensures
            target@ == entry_under(root, path@),
    {
        ConfigEntryTarget { root, path: path.to_owned(), label: root.label() }
    }

    /// The entry's name as shown to the user: the root's label, a
    /// backslash, and the path below the root.
    pub fn full_name(&self) -> (name: String)
        ensures
            name@ == self@.label + seq!['\\'] + self@.path,
    {
        let mut name = self.label.clone();
        proof {
            reveal_strlit("\\");
            assert("\\"@ =~= seq!['\\']);
        }
        name.append("\\");
        name.append(self.path.as_str());
        name
    }

    /// A copy of this target.
    pub fn duplicate(&self) -> (copy: ConfigEntryTarget)
        ensures
            copy@ == self@,
    {
        ConfigEntryTarget { root: self.root, path: self.path.clone(), label: self.label.clone() }
    }
}

impl SearchRoot {
    /// The listing at `path` under `root`.
    pub fn new(root: StoreRoot, path: &str) -> (place: SearchRoot)
        ensures
            place@ == (SearchRootView { root, path: path@ }),
    {
        SearchRoot { root, path: path.to_owned() }
    }
}

/// The entry at `path` under `root`, labelled with the root's own name.
pub open spec fn entry_under(root: StoreRoot, path: Seq<char>) -> EntryTargetView {
    EntryTargetView { root, path, label: root.spec_label() }
}

/// The seven configuration entries that the standard plan deletes.
pub open spec fn standard_entries() -> Seq<EntryTargetView> {
    seq![
        entry_under(StoreRoot::CurrentUser, "Software\\Valve"@),
        entry_under(StoreRoot::CurrentUser, "Software\\Wow6432Node\\Valve"@),
        entry_under(StoreRoot::CurrentUser, "Software\\Classes\\steam"@),
        entry_under(StoreRoot::LocalMachine, "Software\\Valve"@),
        entry_under(StoreRoot::LocalMachine, "Software\\Wow6432Node\\Valve"@),
        entry_under(StoreRoot::LocalMachine, "Software\\Classes\\steam"@),
        entry_under(StoreRoot::ClassesRoot, "steam"@),
    ]
}

/// The two listings of installed programs that the standard plan scans.
pub open spec fn standard_search_roots() -> Seq<SearchRootView> {
    seq![
        SearchRootView {
            root: StoreRoot::LocalMachine,
            path: "Software\\Microsoft\\Windows\\CurrentVersion\\Uninstall"@,
        },
        SearchRootView {
            root: StoreRoot::LocalMachine,
            path: "Software\\Wow6432Node\\Microsoft\\Windows\\CurrentVersion\\Uninstall"@,
        },
    ]
}

/// The five subdirectories that the standard plan removes.
pub open spec fn standard_directories() -> Seq<Seq<char>> {
    seq!["appcache"@, "logs"@, "userdata"@, "dumps"@, "config"@]
}

/// The plan for removing Steam's persistent state.
pub open spec fn standard_plan() -> PlanView {
    PlanView {
        process_executable: "steam.exe"@,
        program_name: "Steam"@,
        uninstaller_marker: "\\uninstall.exe"@,
        search_roots: standard_search_roots(),
        entries: standard_entries(),
        directories: standard_directories(),
    }
}

impl RemovalPlan {
    /// The plan for removing Steam's persistent state: the same lists on
    /// every call.
    pub fn standard() -> (plan: RemovalPlan)
        ensures
            plan@ == standard_plan(),
    {
        let mut search_roots: Vec<SearchRoot> = Vec::new();
        search_roots.push(
            SearchRoot::new(
                StoreRoot::LocalMachine,
                "Software\\Microsoft\\Windows\\CurrentVersion\\Uninstall",
            ),
        );
        search_roots.push(
            SearchRoot::new(
                StoreRoot::LocalMachine,
                "Software\\Wow6432Node\\Microsoft\\Windows\\CurrentVersion\\Uninstall",
            ),
        );

        let mut entries: Vec<ConfigEntryTarget> = Vec::new();
        entries.push(ConfigEntryTarget::new(StoreRoot::CurrentUser, "Software\\Valve"));
        entries.push(ConfigEntryTarget::new(StoreRoot::CurrentUser, "Software\\Wow6432Node\\Valve"));
        entries.push(ConfigEntryTarget::new(StoreRoot::CurrentUser, "Software\\Classes\\steam"));
        entries.push(ConfigEntryTarget::new(StoreRoot::LocalMachine, "Software\\Valve"));
        entries.push(ConfigEntryTarget::new(StoreRoot::LocalMachine, "Software\\Wow6432Node\\Valve"));
        entries.push(ConfigEntryTarget::new(StoreRoot::LocalMachine, "Software\\Classes\\steam"));
        entries.push(ConfigEntryTarget::new(StoreRoot::ClassesRoot, "steam"));

        let mut directories: Vec<String> = Vec::new();
        directories.push("appcache".to_owned());
        directories.push("logs".to_owned());
        directories.push("userdata".to_owned());
        directories.push("dumps".to_owned());
        directories.push("config".to_owned());

        let plan = RemovalPlan {
            process_executable: "steam.exe".to_owned(),
            program_name: "Steam".to_owned(),
            uninstaller_marker: "\\uninstall.exe".to_owned(),
            search_roots,
            entries,
            directories,
        };
        assert(plan@.search_roots =~= standard_search_roots());
        assert(plan@.entries =~= standard_entries());
        assert(plan@.directories =~= standard_directories());
        plan
    }
}

} // verus!
