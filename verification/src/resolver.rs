//! Deriving the install path from the application's program record.
//!
//! Nothing here looks at the file system: the path is cut out of the
//! uninstall command and may name a directory that no longer exists.

use vstd::prelude::*;
use crate::scanner::{program_views, text_of, InstalledProgramRecord, ProgramView};
use crate::text::{prefix_before, split_before};

verus! {

/// The record at index `at` is named `name` and none before it is.
pub open spec fn is_first_named(records: Seq<ProgramView>, name: Seq<char>, at: int) -> bool {
    &&& 0 <= at < records.len()
    &&& records[at].display_name == name
    &&& forall|earlier: int| 0 <= earlier < at ==> records[earlier].display_name != name
}

/// Some record is named `name`.
pub open spec fn has_named(records: Seq<ProgramView>, name: Seq<char>) -> bool {
    exists|at: int| 0 <= at < records.len() && #[trigger] records[at].display_name == name
}

/// Index of the first record named `name`; meaningful only where
/// `has_named` holds.
pub open spec fn first_named(records: Seq<ProgramView>, name: Seq<char>) -> int {
    choose|at: int| is_first_named(records, name, at)
}

/// The install path that `records` give for the program `name`: what
/// precedes `marker` in the uninstall command of the first record with that
/// name. There is none where no record has the name, or where that first
/// record's command does not hold `marker`.
pub open spec fn resolved_path(records: Seq<ProgramView>, name: Seq<char>, marker: Seq<char>)
    -> Option<Seq<char>> {
    if has_named(records, name) {
        prefix_before(records[first_named(records, name)].uninstall_command, marker)
    } else {
        None
    }
}

/// A first record of a name is the only first record of that name.
pub proof fn lemma_first_named_unique(records: Seq<ProgramView>, name: Seq<char>, at: int)
    requires
        is_first_named(records, name, at),
    ensures
        has_named(records, name),
        first_named(records, name) == at,
{
    let chosen = first_named(records, name);
    assert(is_first_named(records, name, chosen));
}

/// Index of the first record whose display name is exactly `name`.
pub fn find_program(records: &Vec<InstalledProgramRecord>, name: &str) -> (at: Option<usize>)
    ensures
        match at {
            Some(i) => is_first_named(program_views(records@), name@, i as int),
            None => !has_named(program_views(records@), name@),
        },
{
    let wanted: String = name.to_owned();
    let mut i: usize = 0;
    while i < records.len()
        invariant
            i <= records.len(),
            wanted@ == name@,
            forall|earlier: int|
                0 <= earlier < i ==> program_views(records@)[earlier].display_name != name@,
        decreases records.len() - i,
    {
        if records[i].display_name == wanted {
            return Some(i);
        }
        i += 1;
    }
    None
}

/// The application's install path, read off the program records.
///
/// Only the first record whose display name is exactly `program_name`
/// counts. The path is what precedes the first occurrence of `marker` in
/// that record's uninstall command.
pub fn resolve_install_path(
    records: &Vec<InstalledProgramRecord>,
    program_name: &str,
    marker: &str,
) -> (path: Option<String>)
    ensures
        text_of(path) == resolved_path(program_views(records@), program_name@, marker@),
{
    match find_program(records, program_name) {
        Some(at) => {
            proof {
                lemma_first_named_unique(program_views(records@), program_name@, at as int);
            }
            split_before(records[at].uninstall_command.as_str(), marker)
        },
        None => None,
    }
}

} // verus!
