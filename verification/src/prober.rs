//! Questions about the machine that a run asks before it removes anything.

use vstd::prelude::*;

verus! {

/// The characters of each name.
pub open spec fn name_views(names: Seq<String>) -> Seq<Seq<char>> {
    names.map_values(|name: String| name@)
}

/// Whether a process named exactly `executable` is among `names`, the
/// executable names of a snapshot of the process table. Case matters.
pub fn is_target_process_running(names: &Vec<String>, executable: &str) -> (running: bool)
    ensures
        running == name_views(names@).contains(executable@),
{
    let wanted: String = executable.to_owned();
    let mut i: usize = 0;
    while i < names.len()
        invariant
            i <= names.len(),
            wanted@ == executable@,
            forall|j: int| 0 <= j < i ==> name_views(names@)[j] != executable@,
        decreases names.len() - i,
    {
        if names[i] == wanted {
            assert(name_views(names@)[i as int] == executable@);
            return true;
        }
        i += 1;
    }
    false
}

} // verus!
