//! Turning what a walk over the program listings found into program records.
//!
//! The walk itself belongs to the driver. It reports every step that failed
//! as such; which findings count as a record is decided here.

use vstd::prelude::*;

verus! {

/// An installed program, as its listing describes it.
#[derive(Clone, Debug, PartialEq, Eq)]
pub struct InstalledProgramRecord {
    pub display_name: String,
    pub uninstall_command: String,
}

/// What the walk found at one child key of a listing.
#[derive(Clone, Debug, PartialEq, Eq)]
pub enum KeyProbe {
    /// The store did not yield the child's name.
    Unlisted,
    /// The child could not be opened.
    Unopened,
    /// The child was opened. A field is `None` where reading it as a string
    /// failed.
    Opened { display_name: Option<String>, uninstall_command: Option<String> },
}

/// What the walk found at one listing.
#[derive(Clone, Debug, PartialEq, Eq)]
pub enum RootProbe {
    /// The listing could not be opened.
    Unopened,
    /// The listing was opened; its child keys in the store's order.
    Opened(Vec<KeyProbe>),
}

pub struct ProgramView {
    pub display_name: Seq<char>,
    pub uninstall_command: Seq<char>,
}

pub enum KeyProbeView {
    Unlisted,
    Unopened,
    Opened { display_name: Option<Seq<char>>, uninstall_command: Option<Seq<char>> },
}

pub enum RootProbeView {
    Unopened,
    Opened(Seq<KeyProbeView>),
}

/// The characters of an optional string.
pub open spec fn text_of(field: Option<String>) -> Option<Seq<char>> {
    match field {
        Some(s) => Some(s@),
        None => None,
    }
}

impl View for InstalledProgramRecord {
    type V = ProgramView;

    open spec fn view(&self) -> ProgramView {
        ProgramView {
            display_name: self.display_name@,
            uninstall_command: self.uninstall_command@,
        }
    }
}

impl View for KeyProbe {
    type V = KeyProbeView;

    open spec fn view(&self) -> KeyProbeView {
        match *self {
            KeyProbe::Unlisted => KeyProbeView::Unlisted,
            KeyProbe::Unopened => KeyProbeView::Unopened,
            KeyProbe::Opened { display_name, uninstall_command } => KeyProbeView::Opened {
                display_name: text_of(display_name),
                uninstall_command: text_of(uninstall_command),
            },
        }
    }
}

impl View for RootProbe {
    type V = RootProbeView;

    open spec fn view(&self) -> RootProbeView {
        match *self {
            RootProbe::Unopened => RootProbeView::Unopened,
            RootProbe::Opened(keys) => RootProbeView::Opened(key_views(keys@)),
        }
    }
}

pub open spec fn key_views(keys: Seq<KeyProbe>) -> Seq<KeyProbeView> {
    keys.map_values(|key: KeyProbe| key@)
}

pub open spec fn listing_views(listing: Seq<RootProbe>) -> Seq<RootProbeView> {
    listing.map_values(|root: RootProbe| root@)
}

pub open spec fn program_views(programs: Seq<InstalledProgramRecord>) -> Seq<ProgramView> {
    programs.map_values(|program: InstalledProgramRecord| program@)
}

/// The record that a child key stands for: one exists where the key was
/// opened and both of its fields were read.
pub open spec fn record_of(key: KeyProbeView) -> Option<ProgramView> {
    match key {
        KeyProbeView::Opened { display_name: Some(name), uninstall_command: Some(command) } => {
            Some(ProgramView { display_name: name, uninstall_command: command })
        },
        _ => None,
    }
}

/// The records among `keys`, in the order of `keys`; keys that stand for
/// none are left out.
pub open spec fn records_among(keys: Seq<KeyProbeView>) -> Seq<ProgramView> {
    keys.filter_map(|key: KeyProbeView| record_of(key))
}

/// The records of one listing: none where it could not be opened.
pub open spec fn records_under(root: RootProbeView) -> Seq<ProgramView> {
    match root {
        RootProbeView::Unopened => Seq::empty(),
        RootProbeView::Opened(keys) => records_among(keys),
    }
}

/// The records of all listings, one listing after the other.
pub open spec fn installed_programs(listing: Seq<RootProbeView>) -> Seq<ProgramView> {
    listing.map_values(|root: RootProbeView| records_under(root)).flatten()
}

/// Appending one key to `keys` appends its record, if it stands for one.
pub proof fn lemma_records_among_push(keys: Seq<KeyProbeView>, key: KeyProbeView)
    ensures
        records_among(keys.push(key)) == match record_of(key) {
            Some(record) => records_among(keys).push(record),
            None => records_among(keys),
        },
{
    let longer = keys.push(key);
    assert(longer.drop_last() =~= keys);
    assert(longer.last() == key);
    match record_of(key) {
        Some(record) => {
            assert(records_among(keys) + seq![record] =~= records_among(keys).push(record));
        },
        None => {},
    }
}

/// Appending one listing to `listing` appends its records.
pub proof fn lemma_installed_programs_push(listing: Seq<RootProbeView>, root: RootProbeView)
    ensures
        installed_programs(listing.push(root)) == installed_programs(listing) + records_under(
            root,
        ),
{
    let per_root = |r: RootProbeView| records_under(r);
    assert(listing.push(root).map_values(per_root) =~= listing.map_values(per_root).push(
        records_under(root),
    ));
    listing.map_values(per_root).lemma_flatten_push(records_under(root));
}

/// Appends to `programs` the records among `keys`, in order.
fn collect_records(keys: &Vec<KeyProbe>, programs: &mut Vec<InstalledProgramRecord>)
    ensures
        program_views(final(programs)@) == program_views(old(programs)@) + records_among(
            key_views(keys@),
        ),
{
    let ghost before = program_views(programs@);
    let mut k: usize = 0;
    assert(key_views(keys@).take(0) =~= Seq::empty());
    assert(before + records_among(Seq::empty()) =~= before);
    while k < keys.len()
        invariant
            k <= keys.len(),
            program_views(programs@) == before + records_among(key_views(keys@).take(k as int)),
        decreases keys.len() - k,
    {
        let ghost seen = key_views(keys@).take(k as int);
        let ghost held = program_views(programs@);
        proof {
            assert(key_views(keys@).take(k + 1) =~= seen.push(keys@[k as int]@));
            lemma_records_among_push(seen, keys@[k as int]@);
        }
        match &keys[k] {
            KeyProbe::Opened { display_name: Some(name), uninstall_command: Some(command) } => {
                let record = InstalledProgramRecord {
                    display_name: name.clone(),
                    uninstall_command: command.clone(),
                };
                programs.push(record);
                assert(program_views(programs@) =~= held.push(record@));
                assert(before + records_among(seen).push(record@) =~= held.push(record@));
            },
            _ => {},
        }
        k += 1;
    }
    assert(key_views(keys@).take(keys.len() as int) =~= key_views(keys@));
}

/// The installed programs that a walk over the listings found.
///
/// A listing that could not be opened contributes nothing. A child key
/// contributes a record where it was opened and both its display name and
/// its uninstall command were read, and nothing otherwise. Records keep the
/// order of the walk, and equal records are all kept.
pub fn scan_installed_programs(listing: &Vec<RootProbe>) -> (programs: Vec<InstalledProgramRecord>)
    ensures
        program_views(programs@) == installed_programs(listing_views(listing@)),
{
    let mut programs: Vec<InstalledProgramRecord> = Vec::new();
    let mut r: usize = 0;
    assert(listing_views(listing@).take(0) =~= Seq::empty());
    assert(program_views(programs@) =~= Seq::empty());
    assert(installed_programs(Seq::empty()) =~= Seq::empty());
    while r < listing.len()
        invariant
            r <= listing.len(),
            program_views(programs@) == installed_programs(
                listing_views(listing@).take(r as int),
            ),
        decreases listing.len() - r,
    {
        let ghost seen = listing_views(listing@).take(r as int);
        proof {
            assert(listing_views(listing@).take(r + 1) =~= seen.push(listing@[r as int]@));
            lemma_installed_programs_push(seen, listing@[r as int]@);
        }
        match &listing[r] {
            RootProbe::Unopened => {
                assert(installed_programs(seen) + Seq::<ProgramView>::empty() =~= installed_programs(
                    seen,
                ));
            },
            RootProbe::Opened(keys) => {
                collect_records(keys, &mut programs);
            },
        }
        r += 1;
    }
    assert(listing_views(listing@).take(listing.len() as int) =~= listing_views(listing@));
    programs
}

} // verus!
