//! The two removal policies: what to do about a target after each thing the
//! store or the file system reported about it.
//!
//! Both policies look before they delete. A target that is not there counts
//! as removed, and nothing is done to it. They differ in one point: a
//! directory that vanishes between the look and the removal still counts as
//! removed, while every failed deletion of a configuration entry is final.

use vstd::prelude::*;

verus! {

/// How an attempt to remove a directory tree ended.
#[derive(Clone, Copy, Debug, PartialEq, Eq, Structural)]
pub enum RemoveOutcome {
    /// The tree was removed.
    Removed,
    /// The removal failed because the directory was not found.
    NotFound,
    /// The removal failed for any other reason.
    Failed,
}

/// What the store reported about a configuration entry.
#[derive(Clone, Copy, Debug, PartialEq, Eq, Structural)]
pub enum EntryEvent {
    /// Whether opening the entry succeeded.
    Opened(bool),
    /// Whether deleting the entry, with all below it, succeeded.
    Deleted(bool),
}

/// What the file system reported about a directory.
#[derive(Clone, Copy, Debug, PartialEq, Eq, Structural)]
pub enum DirectoryEvent {
    /// Whether reading the directory's metadata succeeded.
    Probed(bool),
    /// How removing the directory tree ended.
    Removed(RemoveOutcome),
}

/// What becomes of a target.
#[derive(Clone, Copy, Debug, PartialEq, Eq, Structural)]
pub enum Decision {
    /// The target counts as removed; nothing more is done to it.
    Succeed,
    /// The target is there: delete it.
    Attempt,
    /// The target could not be removed.
    Fail,
}

/// The policy for configuration entries.
///
/// An entry that cannot be opened, for whatever reason, counts as absent
/// and so as removed. An entry that was opened is deleted. A deletion
/// succeeds only where the store says so.
pub open spec fn entry_policy(event: EntryEvent) -> Decision {
    match event {
        EntryEvent::Opened(false) => Decision::Succeed,
        EntryEvent::Opened(true) => Decision::Attempt,
        EntryEvent::Deleted(true) => Decision::Succeed,
        EntryEvent::Deleted(false) => Decision::Fail,
    }
}

/// The policy for directories.
///
/// A directory whose metadata cannot be read counts as absent and so as
/// removed. One whose metadata was read is removed. A removal succeeds
/// where the file system says so, and also where it fails because the
/// directory was not found.
pub open spec fn directory_policy(event: DirectoryEvent) -> Decision {
    match event {
        DirectoryEvent::Probed(false) => Decision::Succeed,
        DirectoryEvent::Probed(true) => Decision::Attempt,
        DirectoryEvent::Removed(RemoveOutcome::Removed) => Decision::Succeed,
        DirectoryEvent::Removed(RemoveOutcome::NotFound) => Decision::Succeed,
        DirectoryEvent::Removed(RemoveOutcome::Failed) => Decision::Fail,
    }
}

/// Decides what becomes of a configuration entry after `event`.
pub fn remove_config_entry(event: EntryEvent) -> (decision: Decision)
    ensures
        decision == entry_policy(event),
{
    match event {
        EntryEvent::Opened(opened) => {
            if opened {
                Decision::Attempt
            } else {
                Decision::Succeed
            }
        },
        EntryEvent::Deleted(deleted) => {
            if deleted {
                Decision::Succeed
            } else {
                Decision::Fail
            }
        },
    }
}

/// Decides what becomes of a directory after `event`.
pub fn remove_directory(event: DirectoryEvent) -> (decision: Decision)
    ensures
        decision == directory_policy(event),
{
    match event {
        DirectoryEvent::Probed(found) => {
            if found {
                Decision::Attempt
            } else {
                Decision::Succeed
            }
        },
        DirectoryEvent::Removed(outcome) => {
            match outcome {
                RemoveOutcome::Removed => Decision::Succeed,
                RemoveOutcome::NotFound => Decision::Succeed,
                RemoveOutcome::Failed => Decision::Fail,
            }
        },
    }
}

} // verus!
