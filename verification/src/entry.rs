//! The entries of a directory listing, and what the walk does with each.

use vstd::prelude::*;
use crate::attributes::{
    file_size, filter_outcome, has_directory_flag, has_reparse_point_flag, is_directory,
    is_reparse_point, outcome_of, size_of_halves, FilterOutcome,
};
use crate::path::{entry_name, is_dot_entry, is_dot_name, name_in};

verus! {

/// What the contracts say of one entry of a directory listing.
pub ghost struct EntryFacts {
    pub name: Seq<char>,
    pub attributes: u32,
    pub size: nat,
}

/// One entry of a directory listing, as the file system reports it.
#[derive(Debug)]
pub struct DirEntry {
    pub name: String,
    pub attributes: u32,
    pub size: u64,
}

impl View for DirEntry {
    type V = EntryFacts;

    open spec fn view(&self) -> EntryFacts {
        EntryFacts { name: self.name@, attributes: self.attributes, size: self.size as nat }
    }
}

impl DirEntry {
    /// Makes an entry from the fields of a find record: the attribute word,
    /// the two halves of the length, and the zero-terminated name buffer.
    pub fn from_raw(attributes: u32, size_high: u32, size_low: u32, raw_name: &[u8]) -> (entry:
        DirEntry)
        ensures
            entry@ == (EntryFacts {
                name: name_in(raw_name@),
                attributes,
                size: size_of_halves(size_high, size_low),
            }),
    {
        DirEntry { name: entry_name(raw_name), attributes, size: file_size(size_high, size_low) }
    }

    /// A copy of the entry.
    pub fn duplicate(&self) -> (copy: DirEntry)
        ensures
            copy@ == self@,
    {
        DirEntry { name: self.name.clone(), attributes: self.attributes, size: self.size }
    }
}

/// What the walk does with one entry.
#[derive(Debug, Clone, Copy, PartialEq, Eq, Structural)]
pub enum EntryAction {
    /// Neither recorded nor descended into.
    Ignore,
    /// A regular file that passes the filter: recorded.
    Record,
    /// A directory to be listed in its turn.
    Descend,
}

/// The action for an entry. `.` and `..` are ignored. A directory is
/// descended into unless it is a reparse point, whatever its other flags. A
/// file is recorded when the filter includes it.
pub open spec fn action_of(facts: EntryFacts) -> EntryAction {
    if is_dot_name(facts.name) {
        EntryAction::Ignore
    } else if is_directory(facts.attributes) {
        if is_reparse_point(facts.attributes) {
            EntryAction::Ignore
        } else {
            EntryAction::Descend
        }
    } else if outcome_of(facts.attributes) == FilterOutcome::Included {
        EntryAction::Record
    } else {
        EntryAction::Ignore
    }
}

/// Decides what the walk does with an entry.
pub fn entry_action(entry: &DirEntry) -> (action: EntryAction)
    ensures
        action == action_of(entry@),
        is_reparse_point(entry.attributes) ==> action == EntryAction::Ignore,
        action == EntryAction::Record ==> outcome_of(entry.attributes) == FilterOutcome::Included,
{
    if is_dot_entry(entry.name.as_str()) {
        EntryAction::Ignore
    } else if has_directory_flag(entry.attributes) {
        if has_reparse_point_flag(entry.attributes) {
            EntryAction::Ignore
        } else {
            EntryAction::Descend
        }
    } else {
        match filter_outcome(entry.attributes) {
            FilterOutcome::Included => EntryAction::Record,
            _ => EntryAction::Ignore,
        }
    }
}

} // verus!
