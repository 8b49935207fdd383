//! The inventory of one volume: the files found by a walk, in discovery order.

use vstd::prelude::*;
use vstd::string::*;

verus! {

/// What the contracts say of one recorded file: its absolute path and its
/// length in bytes.
pub ghost struct EntryModel {
    pub path: Seq<char>,
    pub size: nat,
}

/// One regular file found by a walk.
#[derive(Debug)]
pub struct FileEntry {
    pub path: String,
    pub size: u64,
}

impl FileEntry {
    /// A copy of the entry.
    pub fn duplicate(&self) -> (copy: FileEntry)
        ensures
            copy@ == self@,
    {
        FileEntry { path: self.path.clone(), size: self.size }
    }
}

impl View for FileEntry {
    type V = EntryModel;

    open spec fn view(&self) -> EntryModel {
        EntryModel { path: self.path@, size: self.size as nat }
    }
}

/// The files recorded for one volume, oldest first. Entries are only ever
/// appended.
pub struct FileList {
    pub entries: Vec<FileEntry>,
}

impl View for FileList {
    type V = Seq<EntryModel>;

    open spec fn view(&self) -> Seq<EntryModel> {
        Seq::new(self.entries@.len(), |i: int| self.entries@[i]@)
    }
}

impl FileList {
    /// An inventory with no entries.
    pub fn new() -> (list: FileList)
        ensures
            list@ == Seq::<EntryModel>::empty(),
    {
        FileList { entries: Vec::new() }
    }

    /// Appends one entry; the entries recorded before keep their places.
    pub fn add(&mut self, path: &str, size: u64)
        ensures
            final(self)@ == old(self)@.push(EntryModel { path: path@, size: size as nat }),
    {
        self.entries.push(FileEntry { path: String::from_str(path), size });
    }
}

} // verus!
