//! The result of scanning one volume.

use vstd::prelude::*;
use crate::inventory::{FileEntry, FileList};
use crate::ranker::{models_of, rank_largest, top_ranked, TOP_COUNT};

verus! {

/// The milliseconds from one reading of a 32-bit millisecond counter to a
/// later one; the counter may have wrapped round once in between.
pub open spec fn elapsed_between(started: u32, finished: u32) -> int {
    if finished >= started {
        finished - started
    } else {
        finished - started + 0x1_0000_0000
    }
}

/// The milliseconds between two readings of a 32-bit millisecond counter.
pub fn elapsed_ms(started: u32, finished: u32) -> (elapsed: u32)
    ensures
        elapsed == elapsed_between(started, finished),
{
    finished.wrapping_sub(started)
}

/// What one walk of one volume gave: the volume's root, its inventory, and
/// how long the walk took.
pub struct VolumeScanResult {
    pub label: String,
    pub entries: FileList,
    pub elapsed_ms: u32,
}

impl VolumeScanResult {
    /// The result of a walk that started and finished at the two readings of
    /// the millisecond counter.
    pub fn new(label: String, entries: FileList, started: u32, finished: u32) -> (result:
        VolumeScanResult)
        ensures
            result.label@ == label@,
            result.entries@ == entries@,
            result.elapsed_ms == elapsed_between(started, finished),
    {
        VolumeScanResult { label, entries, elapsed_ms: elapsed_ms(started, finished) }
    }

    /// The number of files found on the volume.
    pub fn file_count(&self) -> (count: usize)
        ensures
            count == self.entries@.len(),
    {
        self.entries.entries.len()
    }

    /// The volume's ranked entries: its `TOP_COUNT` largest files, largest
    /// first.
    pub fn ranked(&self) -> (ranked: Vec<FileEntry>)
        ensures
            models_of(ranked@) == top_ranked(self.entries@, TOP_COUNT as int),
            ranked@.len() == if self.entries@.len() <= TOP_COUNT {
                self.entries@.len()
            } else {
                TOP_COUNT as nat
            },
            forall|j: int, k: int|
                0 <= j < k < ranked@.len() ==> ranked@[j].size >= ranked@[k].size,
    {
        rank_largest(&self.entries)
    }
}

} // verus!
