//! The attribute word of a directory entry, and the filter that decides from
//! it whether a file is recorded.

use vstd::prelude::*;
use windows_sys::Win32::Storage::FileSystem::{
    FILE_ATTRIBUTE_DIRECTORY, FILE_ATTRIBUTE_HIDDEN, FILE_ATTRIBUTE_REPARSE_POINT,
    FILE_ATTRIBUTE_SYSTEM, FILE_ATTRIBUTE_TEMPORARY,
};

verus! {

/// Whether the hidden bit is set in an attribute word.
pub open spec fn is_hidden(attributes: u32) -> bool {
    attributes & 0x2 != 0
}

/// Whether the system bit is set in an attribute word.
pub open spec fn is_system(attributes: u32) -> bool {
    attributes & 0x4 != 0
}

/// Whether the directory bit is set in an attribute word.
pub open spec fn is_directory(attributes: u32) -> bool {
    attributes & 0x10 != 0
}

/// Whether the temporary bit is set in an attribute word.
pub open spec fn is_temporary(attributes: u32) -> bool {
    attributes & 0x100 != 0
}

/// Whether the reparse point bit is set in an attribute word: the entry is a
/// symbolic link, a junction or a mount point.
pub open spec fn is_reparse_point(attributes: u32) -> bool {
    attributes & 0x400 != 0
}

/// `windows_sys::Win32::Storage::FileSystem::FILE_ATTRIBUTE_HIDDEN`.
/// Trusted: the constant is the single bit 0x2.
#[verifier::external_body]
pub(crate) fn hidden_bit() -> (bit: u32)
    ensures
        bit == 0x2,
{
    FILE_ATTRIBUTE_HIDDEN
}

/// `windows_sys::Win32::Storage::FileSystem::FILE_ATTRIBUTE_SYSTEM`.
/// Trusted: the constant is the single bit 0x4.
#[verifier::external_body]
pub(crate) fn system_bit() -> (bit: u32)
    ensures
        bit == 0x4,
{
    FILE_ATTRIBUTE_SYSTEM
}

/// `windows_sys::Win32::Storage::FileSystem::FILE_ATTRIBUTE_DIRECTORY`.
/// Trusted: the constant is the single bit 0x10.
#[verifier::external_body]
pub(crate) fn directory_bit() -> (bit: u32)
    ensures
        bit == 0x10,
{
    FILE_ATTRIBUTE_DIRECTORY
}

/// `windows_sys::Win32::Storage::FileSystem::FILE_ATTRIBUTE_TEMPORARY`.
/// Trusted: the constant is the single bit 0x100.
#[verifier::external_body]
pub(crate) fn temporary_bit() -> (bit: u32)
    ensures
        bit == 0x100,
{
    FILE_ATTRIBUTE_TEMPORARY
}

/// `windows_sys::Win32::Storage::FileSystem::FILE_ATTRIBUTE_REPARSE_POINT`.
/// Trusted: the constant is the single bit 0x400.
#[verifier::external_body]
pub(crate) fn reparse_point_bit() -> (bit: u32)
    ensures
        bit == 0x400,
{
    FILE_ATTRIBUTE_REPARSE_POINT
}

/// Tells whether an entry is a directory.
pub fn has_directory_flag(attributes: u32) -> (flag: bool)
    ensures
        flag == is_directory(attributes),
{
    attributes & directory_bit() != 0
}

/// Tells whether an entry redirects the traversal elsewhere.
pub fn has_reparse_point_flag(attributes: u32) -> (flag: bool)
    ensures
        flag == is_reparse_point(attributes),
{
    attributes & reparse_point_bit() != 0
}

/// The filter's decision on one attribute word.
#[derive(Debug, Clone, Copy, PartialEq, Eq, Structural)]
pub enum FilterOutcome {
    Included,
    ExcludedHidden,
    ExcludedSystem,
    ExcludedTemporary,
    ExcludedReparsePoint,
}

/// The decision for an attribute word. Where several of the four flags are
/// set, the reason given is the first of system, hidden, temporary, reparse
/// point.
pub open spec fn outcome_of(attributes: u32) -> FilterOutcome {
    if is_system(attributes) {
        FilterOutcome::ExcludedSystem
    } else if is_hidden(attributes) {
        FilterOutcome::ExcludedHidden
    } else if is_temporary(attributes) {
        FilterOutcome::ExcludedTemporary
    } else if is_reparse_point(attributes) {
        FilterOutcome::ExcludedReparsePoint
    } else {
        FilterOutcome::Included
    }
}

/// Applies the attribute filter: an entry is included exactly when it carries
/// none of the system, hidden, temporary and reparse point flags.
pub fn filter_outcome(attributes: u32) -> (outcome: FilterOutcome)
    ensures
        outcome == outcome_of(attributes),
        outcome == FilterOutcome::Included <==> !is_system(attributes) && !is_hidden(attributes)
            && !is_temporary(attributes) && !is_reparse_point(attributes),
{
    if attributes & system_bit() != 0 {
        FilterOutcome::ExcludedSystem
    } else if attributes & hidden_bit() != 0 {
        FilterOutcome::ExcludedHidden
    } else if attributes & temporary_bit() != 0 {
        FilterOutcome::ExcludedTemporary
    } else if attributes & reparse_point_bit() != 0 {
        FilterOutcome::ExcludedReparsePoint
    } else {
        FilterOutcome::Included
    }
}

/// The 64-bit length of a file from the two 32-bit halves in which the file
/// system reports it.
pub open spec fn size_of_halves(high: u32, low: u32) -> nat {
    (high as nat) * 0x1_0000_0000 + (low as nat)
}

/// Assembles a file's length from its high and low halves.
pub fn file_size(high: u32, low: u32) -> (size: u64)
    ensures
        size as nat == size_of_halves(high, low),
{
    let size: u64 = ((high as u64) << 32) | (low as u64);
    assert(((high as u64) << 32) | (low as u64) == (high as u64) * 0x1_0000_0000 + (low as u64))
        by (bit_vector);
    size
}

} // verus!
