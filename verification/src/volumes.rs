//! The volumes of a machine: which drive letters are scanned.

use vstd::prelude::*;
use crate::text::push_char;

verus! {

/// The drive type of a removable volume.
pub const DRIVE_REMOVABLE: u32 = 2;

/// The drive type of a fixed local volume.
pub const DRIVE_FIXED: u32 = 3;

/// The number of drive letters, `A` to `Z`.
pub const LETTER_COUNT: u8 = 26;

/// Whether a volume of this drive type is scanned: local fixed and local
/// removable volumes are, network shares, optical media, RAM disks and slots
/// without a volume are not.
pub open spec fn is_scannable_type(drive_type: u32) -> bool {
    drive_type == DRIVE_FIXED || drive_type == DRIVE_REMOVABLE
}

/// Whether the mask of logical drives names the letter with this index.
pub open spec fn is_present(mask: u32, index: int) -> bool {
    0 <= index < 26 && mask & (1u32 << (index as u32)) != 0
}

/// The drive letter with this index: `A` for 0, `Z` for 25.
pub open spec fn letter_of(index: int) -> char {
    (65 + index) as char
}

/// The root of the volume with this index, such as `C:\`.
pub open spec fn root_of(index: int) -> Seq<char> {
    seq![letter_of(index), ':', '\\']
}

/// Whether the letter with this index is scanned: the mask names it and its
/// drive type, `drive_types[index]`, is a scannable one.
pub open spec fn is_selected(mask: u32, drive_types: Seq<u32>, index: int) -> bool {
    is_present(mask, index) && index < drive_types.len() && is_scannable_type(drive_types[index])
}

/// The root of the letter with this index where the letter is scanned.
pub open spec fn selected_root(mask: u32, drive_types: Seq<u32>, index: int) -> Option<Seq<char>> {
    if is_selected(mask, drive_types, index) {
        Some(root_of(index))
    } else {
        None
    }
}

/// The indices of the letters, in the order of the alphabet.
pub open spec fn letters() -> Seq<int> {
    Seq::new(26, |index: int| index)
}

/// The roots of the scanned volumes, in the order of the alphabet.
pub open spec fn scanned_roots(mask: u32, drive_types: Seq<u32>) -> Seq<Seq<char>> {
    letters().filter_map(|index: int| selected_root(mask, drive_types, index))
}

/// The views of a vector of strings.
pub open spec fn texts_of(strings: Seq<String>) -> Seq<Seq<char>> {
    Seq::new(strings.len(), |k: int| strings[k]@)
}

/// Tells whether a volume of this drive type is scanned.
pub fn is_scannable(drive_type: u32) -> (scannable: bool)
    ensures
        scannable == is_scannable_type(drive_type),
{
    drive_type == DRIVE_FIXED || drive_type == DRIVE_REMOVABLE
}

/// Tells whether the mask of logical drives names the letter with this index.
pub fn is_drive_present(mask: u32, index: u8) -> (present: bool)
    ensures
        present == is_present(mask, index as int),
{
    index < LETTER_COUNT && mask & (1u32 << (index as u32)) != 0
}

/// The root of the volume with this index, or `None` where the index names no
/// letter.
pub fn drive_root(index: u8) -> (root: Option<String>)
    ensures
        root is Some <==> index < 26,
        root matches Some(r) ==> r@ == root_of(index as int),
{
    if index < LETTER_COUNT {
        let letter = (65u8 + index) as char;
        let mut r = String::new();
        push_char(&mut r, letter);
        push_char(&mut r, ':');
        push_char(&mut r, '\\');
        Some(r)
    } else {
        None
    }
}

/// The scanned roots are the roots of the selected letters, and nothing
/// else.
pub proof fn lemma_scanned_roots(mask: u32, drive_types: Seq<u32>, root: Seq<char>)
    ensures
        scanned_roots(mask, drive_types).contains(root) <==> exists|index: int|
            0 <= index < 26 && is_selected(mask, drive_types, index) && #[trigger] root_of(index)
                == root,
{
    let pick = |index: int| selected_root(mask, drive_types, index);
    if scanned_roots(mask, drive_types).contains(root) {
        letters().lemma_filter_map_contains(pick, root);
        let index = choose|index: int| #[trigger] letters().contains(index) && pick(index) == Some(root);
        assert(root_of(index) == root);
    }
    if exists|index: int|
        0 <= index < 26 && is_selected(mask, drive_types, index) && #[trigger] root_of(index)
            == root {
        let index = choose|index: int|
            0 <= index < 26 && is_selected(mask, drive_types, index) && #[trigger] root_of(index)
                == root;
        lemma_picked_is_scanned(mask, drive_types, index, 26);
        assert(letters().take(26) =~= letters());
    }
}

proof fn lemma_picked_is_scanned(mask: u32, drive_types: Seq<u32>, index: int, n: int)
    requires
        0 <= index < n <= 26,
        is_selected(mask, drive_types, index),
    ensures
        letters().take(n).filter_map(|i: int| selected_root(mask, drive_types, i)).contains(
            root_of(index),
        ),
    decreases n,
{
    let pick = |i: int| selected_root(mask, drive_types, i);
    letters().lemma_filter_map_take_succ(pick, n - 1);
    let before = letters().take(n - 1).filter_map(pick);
    let upto = letters().take(n).filter_map(pick);
    if index == n - 1 {
        assert(upto[upto.len() - 1] == root_of(index));
    } else {
        lemma_picked_is_scanned(mask, drive_types, index, n - 1);
        let k = choose|k: int| 0 <= k < before.len() && before[k] == root_of(index);
        assert(upto[k] == root_of(index));
    }
}

/// Lists the volumes to scan. `mask` is the mask of logical drives, bit 0 for
/// `A`; `drive_types[i]` is the drive type reported for the letter with index
/// `i`. The result holds the roots of the letters that the mask names and
/// whose type is fixed or removable, in the order of the alphabet. A mask of
/// zero, which is also what a failed query gives, yields no volume.
pub fn enumerate_drives(mask: u32, drive_types: &[u32]) -> (drives: Vec<String>)
    ensures
        texts_of(drives@) == scanned_roots(mask, drive_types@),
        mask == 0 ==> drives@.len() == 0,
{
    let mut drives: Vec<String> = Vec::new();
    let mut index: u8 = 0;
    let ghost pick = |i: int| selected_root(mask, drive_types@, i);
    while index < LETTER_COUNT
        invariant
            index <= 26,
            pick == |i: int| selected_root(mask, drive_types@, i),
            texts_of(drives@) == letters().take(index as int).filter_map(pick),
            mask == 0 ==> drives@.len() == 0,
        decreases 26 - index,
    {
        proof {
            letters().lemma_filter_map_take_succ(pick, index as int);
        }
        if is_drive_present(mask, index) && (index as usize) < drive_types.len() && is_scannable(
            drive_types[index as usize],
        ) {
            assert(mask != 0) by {
                let bit = 1u32 << (index as u32);
                assert(0u32 & bit == 0) by (bit_vector);
            }
            match drive_root(index) {
                Some(root) => {
                    drives.push(root);
                },
                None => {},
            }
        }
        index += 1;
    }
    assert(letters().take(26) =~= letters());
    drives
}

} // verus!
