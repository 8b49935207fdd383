use sysdiag::attributes::{file_size, filter_outcome, FilterOutcome};
use sysdiag::inventory::{FileEntry, FileList};
use sysdiag::path::{
    contains_nul, entry_name, has_trailing_separator, is_dot_entry, join_path, name_length,
    search_pattern,
};
use sysdiag::ranker::{rank_largest, rank_top, ranking_order, TOP_COUNT};
use sysdiag::report::{drive_label, entry_line, section_header, section_text};
use sysdiag::scan::{elapsed_ms, VolumeScanResult};
use sysdiag::volumes::{drive_root, enumerate_drives, is_drive_present, is_scannable};
use sysdiag::entry::{entry_action, DirEntry, EntryAction};
use sysdiag::walker::{process_directory, walk_tree, Step, TreeNode, Walker};

const MIB: u64 = 1024 * 1024;

const HIDDEN: u32 = 0x2;
const SYSTEM: u32 = 0x4;
const DIRECTORY: u32 = 0x10;
const ARCHIVE: u32 = 0x20;
const TEMPORARY: u32 = 0x100;
const REPARSE_POINT: u32 = 0x400;

fn file(name: &str, attributes: u32, size: u64) -> TreeNode {
    TreeNode { entry: DirEntry { name: name.to_string(), attributes, size }, listing: None }
}

fn dir(name: &str, attributes: u32, listing: Option<Vec<TreeNode>>) -> TreeNode {
    TreeNode {
        entry: DirEntry { name: name.to_string(), attributes: attributes | DIRECTORY, size: 0 },
        listing,
    }
}

fn pairs(list: &FileList) -> Vec<(String, u64)> {
    list.entries.iter().map(|e| (e.path.clone(), e.size)).collect()
}

fn ranked_pairs(ranked: &[FileEntry]) -> Vec<(String, u64)> {
    ranked.iter().map(|e| (e.path.clone(), e.size)).collect()
}

fn list_of(sizes: &[u64]) -> FileList {
    let mut list = FileList::new();
    for (i, size) in sizes.iter().enumerate() {
        list.add(&format!("f{}", i), *size);
    }
    list
}

fn mib_text(size: u64) -> String {
    format!("{:.2}", size as f64 / (1024.0 * 1024.0))
}

fn example_volume(d_listing: Option<Vec<TreeNode>>) -> Option<Vec<TreeNode>> {
    Some(vec![
        file("A", ARCHIVE, 10 * MIB),
        file("B", ARCHIVE, 5 * MIB),
        file("C", ARCHIVE | HIDDEN, 10 * MIB),
        dir("D", 0, d_listing),
    ])
}

#[test]
fn new_list_is_empty() {
    let list = FileList::new();
    assert!(list.entries.is_empty());
}

#[test]
fn add_appends_in_order() {
    let mut list = FileList::new();
    list.add("C:\\a.bin", 7);
    list.add("C:\\b.bin", 5_000_000_000);
    assert_eq!(
        pairs(&list),
        vec![("C:\\a.bin".to_string(), 7), ("C:\\b.bin".to_string(), 5_000_000_000)]
    );
}

#[test]
fn file_size_joins_the_halves() {
    assert_eq!(file_size(0, 0), 0);
    assert_eq!(file_size(0, 0xffff_ffff), 0xffff_ffff);
    assert_eq!(file_size(1, 0), 4_294_967_296);
    assert_eq!(file_size(2, 5), 8_589_934_597);
    assert_eq!(file_size(0xffff_ffff, 0xffff_ffff), u64::MAX);
}

#[test]
fn filter_names_the_first_reason() {
    assert_eq!(filter_outcome(0), FilterOutcome::Included);
    assert_eq!(filter_outcome(ARCHIVE), FilterOutcome::Included);
    assert_eq!(filter_outcome(DIRECTORY), FilterOutcome::Included);
    assert_eq!(filter_outcome(HIDDEN), FilterOutcome::ExcludedHidden);
    assert_eq!(filter_outcome(SYSTEM), FilterOutcome::ExcludedSystem);
    assert_eq!(filter_outcome(TEMPORARY), FilterOutcome::ExcludedTemporary);
    assert_eq!(filter_outcome(REPARSE_POINT), FilterOutcome::ExcludedReparsePoint);
    assert_eq!(filter_outcome(HIDDEN | SYSTEM), FilterOutcome::ExcludedSystem);
    assert_eq!(filter_outcome(HIDDEN | TEMPORARY | REPARSE_POINT), FilterOutcome::ExcludedHidden);
    assert_eq!(filter_outcome(TEMPORARY | REPARSE_POINT), FilterOutcome::ExcludedTemporary);
}

#[test]
fn join_adds_one_separator() {
    assert_eq!(join_path("C:\\", "Users"), "C:\\Users");
    assert_eq!(join_path("C:\\Users", "me"), "C:\\Users\\me");
    assert_eq!(join_path("C:/Users/", "me"), "C:/Users/me");
    assert_eq!(join_path("", "x"), "\\x");
    assert_eq!(join_path("C:", "x"), "C:\\x");
    assert_eq!(join_path("C:\\d\u{e9}j\u{e0}", "vu"), "C:\\d\u{e9}j\u{e0}\\vu");
}

#[test]
fn trailing_separator_is_seen() {
    assert!(has_trailing_separator("C:\\"));
    assert!(has_trailing_separator("a/"));
    assert!(!has_trailing_separator("C:"));
    assert!(!has_trailing_separator(""));
}

#[test]
fn search_pattern_ends_in_star() {
    assert_eq!(search_pattern("C:\\"), Some("C:\\*".to_string()));
    assert_eq!(search_pattern("C:\\Windows"), Some("C:\\Windows\\*".to_string()));
    assert_eq!(search_pattern("C:\\bad\0name"), None);
    assert!(contains_nul("a\0"));
    assert!(!contains_nul("abc"));
}

#[test]
fn dot_entries_are_told_apart() {
    assert!(is_dot_entry("."));
    assert!(is_dot_entry(".."));
    assert!(!is_dot_entry("..."));
    assert!(!is_dot_entry(".a"));
    assert!(!is_dot_entry(""));
    assert!(!is_dot_entry("a"));
}

#[test]
fn name_stops_at_the_first_zero() {
    let mut raw = [0u8; 260];
    raw[..5].copy_from_slice(b"a.txt");
    raw[6] = b'z';
    assert_eq!(name_length(&raw), 5);
    assert_eq!(entry_name(&raw), "a.txt");
    assert_eq!(name_length(b"abc"), 3);
    assert_eq!(entry_name(b"abc"), "abc");
    assert_eq!(name_length(b""), 0);
    assert_eq!(entry_name(b"\0abc"), "");
    assert_eq!(entry_name(&[b'a', 0xff, b'b', 0]), "a\u{fffd}b");
}

#[test]
fn entry_from_raw_record() {
    let mut raw = [0u8; 260];
    raw[..7].copy_from_slice(b"big.iso");
    let entry = DirEntry::from_raw(ARCHIVE, 1, 2, &raw);
    assert_eq!(entry.name, "big.iso");
    assert_eq!(entry.attributes, ARCHIVE);
    assert_eq!(entry.size, 4_294_967_298);
    let copy = entry.duplicate();
    assert_eq!(copy.name, "big.iso");
    assert_eq!(copy.size, entry.size);
}

#[test]
fn action_for_each_kind_of_entry() {
    let act = |name: &str, attributes: u32| {
        entry_action(&DirEntry { name: name.to_string(), attributes, size: 1 })
    };
    assert_eq!(act("a", ARCHIVE), EntryAction::Record);
    assert_eq!(act("a", 0), EntryAction::Record);
    assert_eq!(act("a", HIDDEN), EntryAction::Ignore);
    assert_eq!(act("a", SYSTEM), EntryAction::Ignore);
    assert_eq!(act("a", TEMPORARY), EntryAction::Ignore);
    assert_eq!(act("a", REPARSE_POINT), EntryAction::Ignore);
    assert_eq!(act("d", DIRECTORY), EntryAction::Descend);
    assert_eq!(act("d", DIRECTORY | HIDDEN), EntryAction::Descend);
    assert_eq!(act("d", DIRECTORY | SYSTEM | TEMPORARY), EntryAction::Descend);
    assert_eq!(act("d", DIRECTORY | REPARSE_POINT), EntryAction::Ignore);
    assert_eq!(act(".", DIRECTORY), EntryAction::Ignore);
    assert_eq!(act("..", DIRECTORY), EntryAction::Ignore);
    assert_eq!(act(".", ARCHIVE), EntryAction::Ignore);
}

#[test]
fn end_to_end_example() {
    let tree = example_volume(Some(vec![file("E", ARCHIVE, MIB)]));
    let list = walk_tree("X:\\", &tree);
    assert_eq!(
        pairs(&list),
        vec![
            ("X:\\A".to_string(), 10 * MIB),
            ("X:\\B".to_string(), 5 * MIB),
            ("X:\\D\\E".to_string(), MIB),
        ]
    );
    let ranked = rank_largest(&list);
    let lines: Vec<String> =
        ranked.iter().map(|e| entry_line(&e.path, &mib_text(e.size))).collect();
    let section = section_text(&section_header("X:\\"), &lines);
    assert_eq!(
        section,
        "Largest files on X:\nX:\\A: 10.00 MB\nX:\\B: 5.00 MB\nX:\\D\\E: 1.00 MB\n\n"
    );
}

#[test]
fn unlistable_subtree_is_skipped() {
    let tree = example_volume(None);
    let list = walk_tree("X:\\", &tree);
    assert_eq!(
        pairs(&list),
        vec![("X:\\A".to_string(), 10 * MIB), ("X:\\B".to_string(), 5 * MIB)]
    );
}

#[test]
fn unlistable_root_gives_nothing() {
    let list = walk_tree("X:\\", &None);
    assert!(list.entries.is_empty());
}

#[test]
fn empty_tree_gives_empty_ranking_and_bare_section() {
    let list = walk_tree("X:\\", &Some(Vec::new()));
    assert!(list.entries.is_empty());
    let ranked = rank_largest(&list);
    assert!(ranked.is_empty());
    let section = section_text(&section_header("X:\\"), &Vec::new());
    assert_eq!(section, "Largest files on X:\n\n");
}

#[test]
fn walk_is_depth_first_in_listing_order() {
    let tree = Some(vec![
        file("a", 0, 1),
        dir(
            "d1",
            0,
            Some(vec![
                file("b", 0, 2),
                dir("d2", 0, Some(vec![file("c", 0, 3)])),
                file("e", 0, 4),
            ]),
        ),
        dir("empty", 0, Some(Vec::new())),
        file("f", 0, 5),
    ]);
    let list = walk_tree("R", &tree);
    assert_eq!(
        pairs(&list),
        vec![
            ("R\\a".to_string(), 1),
            ("R\\d1\\b".to_string(), 2),
            ("R\\d1\\d2\\c".to_string(), 3),
            ("R\\d1\\e".to_string(), 4),
            ("R\\f".to_string(), 5),
        ]
    );
}

#[test]
fn flagged_entries_never_appear() {
    let tree = Some(vec![
        dir(".", 0, Some(vec![file("loop", 0, 1)])),
        dir("..", 0, Some(vec![file("up", 0, 1)])),
        file("h", HIDDEN, 1),
        file("s", SYSTEM, 1),
        file("t", TEMPORARY, 1),
        file("l", REPARSE_POINT, 1),
        dir("junction", REPARSE_POINT, Some(vec![file("inside", 0, 9)])),
        dir("hidden_dir", HIDDEN, Some(vec![file("seen", 0, 2), file("unseen", HIDDEN, 3)])),
        file("plain", 0, 4),
    ]);
    let list = walk_tree("V:\\", &tree);
    assert_eq!(
        pairs(&list),
        vec![("V:\\hidden_dir\\seen".to_string(), 2), ("V:\\plain".to_string(), 4)]
    );
}

#[test]
fn walk_twice_gives_the_same_inventory() {
    let tree = example_volume(Some(vec![file("E", ARCHIVE, MIB)]));
    let first = walk_tree("X:\\", &tree);
    let second = walk_tree("X:\\", &tree);
    assert_eq!(pairs(&first), pairs(&second));
}

#[test]
fn reordered_listing_gives_the_same_entries() {
    let first = walk_tree("X:", &Some(vec![file("a", 0, 1), file("b", 0, 2), file("c", 0, 2)]));
    let second = walk_tree("X:", &Some(vec![file("c", 0, 2), file("a", 0, 1), file("b", 0, 2)]));
    let mut one = pairs(&first);
    let mut two = pairs(&second);
    one.sort();
    two.sort();
    assert_eq!(one, two);
}

#[test]
fn walker_steps_one_entry_at_a_time() {
    let mut walker = Walker::new();
    assert_eq!(walker.depth(), 0);
    assert!(matches!(walker.step(), Step::Done));
    walker.enter(
        "C:\\".to_string(),
        vec![
            DirEntry { name: ".".to_string(), attributes: DIRECTORY, size: 0 },
            DirEntry { name: "a".to_string(), attributes: 0, size: 3 },
            DirEntry { name: "sub".to_string(), attributes: DIRECTORY, size: 0 },
            DirEntry { name: "gone".to_string(), attributes: DIRECTORY, size: 0 },
            DirEntry { name: "h".to_string(), attributes: HIDDEN, size: 5 },
        ],
    );
    assert_eq!(walker.depth(), 1);
    assert!(matches!(walker.step(), Step::Ignored));
    assert!(matches!(walker.step(), Step::Recorded));
    match walker.step() {
        Step::Descend(path) => {
            assert_eq!(path, "C:\\sub");
            walker.enter(path, vec![DirEntry { name: "b".to_string(), attributes: 0, size: 4 }]);
        }
        other => panic!("unexpected step {:?}", other),
    }
    assert_eq!(walker.depth(), 2);
    assert!(matches!(walker.step(), Step::Recorded));
    assert!(matches!(walker.step(), Step::Ascended));
    assert_eq!(walker.depth(), 1);
    match walker.step() {
        Step::Descend(path) => assert_eq!(path, "C:\\gone"),
        other => panic!("unexpected step {:?}", other),
    }
    assert!(matches!(walker.step(), Step::Ignored));
    assert!(matches!(walker.step(), Step::Ascended));
    assert!(matches!(walker.step(), Step::Done));
    assert_eq!(walker.depth(), 0);
    let list = walker.into_inventory();
    assert_eq!(pairs(&list), vec![("C:\\a".to_string(), 3), ("C:\\sub\\b".to_string(), 4)]);
}

#[test]
fn ranking_is_descending_and_stable() {
    let list = list_of(&[5, 9, 5, 1, 9, 7]);
    assert_eq!(ranking_order(&list, 100), vec![1, 4, 5, 0, 2, 3]);
    let ranked = rank_top(&list, 100);
    assert_eq!(
        ranked_pairs(&ranked),
        vec![
            ("f1".to_string(), 9),
            ("f4".to_string(), 9),
            ("f5".to_string(), 7),
            ("f0".to_string(), 5),
            ("f2".to_string(), 5),
            ("f3".to_string(), 1),
        ]
    );
}

#[test]
fn ranking_is_cut_at_the_limit() {
    let list = list_of(&[5, 9, 5, 1, 9, 7]);
    assert_eq!(ranking_order(&list, 3), vec![1, 4, 5]);
    assert_eq!(ranking_order(&list, 4), vec![1, 4, 5, 0]);
    assert_eq!(ranking_order(&list, 1), vec![1]);
    assert_eq!(ranking_order(&list, 0), Vec::<usize>::new());
    assert_eq!(ranking_order(&list, 6), vec![1, 4, 5, 0, 2, 3]);
    assert_eq!(ranking_order(&list_of(&[]), 5), Vec::<usize>::new());
}

#[test]
fn ranking_length_is_min_of_count_and_hundred() {
    assert_eq!(TOP_COUNT, 100);
    for n in [0usize, 1, 99, 100, 101, 250] {
        let sizes: Vec<u64> = (0..n as u64).map(|i| (i * 7919) % 1000).collect();
        let list = list_of(&sizes);
        let ranked = rank_largest(&list);
        assert_eq!(ranked.len(), n.min(100));
        for w in ranked.windows(2) {
            assert!(w[0].size >= w[1].size);
        }
        let mut all: Vec<(u64, usize)> = sizes.iter().copied().zip(0..n).collect();
        all.sort_by(|a, b| b.0.cmp(&a.0));
        let expected: Vec<(String, u64)> =
            all.iter().take(100).map(|(s, i)| (format!("f{}", i), *s)).collect();
        assert_eq!(ranked_pairs(&ranked), expected);
    }
}

#[test]
fn scan_result_keeps_inventory_and_time() {
    let result = VolumeScanResult::new("C:\\".to_string(), list_of(&[3, 8]), 1000, 1250);
    assert_eq!(result.label, "C:\\");
    assert_eq!(result.elapsed_ms, 250);
    assert_eq!(result.file_count(), 2);
    assert_eq!(ranked_pairs(&result.ranked()), vec![("f1".to_string(), 8), ("f0".to_string(), 3)]);
}

#[test]
fn elapsed_time_survives_a_wrapped_counter() {
    assert_eq!(elapsed_ms(10, 10), 0);
    assert_eq!(elapsed_ms(10, 25), 15);
    assert_eq!(elapsed_ms(0xffff_fff0, 0x10), 0x20);
    assert_eq!(elapsed_ms(1, 0), 0xffff_ffff);
}

#[test]
fn drives_are_selected_by_mask_and_type() {
    let mut types = vec![1u32; 26];
    types[2] = 3;
    types[3] = 5;
    types[4] = 2;
    types[5] = 4;
    types[25] = 3;
    let mask = 0b11_1100 | (1 << 25);
    assert_eq!(
        enumerate_drives(mask, &types),
        vec!["C:\\".to_string(), "E:\\".to_string(), "Z:\\".to_string()]
    );
    assert_eq!(enumerate_drives(0b0100, &types), vec!["C:\\".to_string()]);
    assert_eq!(enumerate_drives(0b1000, &types), Vec::<String>::new());
    assert_eq!(enumerate_drives(0, &types), Vec::<String>::new());
    assert_eq!(enumerate_drives(0xffff_ffff, &[3, 3]), vec!["A:\\".to_string(), "B:\\".to_string()]);
    assert_eq!(enumerate_drives(0xffff_ffff, &[]), Vec::<String>::new());
}

#[test]
fn drive_letters_and_types() {
    assert_eq!(drive_root(0), Some("A:\\".to_string()));
    assert_eq!(drive_root(2), Some("C:\\".to_string()));
    assert_eq!(drive_root(25), Some("Z:\\".to_string()));
    assert_eq!(drive_root(26), None);
    assert_eq!(drive_root(255), None);
    assert!(is_drive_present(0b100, 2));
    assert!(!is_drive_present(0b100, 1));
    assert!(!is_drive_present(0xffff_ffff, 26));
    assert!(is_drive_present(1 << 25, 25));
    assert!(is_scannable(2));
    assert!(is_scannable(3));
    for other in [0u32, 1, 4, 5, 6, 7] {
        assert!(!is_scannable(other));
    }
}

#[test]
fn header_uses_the_drive_label() {
    assert_eq!(drive_label("C:\\"), Some("C:".to_string()));
    assert_eq!(drive_label("z:"), Some("z:".to_string()));
    assert_eq!(drive_label("C"), None);
    assert_eq!(drive_label(""), None);
    assert_eq!(drive_label("\\\\server\\share"), None);
    assert_eq!(drive_label("1:\\"), None);
    assert_eq!(section_header("C:\\"), "Largest files on C:");
    assert_eq!(section_header("/mnt/data"), "Largest files on /mnt/data:");
}

#[test]
fn lines_and_sections() {
    assert_eq!(entry_line("C:\\a", "1.50"), "C:\\a: 1.50 MB");
    let lines = vec!["one".to_string(), "two".to_string()];
    assert_eq!(section_text("head", &lines), "head\none\ntwo\n\n");
}

#[test]
fn deeply_reordered_tree_gives_the_same_entries() {
    let first = Some(vec![
        file("a", 0, 1),
        dir("d", 0, Some(vec![file("x", 0, 7), dir("e", 0, Some(vec![file("p", 0, 2), file("q", 0, 3)]))])),
        file("b", 0, 7),
    ]);
    let second = Some(vec![
        dir("d", 0, Some(vec![dir("e", 0, Some(vec![file("q", 0, 3), file("p", 0, 2)])), file("x", 0, 7)])),
        file("b", 0, 7),
        file("a", 0, 1),
    ]);
    let mut one = pairs(&walk_tree("V:\\", &first));
    let mut two = pairs(&walk_tree("V:\\", &second));
    assert_ne!(one, two);
    one.sort();
    two.sort();
    assert_eq!(one, two);
    assert_eq!(one.len(), 5);
}

#[test]
fn conventional_tree_has_no_path_twice() {
    let tree = Some(vec![
        file("a", 0, 1),
        dir("b", 0, Some(vec![file("a", 0, 1), dir("b", 0, Some(vec![file("a", 0, 1)]))])),
        file("c", 0, 1),
        dir("d", 0, Some(vec![file("a", 0, 1), file("c", 0, 1)])),
    ]);
    for root in ["X:\\", "X:", "/mnt/x/"] {
        let mut paths: Vec<String> =
            pairs(&walk_tree(root, &tree)).into_iter().map(|(p, _)| p).collect();
        assert_eq!(paths.len(), 6);
        paths.sort();
        paths.dedup();
        assert_eq!(paths.len(), 6);
    }
}

#[test]
fn equal_sizes_keep_discovery_order_in_the_report() {
    let tree = Some(vec![
        file("late", 0, 4 * MIB),
        dir("d", 0, Some(vec![file("first", 0, 8 * MIB), file("second", 0, 8 * MIB)])),
        file("third", 0, 8 * MIB),
        file("half", 0, MIB / 2),
    ]);
    let list = walk_tree("Q:\\", &tree);
    let ranked = rank_largest(&list);
    let lines: Vec<String> =
        ranked.iter().map(|e| entry_line(&e.path, &mib_text(e.size))).collect();
    assert_eq!(
        section_text(&section_header("Q:\\"), &lines),
        "Largest files on Q:\nQ:\\d\\first: 8.00 MB\nQ:\\d\\second: 8.00 MB\n\
         Q:\\third: 8.00 MB\nQ:\\late: 4.00 MB\nQ:\\half: 0.50 MB\n\n"
    );
}

#[test]
fn process_directory_appends_to_the_inventory() {
    let mut list = FileList::new();
    list.add("earlier", 42);
    process_directory("X:\\", &example_volume(Some(vec![file("E", ARCHIVE, MIB)])), &mut list);
    assert_eq!(
        pairs(&list),
        vec![
            ("earlier".to_string(), 42),
            ("X:\\A".to_string(), 10 * MIB),
            ("X:\\B".to_string(), 5 * MIB),
            ("X:\\D\\E".to_string(), MIB),
        ]
    );
    process_directory("Y:\\", &None, &mut list);
    assert_eq!(list.entries.len(), 4);
    process_directory("Y:\\", &Some(vec![file("z", 0, 1)]), &mut list);
    assert_eq!(list.entries.len(), 5);
    assert_eq!(list.entries[4].path, "Y:\\z");
}
