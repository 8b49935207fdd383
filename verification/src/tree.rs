//! The directory tree as a walk meets it: which of its files the walk
//! records, and what holds of the inventory that comes of it.

use vstd::prelude::*;
use crate::attributes::{is_directory, is_reparse_point, outcome_of, FilterOutcome};
use crate::entry::{action_of, EntryAction, EntryFacts};
use crate::inventory::EntryModel;
use crate::path::{ends_with_separator, is_dot_name, joined};

verus! {

/// A directory tree as a walk meets it: an entry, and for a directory what
/// listing it gives, `None` where it cannot be listed.
pub ghost struct Node {
    pub facts: EntryFacts,
    pub listing: Option<Seq<Node>>,
}

/// The entries that the walk records below one entry of the directory `dir`.
pub open spec fn walk_node(dir: Seq<char>, node: Node) -> Seq<EntryModel>
    decreases node, 0nat,
{
    match action_of(node.facts) {
        EntryAction::Ignore => Seq::empty(),
        EntryAction::Record => seq![
            EntryModel { path: joined(dir, node.facts.name), size: node.facts.size },
        ],
        EntryAction::Descend => match node.listing {
            None => Seq::empty(),
            Some(children) => walk_nodes(joined(dir, node.facts.name), children),
        },
    }
}

/// The entries that the walk records for the listing `nodes` of the
/// directory `dir`: depth first, each entry's subtree completed before the
/// next entry is looked at.
pub open spec fn walk_nodes(dir: Seq<char>, nodes: Seq<Node>) -> Seq<EntryModel>
    decreases nodes, 1nat,
{
    if nodes.len() == 0 {
        Seq::empty()
    } else {
        walk_node(dir, nodes.first()) + walk_nodes(dir, nodes.drop_first())
    }
}

/// The inventory of a volume whose root gives `listing`: empty where the root
/// cannot be listed.
pub open spec fn walk_listing(root: Seq<char>, listing: Option<Seq<Node>>) -> Seq<EntryModel> {
    match listing {
        None => Seq::empty(),
        Some(nodes) => walk_nodes(root, nodes),
    }
}

/// The walk of a listing from its entry `k` on is the walk of that entry
/// followed by the walk of the entries behind it.
pub proof fn lemma_walk_from(dir: Seq<char>, nodes: Seq<Node>, k: int)
    requires
        0 <= k < nodes.len(),
    ensures
        walk_nodes(dir, nodes.skip(k)) == walk_node(dir, nodes[k]) + walk_nodes(
            dir,
            nodes.skip(k + 1),
        ),
{
    assert(nodes.skip(k).drop_first() =~= nodes.skip(k + 1));
}

/// The walk of a listing in two parts is the walk of the first part followed
/// by the walk of the second.
pub proof fn lemma_walk_concat(dir: Seq<char>, front: Seq<Node>, back: Seq<Node>)
    ensures
        walk_nodes(dir, front + back) == walk_nodes(dir, front) + walk_nodes(dir, back),
    decreases front.len(),
{
    if front.len() > 0 {
        lemma_walk_concat(dir, front.drop_first(), back);
        assert((front + back).drop_first() =~= front.drop_first() + back);
    }
}

/// Whether an entry carries one of the flags that keep a file out of the
/// inventory: hidden, system, temporary or reparse point.
pub open spec fn is_flagged(attributes: u32) -> bool {
    outcome_of(attributes) != FilterOutcome::Included
}

/// Filter correctness. A file that is flagged hidden, system, temporary or as
/// a reparse point is not recorded, and a directory that is a reparse point is
/// not descended into: the walk of a listing records what it would record
/// without that entry, so the rest of the directory is still walked.
pub proof fn lemma_filtered_entry_leaves_nothing(dir: Seq<char>, nodes: Seq<Node>, i: int)
    requires
        0 <= i < nodes.len(),
        is_reparse_point(nodes[i].facts.attributes) || (is_flagged(nodes[i].facts.attributes)
            && !is_directory(nodes[i].facts.attributes)),
    ensures
        walk_node(dir, nodes[i]) == Seq::<EntryModel>::empty(),
        walk_nodes(dir, nodes) == walk_nodes(dir, nodes.remove(i)),
{
    let front = nodes.take(i);
    let back = nodes.skip(i);
    assert(nodes =~= front + back);
    lemma_walk_concat(dir, front, back);
    lemma_walk_concat(dir, front, nodes.skip(i + 1));
    lemma_walk_from(dir, nodes, i);
}

/// The names `.` and `..` are never recorded nor descended into, whatever
/// their flags and whatever listing stands behind them.
pub proof fn lemma_dot_entry_leaves_nothing(dir: Seq<char>, node: Node)
    requires
        is_dot_name(node.facts.name),
    ensures
        walk_node(dir, node) == Seq::<EntryModel>::empty(),
{
}

/// A directory that cannot be listed adds nothing, and takes nothing from
/// what the rest of its parent's listing adds.
pub proof fn lemma_unlistable_directory_is_skipped(dir: Seq<char>, nodes: Seq<Node>, i: int)
    requires
        0 <= i < nodes.len(),
        nodes[i].listing is None,
        action_of(nodes[i].facts) == EntryAction::Descend,
    ensures
        walk_nodes(dir, nodes) == walk_nodes(dir, nodes.remove(i)),
{
    let front = nodes.take(i);
    let back = nodes.skip(i);
    assert(nodes =~= front + back);
    lemma_walk_concat(dir, front, back);
    lemma_walk_concat(dir, front, nodes.skip(i + 1));
    lemma_walk_from(dir, nodes, i);
}

/// An empty tree has an empty inventory.
pub proof fn lemma_empty_tree(root: Seq<char>)
    ensures
        walk_listing(root, Some(Seq::<Node>::empty())) == Seq::<EntryModel>::empty(),
        walk_listing(root, None) == Seq::<EntryModel>::empty(),
{
}

/// Two walks of one tree record the same entries: the inventory depends on
/// nothing but the root's path and the tree.
pub proof fn lemma_walk_is_repeatable(
    root: Seq<char>,
    listing: Option<Seq<Node>>,
    first: Seq<EntryModel>,
    second: Seq<EntryModel>,
)
    requires
        first == walk_listing(root, listing),
        second == walk_listing(root, listing),
    ensures
        first == second,
        first.to_multiset() == second.to_multiset(),
{
}

/// The order in which a directory hands out its entries changes the order of
/// the inventory at most: two listings that hold the same entries give the
/// same entries with the same sizes, each as often.
pub proof fn lemma_listing_order_is_immaterial(dir: Seq<char>, first: Seq<Node>, second: Seq<Node>)
    requires
        first.to_multiset() == second.to_multiset(),
    ensures
        walk_nodes(dir, first).to_multiset() == walk_nodes(dir, second).to_multiset(),
    decreases first.len(),
{
    broadcast use vstd::seq_lib::group_to_multiset_ensures;

    first.to_multiset_ensures();
    second.to_multiset_ensures();
    if first.len() > 0 {
        // The first listing's head stands somewhere in the second, at `j`.
        let head = first.first();
        assert(first.to_multiset().count(head) > 0);
        let j = choose|j: int| 0 <= j < second.len() && second[j] == head;
        // Without it the two listings still hold the same entries.
        let rest = first.drop_first();
        let others = second.remove(j);
        assert(rest =~= first.remove(0));
        vstd::seq_lib::to_multiset_remove(first, 0);
        vstd::seq_lib::to_multiset_remove(second, j);
        lemma_listing_order_is_immaterial(dir, rest, others);
        // The second walk is that of the entries before `j`, of the head, and
        // of the entries behind `j`; the first is that of the head and of the
        // rest.
        let front = second.take(j);
        let back = second.skip(j + 1);
        assert(second =~= front + second.skip(j));
        assert(others =~= front + back);
        lemma_walk_concat(dir, front, second.skip(j));
        lemma_walk_concat(dir, front, back);
        lemma_walk_from(dir, second, j);
        let a = walk_nodes(dir, front);
        let b = walk_node(dir, head);
        let c = walk_nodes(dir, back);
        assert(walk_nodes(dir, second) == a + (b + c));
        assert(walk_nodes(dir, others) == a + c);
        vstd::seq_lib::lemma_multiset_commutative(a, b + c);
        vstd::seq_lib::lemma_multiset_commutative(b, c);
        vstd::seq_lib::lemma_multiset_commutative(a, c);
        vstd::seq_lib::lemma_multiset_commutative(b, walk_nodes(dir, rest));
    }
}

/// Whether two entries stand for the same tree but for the order of the
/// listings in it.
pub open spec fn same_but_for_order(first: Node, second: Node) -> bool
    decreases first, 0nat,
{
    first.facts == second.facts && match (first.listing, second.listing) {
        (None, None) => true,
        (Some(a), Some(b)) => reordered(a, b),
        _ => false,
    }
}

/// Whether two listings hold the same trees but for order: the second can be
/// rearranged so that each of its entries is, but for the order of the
/// listings below it, the entry at the same place in the first.
pub open spec fn reordered(first: Seq<Node>, second: Seq<Node>) -> bool
    decreases first, 1nat,
{
    exists|arranged: Seq<Node>|
        #![trigger arranged.to_multiset()]
        arranged.to_multiset() == second.to_multiset() && arranged.len() == first.len()
            && forall|i: int|
            0 <= i < first.len() ==> same_but_for_order(first[i], #[trigger] arranged[i])
}

proof fn lemma_walks_agree_entry_by_entry(dir: Seq<char>, first: Seq<Node>, second: Seq<Node>)
    requires
        first.len() == second.len(),
        forall|i: int|
            0 <= i < first.len() ==> walk_node(dir, first[i]).to_multiset() == walk_node(
                dir,
                #[trigger] second[i],
            ).to_multiset(),
    ensures
        walk_nodes(dir, first).to_multiset() == walk_nodes(dir, second).to_multiset(),
    decreases first.len(),
{
    if first.len() > 0 {
        let a = first.drop_first();
        let b = second.drop_first();
        lemma_walks_agree_entry_by_entry(dir, a, b);
        vstd::seq_lib::lemma_multiset_commutative(
            walk_node(dir, first.first()),
            walk_nodes(dir, a),
        );
        vstd::seq_lib::lemma_multiset_commutative(
            walk_node(dir, second.first()),
            walk_nodes(dir, b),
        );
    }
}

/// Idempotence up to listing order, for one entry: two entries that stand for
/// the same tree but for the order of its listings give the same files with
/// the same sizes, each as often.
pub proof fn lemma_entry_order_is_immaterial(dir: Seq<char>, first: Node, second: Node)
    requires
        same_but_for_order(first, second),
    ensures
        walk_node(dir, first).to_multiset() == walk_node(dir, second).to_multiset(),
    decreases first, 0nat,
{
    match (first.listing, second.listing) {
        (Some(a), Some(b)) => {
            lemma_tree_order_is_immaterial(joined(dir, first.facts.name), a, b);
        },
        _ => {},
    }
}

/// Idempotence up to listing order: the order in which the directories of a
/// tree, at any depth, hand out their entries changes the order of the
/// inventory at most. The files that are recorded and their sizes stay the
/// same.
pub proof fn lemma_tree_order_is_immaterial(dir: Seq<char>, first: Seq<Node>, second: Seq<Node>)
    requires
        reordered(first, second),
    ensures
        walk_nodes(dir, first).to_multiset() == walk_nodes(dir, second).to_multiset(),
    decreases first, 1nat,
{
    let arranged = choose|arranged: Seq<Node>|
        #![trigger arranged.to_multiset()]
        arranged.to_multiset() == second.to_multiset() && arranged.len() == first.len()
            && forall|i: int|
            0 <= i < first.len() ==> same_but_for_order(first[i], #[trigger] arranged[i]);
    assert forall|i: int| 0 <= i < first.len() implies walk_node(dir, first[i]).to_multiset()
        == walk_node(dir, #[trigger] arranged[i]).to_multiset() by {
        lemma_entry_order_is_immaterial(dir, first[i], arranged[i]);
    }
    lemma_walks_agree_entry_by_entry(dir, first, arranged);
    lemma_listing_order_is_immaterial(dir, arranged, second);
}

/// An unchanged tree is the same tree but for order.
pub proof fn lemma_unchanged_entry(node: Node)
    ensures
        same_but_for_order(node, node),
    decreases node, 0nat,
{
    match node.listing {
        Some(children) => {
            lemma_unchanged_listing(children);
        },
        None => {},
    }
}

/// An unchanged listing is the same listing but for order.
pub proof fn lemma_unchanged_listing(nodes: Seq<Node>)
    ensures
        reordered(nodes, nodes),
    decreases nodes, 1nat,
{
    assert forall|i: int| 0 <= i < nodes.len() implies same_but_for_order(
        nodes[i],
        #[trigger] nodes[i],
    ) by {
        lemma_unchanged_entry(nodes[i]);
    }
    // The listing itself is the arrangement that shows it.
    assert(nodes.to_multiset() == nodes.to_multiset());
}

/// Whether a character is one of the two separators.
pub open spec fn is_separator(c: char) -> bool {
    c == '\\' || c == '/'
}

/// Whether a name is one that a file system gives to an entry: not empty,
/// and without a separator in it.
pub open spec fn is_plain_name(name: Seq<char>) -> bool {
    name.len() > 0 && forall|i: int| 0 <= i < name.len() ==> !is_separator(#[trigger] name[i])
}

/// Whether a listing is that of a conventional tree: the names are plain, no
/// two entries of one directory have one name, and the same holds of every
/// listing below.
pub open spec fn is_conventional(nodes: Seq<Node>) -> bool
    decreases nodes,
{
    &&& forall|i: int| 0 <= i < nodes.len() ==> is_plain_name((#[trigger] nodes[i]).facts.name)
    &&& forall|i: int, j: int|
        0 <= i < j < nodes.len() ==> (#[trigger] nodes[i]).facts.name != (
        #[trigger] nodes[j]).facts.name
    &&& forall|i: int|
        0 <= i < nodes.len() ==> ((#[trigger] nodes[i]).listing matches Some(children)
            ==> is_conventional(children))
}

/// The path of a directory with a separator at its end.
pub open spec fn base_of(dir: Seq<char>) -> Seq<char> {
    if ends_with_separator(dir) {
        dir
    } else {
        dir + seq!['\\']
    }
}

/// Whether `path` lies at or below the entry `name` of the directory `dir`:
/// it is the entry's own path, or goes on with a separator behind it.
pub open spec fn stems_from(path: Seq<char>, dir: Seq<char>, name: Seq<char>) -> bool {
    exists|tail: Seq<char>|
        #![trigger base_of(dir) + name + tail]
        path == base_of(dir) + name + tail && (tail.len() == 0 || is_separator(tail[0]))
}

/// A path lies at or below one entry of a directory only.
proof fn lemma_stems_from_one(path: Seq<char>, dir: Seq<char>, first: Seq<char>, second: Seq<char>)
    requires
        is_plain_name(first),
        is_plain_name(second),
        stems_from(path, dir, first),
        stems_from(path, dir, second),
    ensures
        first == second,
{
    let base = base_of(dir);
    let t1 = choose|tail: Seq<char>|
        #![trigger base_of(dir) + first + tail]
        path == base_of(dir) + first + tail && (tail.len() == 0 || is_separator(tail[0]));
    let t2 = choose|tail: Seq<char>|
        #![trigger base_of(dir) + second + tail]
        path == base_of(dir) + second + tail && (tail.len() == 0 || is_separator(tail[0]));
    let b = base.len() as int;
    if first.len() < second.len() {
        // Behind the shorter name the path has a separator, which the longer
        // name does not hold.
        let k = first.len() as int;
        assert(path[b + k] == t1[0]);
        assert(path[b + k] == second[k]);
    } else if second.len() < first.len() {
        let k = second.len() as int;
        assert(path[b + k] == t2[0]);
        assert(path[b + k] == first[k]);
    } else {
        assert forall|i: int| 0 <= i < first.len() implies first[i] == second[i] by {
            assert(path[b + i] == first[i]);
            assert(path[b + i] == second[i]);
        }
        assert(first =~= second);
    }
}

/// Every entry that the walk records for an entry of a directory lies at or
/// below that entry.
proof fn lemma_recorded_below_entry(dir: Seq<char>, node: Node, j: int)
    requires
        is_plain_name(node.facts.name),
        node.listing matches Some(children) ==> is_conventional(children),
        0 <= j < walk_node(dir, node).len(),
    ensures
        stems_from(walk_node(dir, node)[j].path, dir, node.facts.name),
    decreases node, 0nat,
{
    let name = node.facts.name;
    let own = joined(dir, name);
    match action_of(node.facts) {
        EntryAction::Ignore => {},
        EntryAction::Record => {
            let tail = Seq::<char>::empty();
            assert(own =~= base_of(dir) + name + tail);
        },
        EntryAction::Descend => {
            match node.listing {
                None => {},
                Some(children) => {
                    let k = lemma_recorded_below_listing(own, children, j);
                    let child = children[k].facts.name;
                    let path = walk_nodes(own, children)[j].path;
                    let t = choose|tail: Seq<char>|
                        #![trigger base_of(own) + child + tail]
                        path == base_of(own) + child + tail && (tail.len() == 0 || is_separator(
                            tail[0],
                        ));
                    // The entry's own path ends in the last character of its
                    // name, which is no separator: one is put behind it.
                    assert(own.last() == name.last());
                    assert(base_of(own) == own + seq!['\\']);
                    let tail = seq!['\\'] + child + t;
                    assert(path =~= base_of(dir) + name + tail);
                },
            }
        },
    }
}

/// Every entry that the walk records for a listing lies at or below one of
/// the listing's entries.
proof fn lemma_recorded_below_listing(dir: Seq<char>, nodes: Seq<Node>, j: int) -> (k: int)
    requires
        is_conventional(nodes),
        0 <= j < walk_nodes(dir, nodes).len(),
    ensures
        0 <= k < nodes.len(),
        stems_from(walk_nodes(dir, nodes)[j].path, dir, nodes[k].facts.name),
    decreases nodes, 1nat,
{
    let head = walk_node(dir, nodes.first());
    if j < head.len() {
        lemma_recorded_below_entry(dir, nodes.first(), j);
        0
    } else {
        let rest = nodes.drop_first();
        assert(is_conventional(rest));
        let k = lemma_recorded_below_listing(dir, rest, j - head.len());
        k + 1
    }
}

/// Whether no two entries of an inventory have one path.
pub open spec fn has_distinct_paths(entries: Seq<EntryModel>) -> bool {
    forall|a: int, b: int|
        0 <= a < b < entries.len() ==> (#[trigger] entries[a]).path != (#[trigger] entries[b]).path
}

/// No duplicates, for one entry of a conventional tree.
proof fn lemma_entry_paths_are_distinct(dir: Seq<char>, node: Node)
    requires
        node.listing matches Some(children) ==> is_conventional(children),
    ensures
        has_distinct_paths(walk_node(dir, node)),
    decreases node, 0nat,
{
    match node.listing {
        Some(children) => {
            lemma_no_duplicates(joined(dir, node.facts.name), children);
        },
        None => {},
    }
}

/// No duplicates: the inventory of a conventional tree, in which no two
/// entries of one directory have one name, holds no path twice.
pub proof fn lemma_no_duplicates(dir: Seq<char>, nodes: Seq<Node>)
    requires
        is_conventional(nodes),
    ensures
        has_distinct_paths(walk_nodes(dir, nodes)),
    decreases nodes, 1nat,
{
    if nodes.len() > 0 {
        let first = nodes.first();
        let rest = nodes.drop_first();
        let head = walk_node(dir, first);
        let tail = walk_nodes(dir, rest);
        assert(is_conventional(rest));
        lemma_entry_paths_are_distinct(dir, first);
        lemma_no_duplicates(dir, rest);
        let all = walk_nodes(dir, nodes);
        assert(all == head + tail);
        assert forall|a: int, b: int| 0 <= a < b < all.len() implies (#[trigger] all[a]).path != (
        #[trigger] all[b]).path by {
            if a < head.len() <= b {
                // One path lies below the first entry, the other below a
                // later one, and the two have different names.
                lemma_recorded_below_entry(dir, first, a);
                let k = lemma_recorded_below_listing(dir, rest, b - head.len());
                assert(rest[k] == nodes[k + 1]);
                if all[a].path == all[b].path {
                    lemma_stems_from_one(all[a].path, dir, first.facts.name, rest[k].facts.name);
                }
            }
        }
    }
}

} // verus!
