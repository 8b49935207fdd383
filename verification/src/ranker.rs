//! The ranking of an inventory: its largest files, largest first.

use vstd::prelude::*;
use crate::inventory::{EntryModel, FileEntry, FileList};

verus! {

/// How many entries the ranking of a volume holds at most.
pub const TOP_COUNT: usize = 100;

/// Whether the entry at `a` stands before the entry at `b` in the ranking:
/// the larger one first, and of two of one size the one found first.
pub open spec fn outranks(s: Seq<EntryModel>, a: int, b: int) -> bool {
    s[a].size > s[b].size || (s[a].size == s[b].size && a < b)
}

/// Whether `order` ranks the first `count` entries of `s`: it names
/// `min(count, limit)` of them, each before every one that it names later and
/// before every one that it leaves out.
pub open spec fn ranks_prefix(s: Seq<EntryModel>, count: int, limit: int, order: Seq<int>) -> bool {
    &&& order.len() == if count <= limit {
        count
    } else {
        limit
    }
    &&& forall|k: int| 0 <= k < order.len() ==> 0 <= #[trigger] order[k] < count
    &&& forall|j: int, k: int|
        0 <= j < k < order.len() ==> outranks(s, #[trigger] order[j], #[trigger] order[k])
    &&& forall|k: int, b: int|
        #![trigger order[k], order.contains(b)]
        0 <= k < order.len() && 0 <= b < count && !order.contains(b) ==> outranks(s, order[k], b)
}

/// Whether `order` is the ranking of `s` cut off at `limit`: the positions of
/// its `min(len, limit)` largest entries, largest first, entries of one size
/// in the order in which they were found.
pub open spec fn is_ranking(s: Seq<EntryModel>, limit: int, order: Seq<int>) -> bool {
    ranks_prefix(s, s.len() as int, limit, order)
}

/// The ranking of `s` cut off at `limit`, as positions in `s`.
pub open spec fn ranking_of(s: Seq<EntryModel>, limit: int) -> Seq<int> {
    choose|order: Seq<int>| is_ranking(s, limit, order)
}

/// The ranked entries of `s`: its `min(len, limit)` largest, largest first.
pub open spec fn top_ranked(s: Seq<EntryModel>, limit: int) -> Seq<EntryModel> {
    let order = ranking_of(s, limit);
    Seq::new(order.len(), |k: int| s[order[k]])
}

/// An inventory has one ranking only.
pub proof fn lemma_ranking_unique(s: Seq<EntryModel>, limit: int, first: Seq<int>, second: Seq<int>)
    requires
        is_ranking(s, limit, first),
        is_ranking(s, limit, second),
    ensures
        first == second,
{
    assert forall|k: int| 0 <= k < first.len() implies first[k] == second[k] by {
        lemma_rankings_agree(s, limit, first, second, k);
    }
}

proof fn lemma_rankings_agree(
    s: Seq<EntryModel>,
    limit: int,
    first: Seq<int>,
    second: Seq<int>,
    k: int,
)
    requires
        is_ranking(s, limit, first),
        is_ranking(s, limit, second),
        0 <= k < first.len(),
    ensures
        first[k] == second[k],
    decreases k,
{
    if k > 0 {
        lemma_rankings_agree(s, limit, first, second, k - 1);
    }
    assert forall|j: int| 0 <= j < k implies first[j] == second[j] by {
        lemma_rankings_agree(s, limit, first, second, j);
    }
    lemma_not_ahead(s, limit, first, second, k);
    lemma_not_ahead(s, limit, second, first, k);
}

/// Of two rankings that agree before `k`, neither has at `k` an entry that
/// stands before the other's.
proof fn lemma_not_ahead(
    s: Seq<EntryModel>,
    limit: int,
    first: Seq<int>,
    second: Seq<int>,
    k: int,
)
    requires
        is_ranking(s, limit, first),
        is_ranking(s, limit, second),
        0 <= k < first.len(),
        forall|j: int| 0 <= j < k ==> first[j] == second[j],
    ensures
        !outranks(s, first[k], second[k]),
{
    let a = first[k];
    if outranks(s, a, second[k]) {
        if second.contains(a) {
            // The second ranking names `a` too, and not before `k`, where it
            // agrees with the first: so behind `second[k]`, which then
            // stands before `a`.
            let j = choose|j: int| 0 <= j < second.len() && second[j] == a;
            if j < k {
                assert(outranks(s, first[j], first[k]));
            } else {
                assert(outranks(s, second[k], second[j]));
            }
        } else {
            // The second ranking leaves `a` out: all that it names stand
            // before `a`.
            assert(outranks(s, second[k], a));
        }
    }
}

/// The order that comes of placing the entry `x` at `at` in `order` and
/// keeping at most `limit` positions.
pub open spec fn placed(order: Seq<int>, at: int, x: int, limit: int) -> Seq<int> {
    if at < limit {
        let grown = order.insert(at, x);
        if grown.len() > limit {
            grown.drop_last()
        } else {
            grown
        }
    } else {
        order
    }
}

/// Whether `order` names every one of the first `count` entries while the
/// limit is not reached.
spec fn names_all(order: Seq<int>, count: int, limit: int) -> bool {
    count <= limit ==> forall|b: int| 0 <= b < count ==> #[trigger] order.contains(b)
}

/// Placing the next entry behind the ranked entries that are not smaller
/// gives the ranking of one entry more.
proof fn lemma_place(s: Seq<EntryModel>, count: int, limit: int, order: Seq<int>, at: int)
    requires
        0 <= count < s.len(),
        0 <= limit,
        ranks_prefix(s, count, limit, order),
        names_all(order, count, limit),
        0 <= at <= order.len(),
        forall|q: int| at <= q < order.len() ==> s[#[trigger] order[q]].size < s[count].size,
        at > 0 ==> s[order[at - 1]].size >= s[count].size,
    ensures
        ranks_prefix(s, count + 1, limit, placed(order, at, count, limit)),
        names_all(placed(order, at, count, limit), count + 1, limit),
{
    let x = count;
    let m = order.len() as int;
    let next = placed(order, at, x, limit);
    // The entries before the place are not smaller than the new one and were
    // found earlier; those from the place on are smaller.
    assert forall|q: int| 0 <= q < at implies outranks(s, #[trigger] order[q], x) by {
        if q < at - 1 {
            assert(outranks(s, order[q], order[at - 1]));
        }
    }
    if at < limit {
        let grown = order.insert(at, x);
        order.insert_ensures(at, x);
        assert(grown[at] == x);
        assert forall|b: int| order.contains(b) implies grown.contains(b) by {
            let q = choose|q: int| 0 <= q < order.len() && order[q] == b;
            if q < at {
                assert(grown[q] == b);
            } else {
                assert(grown[q + 1] == b);
            }
        }
        if grown.len() > limit {
            // The ranking was full: its last entry leaves, and stands behind
            // all that stay.
            let last = order[m - 1];
            assert(grown[m] == last);
            assert forall|k: int| 0 <= k < next.len() implies next[k] == grown[k] by {}
            assert(next[at] == x);
            assert forall|k: int, b: int|
                #![trigger next[k], next.contains(b)]
                0 <= k < next.len() && 0 <= b < count + 1 && !next.contains(b) implies outranks(
                s,
                next[k],
                b,
            ) by {
                if b == last {
                    assert(outranks(s, grown[k], grown[m]));
                } else {
                    // An entry that was left out before: the last entry
                    // stood before it, and the new one stands before the
                    // last.
                    if order.contains(b) {
                        let q = choose|q: int| 0 <= q < order.len() && order[q] == b;
                        if q < at {
                            assert(next[q] == b);
                        } else {
                            assert(next[q + 1] == b);
                        }
                    }
                    assert(outranks(s, order[m - 1], b));
                    assert(outranks(s, x, order[m - 1]));
                }
            }
        } else {
            // The ranking was not full: it named every entry, and names the
            // new one too.
            assert(next.contains(x));
            assert forall|b: int| 0 <= b < count + 1 implies #[trigger] next.contains(b) by {
                if b < count {
                    assert(order.contains(b));
                }
            }
        }
    }
}

/// A place for the next entry among the first `m` ranked ones: behind those
/// that are not smaller, before those that are.
proof fn lemma_find_place(s: Seq<EntryModel>, order: Seq<int>, x: int, m: int) -> (at: int)
    requires
        0 <= m <= order.len(),
        forall|q: int| m <= q < order.len() ==> s[#[trigger] order[q]].size < s[x].size,
    ensures
        0 <= at <= m,
        forall|q: int| at <= q < order.len() ==> s[#[trigger] order[q]].size < s[x].size,
        at > 0 ==> s[order[at - 1]].size >= s[x].size,
    decreases m,
{
    if m == 0 || s[order[m - 1]].size >= s[x].size {
        m
    } else {
        lemma_find_place(s, order, x, m - 1)
    }
}

proof fn lemma_prefix_ranking(s: Seq<EntryModel>, count: int, limit: int) -> (order: Seq<int>)
    requires
        0 <= count <= s.len(),
        0 <= limit,
    ensures
        ranks_prefix(s, count, limit, order),
        names_all(order, count, limit),
    decreases count,
{
    if count == 0 {
        Seq::empty()
    } else {
        let before = lemma_prefix_ranking(s, count - 1, limit);
        let at = lemma_find_place(s, before, count - 1, before.len() as int);
        lemma_place(s, count - 1, limit, before, at);
        placed(before, at, count - 1, limit)
    }
}

/// Every inventory has a ranking, so `ranking_of` is the ranking.
pub proof fn lemma_ranking_exists(s: Seq<EntryModel>, limit: int)
    requires
        0 <= limit,
    ensures
        is_ranking(s, limit, ranking_of(s, limit)),
{
    let order = lemma_prefix_ranking(s, s.len() as int, limit);
    assert(is_ranking(s, limit, order));
}

/// The ranked entries are `min(len, limit)` in number, stand in descending
/// order of size, and are entries of the inventory.
pub proof fn lemma_top_ranked(s: Seq<EntryModel>, limit: int)
    requires
        0 <= limit,
    ensures
        top_ranked(s, limit).len() == if s.len() <= limit {
            s.len() as int
        } else {
            limit
        },
        forall|j: int, k: int|
            0 <= j < k < top_ranked(s, limit).len() ==> top_ranked(s, limit)[j].size >= top_ranked(
                s,
                limit,
            )[k].size,
        forall|k: int|
            0 <= k < top_ranked(s, limit).len() ==> s.contains(#[trigger] top_ranked(s, limit)[k]),
{
    lemma_ranking_exists(s, limit);
    let order = ranking_of(s, limit);
    let top = top_ranked(s, limit);
    assert forall|j: int, k: int| 0 <= j < k < top.len() implies top[j].size >= top[k].size by {
        assert(outranks(s, order[j], order[k]));
    }
    assert forall|k: int| 0 <= k < top.len() implies s.contains(#[trigger] top[k]) by {
        assert(s[order[k]] == top[k]);
    }
}

/// The positions that a vector of indices holds.
pub open spec fn positions(order: Seq<usize>) -> Seq<int> {
    Seq::new(order.len(), |k: int| order[k] as int)
}

/// Ranks an inventory: the positions of its `min(len, limit)` largest
/// entries, largest first, entries of one size in the order in which they
/// were found.
pub fn ranking_order(list: &FileList, limit: usize) -> (order: Vec<usize>)
    ensures
        is_ranking(list@, limit as int, positions(order@)),
        positions(order@) == ranking_of(list@, limit as int),
{
    let n = list.entries.len();
    let mut order: Vec<usize> = Vec::new();
    let mut i: usize = 0;
    while i < n
        invariant
            n == list.entries@.len(),
            n == list@.len(),
            i <= n,
            ranks_prefix(list@, i as int, limit as int, positions(order@)),
            names_all(positions(order@), i as int, limit as int),
        decreases n - i,
    {
        let size = list.entries[i].size;
        let ghost ids = positions(order@);
        let mut at: usize = order.len();
        assert forall|k: int| 0 <= k < order@.len() implies #[trigger] order@[k] < i by {
            assert(ids[k] == order@[k]);
        }
        while at > 0 && list.entries[order[at - 1]].size < size
            invariant
                n == list.entries@.len(),
                n == list@.len(),
                i < n,
                size == list@[i as int].size,
                ids == positions(order@),
                at <= order@.len(),
                forall|k: int| 0 <= k < order@.len() ==> #[trigger] order@[k] < i,
                forall|q: int| at <= q < ids.len() ==> list@[#[trigger] ids[q]].size < size,
            decreases at,
        {
            at -= 1;
        }
        proof {
            lemma_place(list@, i as int, limit as int, ids, at as int);
        }
        if at < limit {
            order.insert(at, i);
            assert(positions(order@) =~= ids.insert(at as int, i as int));
            if order.len() > limit {
                order.pop();
                assert(positions(order@) =~= ids.insert(at as int, i as int).drop_last());
            }
        }
        i += 1;
    }
    proof {
        lemma_ranking_unique(
            list@,
            limit as int,
            positions(order@),
            ranking_of(list@, limit as int),
        );
    }
    order
}

/// The models of a vector of entries.
pub open spec fn models_of(entries: Seq<FileEntry>) -> Seq<EntryModel> {
    Seq::new(entries.len(), |k: int| entries[k]@)
}

/// The `min(len, limit)` largest entries of an inventory, largest first;
/// entries of one size stand in the order in which they were found.
pub fn rank_top(list: &FileList, limit: usize) -> (ranked: Vec<FileEntry>)
    ensures
        models_of(ranked@) == top_ranked(list@, limit as int),
        ranked@.len() == if list@.len() <= limit {
            list@.len()
        } else {
            limit as nat
        },
        forall|j: int, k: int|
            0 <= j < k < ranked@.len() ==> ranked@[j].size >= ranked@[k].size,
{
    let order = ranking_order(list, limit);
    let ghost ids = positions(order@);
    let mut ranked: Vec<FileEntry> = Vec::new();
    let mut k: usize = 0;
    while k < order.len()
        invariant
            k <= order@.len(),
            ids == positions(order@),
            is_ranking(list@, limit as int, ids),
            ranked@.len() == k,
            forall|j: int| 0 <= j < k ==> ranked@[j]@ == list@[ids[j]],
        decreases order@.len() - k,
    {
        assert(ids[k as int] == order@[k as int]);
        ranked.push(list.entries[order[k]].duplicate());
        k += 1;
    }
    assert forall|j: int, k: int| 0 <= j < k < ranked@.len() implies ranked@[j].size
        >= ranked@[k].size by {
        assert(outranks(list@, ids[j], ids[k]));
    }
    ranked
}

/// The ranking that is reported for a volume: its `TOP_COUNT` largest files,
/// or all of them where it has fewer.
pub fn rank_largest(list: &FileList) -> (ranked: Vec<FileEntry>)
    ensures
        models_of(ranked@) == top_ranked(list@, TOP_COUNT as int),
        ranked@.len() == if list@.len() <= TOP_COUNT {
            list@.len()
        } else {
            TOP_COUNT as nat
        },
        forall|j: int, k: int|
            0 <= j < k < ranked@.len() ==> ranked@[j].size >= ranked@[k].size,
{
    rank_top(list, TOP_COUNT)
}

} // verus!
