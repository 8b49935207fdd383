//! The walking machine: a work stack of the directories that are being
//! listed, advanced one entry at a time, and the walk of a tree held in
//! memory that it is proved on.

use vstd::prelude::*;
use vstd::string::*;
use crate::entry::{action_of, entry_action, DirEntry, EntryAction, EntryFacts};
use crate::inventory::{EntryModel, FileList};
use crate::path::{join_path, joined};
use crate::tree::{lemma_walk_from, walk_listing, walk_nodes, Node};

verus! {

/// One level of the work stack as the contracts see it: a directory, its
/// listing, and how many of its entries have been dealt with.
pub ghost struct FrameModel {
    pub dir: Seq<char>,
    pub entries: Seq<EntryFacts>,
    pub next: nat,
}

/// The walk's state as the contracts see it: the directories that are being
/// listed, the volume's root first and the current one last, and the entries
/// recorded so far.
pub ghost struct WalkerModel {
    pub stack: Seq<FrameModel>,
    pub found: Seq<EntryModel>,
}

/// What one step of the walk did, as the contracts see it.
pub ghost enum StepModel {
    Done,
    Ascended,
    Ignored,
    Recorded,
    Descend(Seq<char>),
}

/// One step of the walk. With no directory left, the walk is done. With the
/// current directory's entries all dealt with, the walk goes back to its
/// parent. Otherwise the next entry of the current directory is dealt with:
/// ignored, recorded, or named as the directory to list next.
pub open spec fn step_of(w: WalkerModel) -> (WalkerModel, StepModel) {
    if w.stack.len() == 0 {
        (w, StepModel::Done)
    } else {
        let top = w.stack.last();
        if top.next >= top.entries.len() {
            (WalkerModel { stack: w.stack.drop_last(), found: w.found }, StepModel::Ascended)
        } else {
            let entry = top.entries[top.next as int];
            let stack = w.stack.drop_last().push(
                FrameModel { dir: top.dir, entries: top.entries, next: top.next + 1 },
            );
            match action_of(entry) {
                EntryAction::Ignore => (WalkerModel { stack, found: w.found }, StepModel::Ignored),
                EntryAction::Record => (
                    WalkerModel {
                        stack,
                        found: w.found.push(
                            EntryModel { path: joined(top.dir, entry.name), size: entry.size },
                        ),
                    },
                    StepModel::Recorded,
                ),
                EntryAction::Descend => (
                    WalkerModel { stack, found: w.found },
                    StepModel::Descend(joined(top.dir, entry.name)),
                ),
            }
        }
    }
}

/// What one step of the walk did.
#[derive(Debug)]
pub enum Step {
    /// No directory is left: the inventory is complete.
    Done,
    /// The current directory is exhausted; the walk is back in its parent.
    Ascended,
    /// The next entry was passed over.
    Ignored,
    /// The next entry was recorded in the inventory.
    Recorded,
    /// The next entry is a directory with this path: the caller lists it and
    /// hands the listing to `enter`, or does nothing where it cannot be
    /// listed.
    Descend(String),
}

impl View for Step {
    type V = StepModel;

    open spec fn view(&self) -> StepModel {
        match self {
            Step::Done => StepModel::Done,
            Step::Ascended => StepModel::Ascended,
            Step::Ignored => StepModel::Ignored,
            Step::Recorded => StepModel::Recorded,
            Step::Descend(path) => StepModel::Descend(path@),
        }
    }
}

/// One level of the work stack.
struct Frame {
    dir: String,
    entries: Vec<DirEntry>,
    next: usize,
}

impl View for Frame {
    type V = FrameModel;

    closed spec fn view(&self) -> FrameModel {
        FrameModel {
            dir: self.dir@,
            entries: Seq::new(self.entries@.len(), |i: int| self.entries@[i]@),
            next: self.next as nat,
        }
    }
}

/// The walk of one volume, with an explicit stack of the directories that are
/// being listed in place of recursion. The caller lists directories; the
/// walker decides what becomes of each entry.
pub struct Walker {
    stack: Vec<Frame>,
    found: FileList,
}

impl View for Walker {
    type V = WalkerModel;

    closed spec fn view(&self) -> WalkerModel {
        WalkerModel {
            stack: Seq::new(self.stack@.len(), |k: int| self.stack@[k]@),
            found: self.found@,
        }
    }
}

/// The facts of each entry of a listing.
pub open spec fn facts_of(entries: Seq<DirEntry>) -> Seq<EntryFacts> {
    Seq::new(entries.len(), |i: int| entries[i]@)
}

impl Walker {
    /// A walk that has listed nothing yet and recorded nothing.
    pub fn new() -> (walker: Walker)
        ensures
            walker@ == (WalkerModel { stack: Seq::empty(), found: Seq::empty() }),
    {
        let walker = Walker { stack: Vec::new(), found: FileList::new() };
        assert(walker@.stack =~= Seq::empty());
        walker
    }

    /// The number of directories that are being listed.
    pub fn depth(&self) -> (depth: usize)
        ensures
            depth == self@.stack.len(),
    {
        self.stack.len()
    }

    /// Makes `dir`, whose listing is `entries`, the current directory.
    pub fn enter(&mut self, dir: String, entries: Vec<DirEntry>)
        ensures
            final(self)@.found == old(self)@.found,
            final(self)@.stack == old(self)@.stack.push(
                FrameModel { dir: dir@, entries: facts_of(entries@), next: 0 },
            ),
    {
        self.stack.push(Frame { dir, entries, next: 0 });
    }

    /// Takes one step of the walk.
    pub fn step(&mut self) -> (step: Step)
        ensures
            (final(self)@, step@) == step_of(old(self)@),
    {
        match self.stack.pop() {
            None => Step::Done,
            Some(frame) => {
                assert(self@.stack =~= old(self)@.stack.drop_last());
                if frame.next >= frame.entries.len() {
                    Step::Ascended
                } else {
                    let entry = &frame.entries[frame.next];
                    let step = match entry_action(entry) {
                        EntryAction::Ignore => Step::Ignored,
                        EntryAction::Record => {
                            let path = join_path(frame.dir.as_str(), entry.name.as_str());
                            self.found.add(path.as_str(), entry.size);
                            Step::Recorded
                        },
                        EntryAction::Descend => Step::Descend(
                            join_path(frame.dir.as_str(), entry.name.as_str()),
                        ),
                    };
                    let ghost top = frame@;
                    let advanced = Frame {
                        dir: frame.dir,
                        entries: frame.entries,
                        next: frame.next + 1,
                    };
                    self.stack.push(advanced);
                    assert(self@.stack =~= old(self)@.stack.drop_last().push(
                        FrameModel { dir: top.dir, entries: top.entries, next: top.next + 1 },
                    ));
                    step
                }
            },
        }
    }

    /// Ends the walk and hands out what it recorded.
    pub fn into_inventory(self) -> (list: FileList)
        ensures
            list@ == self@.found,
    {
        self.found
    }
}

/// A directory tree held in memory: an entry, and for a directory the
/// listing it gives, `None` where it cannot be listed.
#[derive(Debug)]
pub struct TreeNode {
    pub entry: DirEntry,
    pub listing: Option<Vec<TreeNode>>,
}

/// The tree that a `TreeNode` stands for.
pub open spec fn node_model(node: TreeNode) -> Node
    decreases node, 0nat,
{
    Node {
        facts: node.entry@,
        listing: match node.listing {
            None => None,
            Some(children) => Some(nodes_model(children@)),
        },
    }
}

/// The listing that a sequence of `TreeNode`s stands for.
pub open spec fn nodes_model(nodes: Seq<TreeNode>) -> Seq<Node>
    decreases nodes, 1nat,
{
    if nodes.len() == 0 {
        Seq::empty()
    } else {
        nodes_model(nodes.drop_last()).push(node_model(nodes.last()))
    }
}

/// The listing of a root: `None` where the root cannot be listed.
pub open spec fn listing_model(listing: Option<Vec<TreeNode>>) -> Option<Seq<Node>> {
    match listing {
        None => None,
        Some(nodes) => Some(nodes_model(nodes@)),
    }
}

impl View for TreeNode {
    type V = Node;

    open spec fn view(&self) -> Node {
        node_model(*self)
    }
}

/// The model of a listing has the model of each node at the node's place.
pub proof fn lemma_nodes_model(nodes: Seq<TreeNode>)
    ensures
        nodes_model(nodes).len() == nodes.len(),
        forall|i: int| 0 <= i < nodes.len() ==> nodes_model(nodes)[i] == node_model(nodes[i]),
    decreases nodes.len(),
{
    if nodes.len() > 0 {
        lemma_nodes_model(nodes.drop_last());
    }
}

/// What is still to be recorded for the lowest `n` levels of the work stack,
/// where level `k` lists `levels[k]`: the rest of the current directory
/// first, then the rest of its parent, and so on down to the root.
pub open spec fn pending(stack: Seq<FrameModel>, levels: Seq<Seq<Node>>, n: nat) -> Seq<
    EntryModel,
>
    decreases n,
{
    if n == 0 {
        Seq::empty()
    } else {
        walk_nodes(stack[n - 1].dir, levels[n - 1].skip(stack[n - 1].next as int)) + pending(
            stack,
            levels,
            (n - 1) as nat,
        )
    }
}

proof fn lemma_pending_agrees(
    stack1: Seq<FrameModel>,
    levels1: Seq<Seq<Node>>,
    stack2: Seq<FrameModel>,
    levels2: Seq<Seq<Node>>,
    n: nat,
)
    requires
        forall|k: int| 0 <= k < n ==> stack1[k] == stack2[k] && levels1[k] == levels2[k],
    ensures
        pending(stack1, levels1, n) == pending(stack2, levels2, n),
    decreases n,
{
    if n > 0 {
        lemma_pending_agrees(stack1, levels1, stack2, levels2, (n - 1) as nat);
    }
}

/// A bound on the steps that the walk of one entry and its subtree takes.
spec fn node_weight(node: Node) -> nat
    decreases node, 0nat,
{
    match node.listing {
        None => 1,
        Some(children) => 2 + nodes_weight(children),
    }
}

spec fn nodes_weight(nodes: Seq<Node>) -> nat
    decreases nodes, 1nat,
{
    if nodes.len() == 0 {
        0
    } else {
        node_weight(nodes.first()) + nodes_weight(nodes.drop_first())
    }
}

proof fn lemma_weight_from(nodes: Seq<Node>, k: int)
    requires
        0 <= k < nodes.len(),
    ensures
        nodes_weight(nodes.skip(k)) == node_weight(nodes[k]) + nodes_weight(nodes.skip(k + 1)),
        node_weight(nodes[k]) >= 1,
{
    assert(nodes.skip(k).drop_first() =~= nodes.skip(k + 1));
}

/// A bound on the steps that are left for the lowest `n` levels.
spec fn stack_weight(stack: Seq<FrameModel>, levels: Seq<Seq<Node>>, n: nat) -> nat
    decreases n,
{
    if n == 0 {
        0
    } else {
        1 + nodes_weight(levels[n - 1].skip(stack[n - 1].next as int)) + stack_weight(
            stack,
            levels,
            (n - 1) as nat,
        )
    }
}

proof fn lemma_weight_agrees(
    stack1: Seq<FrameModel>,
    levels1: Seq<Seq<Node>>,
    stack2: Seq<FrameModel>,
    levels2: Seq<Seq<Node>>,
    n: nat,
)
    requires
        forall|k: int| 0 <= k < n ==> stack1[k] == stack2[k] && levels1[k] == levels2[k],
    ensures
        stack_weight(stack1, levels1, n) == stack_weight(stack2, levels2, n),
    decreases n,
{
    if n > 0 {
        lemma_weight_agrees(stack1, levels1, stack2, levels2, (n - 1) as nat);
    }
}

/// The listings that the levels of the in-memory walk stand for.
spec fn level_models(levels: Seq<&Vec<TreeNode>>) -> Seq<Seq<Node>> {
    Seq::new(levels.len(), |k: int| nodes_model(levels[k]@))
}

/// Whether each level of the work stack holds the entries of the listing that
/// stands beside it.
spec fn levels_match(stack: Seq<FrameModel>, levels: Seq<Seq<Node>>) -> bool {
    &&& stack.len() == levels.len()
    &&& forall|k: int|
        0 <= k < stack.len() ==> {
            &&& (#[trigger] stack[k]).entries.len() == levels[k].len()
            &&& stack[k].next <= levels[k].len()
            &&& forall|i: int|
                0 <= i < levels[k].len() ==> stack[k].entries[i] == (#[trigger] levels[k][i]).facts
        }
}

/// Copies the entries of a listing out of the tree.
fn entries_of(nodes: &Vec<TreeNode>) -> (entries: Vec<DirEntry>)
    ensures
        entries@.len() == nodes@.len(),
        forall|i: int| 0 <= i < nodes@.len() ==> entries@[i]@ == nodes@[i].entry@,
{
    let mut entries: Vec<DirEntry> = Vec::new();
    let mut i: usize = 0;
    while i < nodes.len()
        invariant
            i <= nodes@.len(),
            entries@.len() == i,
            forall|j: int| 0 <= j < i ==> entries@[j]@ == nodes@[j].entry@,
        decreases nodes@.len() - i,
    {
        entries.push(nodes[i].entry.duplicate());
        i += 1;
    }
    entries
}

/// Walks a directory tree held in memory, rooted at the path `root`, and
/// returns its inventory. The tree is walked with the same machine that
/// walks a volume.
pub fn walk_tree(root: &str, listing: &Option<Vec<TreeNode>>) -> (list: FileList)
    ensures
        list@ == walk_listing(root@, listing_model(*listing)),
{
    let mut walker = Walker::new();
    let mut levels: Vec<&Vec<TreeNode>> = Vec::new();
    let ghost target = walk_listing(root@, listing_model(*listing));
    match listing {
        None => {
            return walker.into_inventory();
        },
        Some(nodes) => {
            let entries = entries_of(nodes);
            walker.enter(String::from_str(root), entries);
            levels.push(nodes);
            proof {
                lemma_nodes_model(nodes@);
                assert(nodes_model(nodes@).skip(0) =~= nodes_model(nodes@));
                assert(pending(walker@.stack, level_models(levels@), 0) =~= Seq::empty());
            }
        },
    }
    while walker.depth() > 0
        invariant
            levels_match(walker@.stack, level_models(levels@)),
            walker@.found + pending(
                walker@.stack,
                level_models(levels@),
                walker@.stack.len(),
            ) == target,
        decreases stack_weight(walker@.stack, level_models(levels@), walker@.stack.len()),
    {
        let ghost before = walker@;
        let ghost models = level_models(levels@);
        let ghost n = before.stack.len();
        let ghost top = before.stack.last();
        let step = walker.step();
        proof {
            // The step leaves the levels below the current one as they were,
            // and takes at most the next entry off the current one.
            lemma_pending_agrees(before.stack, models, walker@.stack, models, (n - 1) as nat);
            lemma_weight_agrees(before.stack, models, walker@.stack, models, (n - 1) as nat);
            if top.next < top.entries.len() {
                lemma_walk_from(top.dir, models[n - 1], top.next as int);
                lemma_weight_from(models[n - 1], top.next as int);
            }
        }
        match step {
            Step::Done => {},
            Step::Ascended => {
                levels.pop();
                proof {
                    // Nothing was left of the level that is gone.
                    let after = level_models(levels@);
                    lemma_pending_agrees(
                        walker@.stack,
                        models,
                        walker@.stack,
                        after,
                        (n - 1) as nat,
                    );
                    lemma_weight_agrees(
                        walker@.stack,
                        models,
                        walker@.stack,
                        after,
                        (n - 1) as nat,
                    );
                }
            },
            Step::Ignored => {},
            Step::Recorded => {
                assert(walker@.found + pending(walker@.stack, models, n) =~= target);
            },
            Step::Descend(path) => {
                let last = levels.len() - 1;
                let level: &Vec<TreeNode> = levels[last];
                proof {
                    assert(walker@.stack.len() == n);
                    lemma_nodes_model(level@);
                }
                let index = walker.stack[last].next - 1;
                let node = &level[index];
                match &node.listing {
                    None => {},
                    Some(children) => {
                        let ghost entered = walker@;
                        let entries = entries_of(children);
                        walker.enter(path, entries);
                        levels.push(children);
                        proof {
                            // What the walk records below the directory is
                            // now what is left of the new level.
                            let after = level_models(levels@);
                            let kids = nodes_model(children@);
                            lemma_nodes_model(children@);
                            assert(kids.skip(0) =~= kids);
                            lemma_pending_agrees(entered.stack, models, walker@.stack, after, n);
                            lemma_weight_agrees(entered.stack, models, walker@.stack, after, n);
                        }
                    },
                }
            },
        }
    }
    walker.into_inventory()
}

/// Walks the directory `path`, whose tree is held in memory, and appends to
/// `list` every regular file below it that passes the filter. What `list`
/// held before stays in front; a directory that cannot be listed adds
/// nothing.
pub fn process_directory(path: &str, listing: &Option<Vec<TreeNode>>, list: &mut FileList)
    ensures
        final(list)@ == old(list)@ + walk_listing(path@, listing_model(*listing)),
{
    let mut found = walk_tree(path, listing);
    list.entries.append(&mut found.entries);
}

} // verus!
