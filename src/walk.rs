use vstd::prelude::*;

verus! {

/// One entry of a directory listing.
#[derive(Clone, Debug)]
pub struct Entry {
    /// The entry's full path.
    pub path: String,
    /// Whether the path names a directory (after following links).
    pub is_dir: bool,
}

/// What a walk asks of its driver next.
#[derive(Debug)]
pub enum WalkStep {
    /// This entry is visited now.
    Visit(Entry),
    /// Every entry has been visited.
    Done,
}

/// A depth-first, pre-order walk of a directory tree.
///
/// The walk holds the entries still to visit and, after it has visited a
/// directory, the path whose listing it needs before it can go on. Its driver
/// answers a waiting walk with `listed`, and otherwise asks for the next step
/// with `next`. A failed listing ends the walk: the driver drops it and
/// reports the error.
pub struct Walk {
    /// Entries still to visit; the next one is the last.
    stack: Vec<Entry>,
    /// The directory whose listing is needed before the walk can go on.
    waiting: Option<String>,
}

impl Walk {
    /// The entries still to visit, the next one first.
    pub closed spec fn pending(&self) -> Seq<Entry> {
        Seq::new(self.stack@.len(), |i: int| self.stack@[self.stack@.len() - 1 - i])
    }

    /// The directory whose listing the walk needs next, if any.
    pub closed spec fn waiting_on(&self) -> Option<Seq<char>> {
        match self.waiting {
            Some(d) => Some(d@),
            None => None,
        }
    }

    /// Starts a walk of the tree under `root`. A root that is not a directory
    /// (or does not exist) gives a walk that is already finished: it visits
    /// nothing and fails on nothing. The root itself is never visited.
    pub fn new(root: String, root_is_dir: bool) -> (r: Walk)
        ensures
            r.pending() == Seq::<Entry>::empty(),
            r.waiting_on() == (if root_is_dir { Some(root@) } else { None::<Seq<char>> }),
    {
        let w = Walk { stack: Vec::new(), waiting: if root_is_dir { Some(root) } else { None } };
        assert(w.pending() =~= Seq::<Entry>::empty());
        w
    }

    /// The directory whose listing must be handed to `listed` before the walk
    /// can go on.
    pub fn awaiting(&self) -> (r: Option<String>)
        ensures
            (r is Some) == (self.waiting_on() is Some),
            r is Some ==> self.waiting_on() == Some(r->0@),
    {
        match &self.waiting {
            Some(d) => Some(d.clone()),
            None => None,
        }
    }

    /// Hands the walk the listing of the directory it waits on. The entries
    /// are visited in the order given, each one's subtree before the next
    /// entry, and all of them before anything that was pending.
    pub fn listed(&mut self, children: Vec<Entry>)
        requires
            old(self).waiting_on() is Some,
        ensures
            final(self).pending() == children@ + old(self).pending(),
            final(self).waiting_on() is None,
    {
        let ghost before = self.pending();
        let ghost all = children@;
        let mut children = children;
        while children.len() > 0
            invariant
                children@.len() <= all.len(),
                children@ == all.take(children@.len() as int),
                self.pending() == all.skip(children@.len() as int) + before,
            decreases children@.len(),
        {
            let ghost m = children@.len() as int;
            let ghost left = children@;
            let c = children.pop().unwrap();
            assert(c == all[m - 1]) by {
                assert(left[m - 1] == all.take(m)[m - 1]);
            }
            let ghost prev = self.pending();
            self.stack.push(c);
            assert(self.pending() =~= seq![c] + prev);
            assert(all.skip(m - 1) =~= seq![c] + all.skip(m));
            assert(children@ =~= all.take(m - 1));
            assert(self.pending() =~= all.skip(m - 1) + before);
        }
        assert(all.skip(0) =~= all);
        self.waiting = None;
    }

    /// Visits the next pending entry, or reports that the walk is done. After
    /// a directory is visited the walk waits on its listing.
    pub fn next(&mut self) -> (r: WalkStep)
        requires
            old(self).waiting_on() is None,
        ensures
            old(self).pending().len() == 0 ==> r is Done && final(self).pending() == old(self).pending()
                && final(self).waiting_on() is None,
            old(self).pending().len() > 0 ==> {
                let e = old(self).pending()[0];
                &&& r == WalkStep::Visit(e)
                &&& final(self).pending() == old(self).pending().drop_first()
                &&& final(self).waiting_on() == (if e.is_dir { Some(e.path@) } else { None::<Seq<char>> })
            },
    {
        let ghost before = self.pending();
        match self.stack.pop() {
            None => WalkStep::Done,
            Some(e) => {
                assert(self.pending() =~= before.drop_first());
                if e.is_dir {
                    self.waiting = Some(e.path.clone());
                }
                WalkStep::Visit(e)
            },
        }
    }
}

/// A directory tree as a walk meets it: an entry and, for a directory, the
/// trees of the entries its listing gives, in listing order.
pub struct Tree {
    pub entry: Entry,
    pub children: Seq<Tree>,
}

/// The entries of a sequence of trees in pre-order: each tree's entry, then
/// its children's trees, then the next tree.
pub open spec fn preorder(ts: Seq<Tree>) -> Seq<Entry>
    decreases ts,
{
    if ts.len() == 0 {
        Seq::empty()
    } else {
        seq![ts[0].entry] + preorder(ts[0].children) + preorder(ts.drop_first())
    }
}

/// The entries at the top of a sequence of trees.
pub open spec fn roots(ts: Seq<Tree>) -> Seq<Entry> {
    ts.map_values(|t: Tree| t.entry)
}

proof fn lemma_preorder_concat(a: Seq<Tree>, b: Seq<Tree>)
    ensures
        preorder(a + b) == preorder(a) + preorder(b),
    decreases a.len(),
{
    if a.len() == 0 {
        assert(a + b =~= b);
    } else {
        assert((a + b)[0] == a[0]);
        assert((a + b).drop_first() =~= a.drop_first() + b);
        lemma_preorder_concat(a.drop_first(), b);
    }
}

/// A walk visits a forest in pre-order. While its pending entries are the
/// roots of `ts`, `next` visits the first root and, for a directory,
/// `listed` with that directory's listing leaves as pending the roots of its
/// children followed by the other trees; the pre-order of the forest is that
/// first entry followed by the pre-order of what is left pending. So, step by
/// step, every entry of the tree is visited exactly once, and each directory
/// before everything under it.
pub proof fn lemma_walk_preorder(ts: Seq<Tree>)
    requires
        ts.len() > 0,
    ensures
        preorder(ts) == seq![ts[0].entry] + preorder(ts[0].children + ts.drop_first()),
        roots(ts[0].children + ts.drop_first()) == roots(ts[0].children) + roots(ts).drop_first(),
        roots(ts)[0] == ts[0].entry,
        preorder(seq![ts[0]]) == seq![ts[0].entry] + preorder(ts[0].children),
{
    let one = seq![ts[0]];
    assert(one.drop_first() =~= Seq::<Tree>::empty());
    assert(preorder(one.drop_first()) == Seq::<Entry>::empty());
    assert(seq![ts[0].entry] + preorder(ts[0].children) + Seq::<Entry>::empty()
        =~= seq![ts[0].entry] + preorder(ts[0].children));
    lemma_preorder_concat(ts[0].children, ts.drop_first());
    assert(roots(ts[0].children + ts.drop_first()) =~= roots(ts[0].children) + roots(ts).drop_first());
}

} // verus!
