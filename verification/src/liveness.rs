//! Backward liveness over the IR of one stage: the live-in set of a block
//! from its live-out set, the free variables of a (nested) block, and the
//! values live before each statement of a block.
//!
//! The IR is an arena of blocks; a statement names the blocks nested in it
//! (the arms of an `if`, the body of a `for`) by their index in the arena.

use vstd::prelude::*;

verus! {

/// A set of SSA values, kept as a vector whose view is the set of its
/// elements; every operation is proved against that view, which a
/// `HashSet` would not give.
pub struct VarSet {
    pub items: Vec<u64>,
}

impl VarSet {
    pub open spec fn view(&self) -> Set<u64> {
        self.items@.to_set()
    }

    pub fn new() -> (r: VarSet)
        ensures
            r.view() == Set::<u64>::empty(),
    {
        let r = VarSet { items: Vec::new() };
        proof {
            assert(r.view() =~= Set::<u64>::empty());
        }
        r
    }

    pub fn contains(&self, v: u64) -> (r: bool)
        ensures
            r == self.view().contains(v),
    {
        let mut i: usize = 0;
        while i < self.items.len()
            invariant
                0 <= i <= self.items@.len(),
                forall|j: int| 0 <= j < i ==> self.items@[j] != v,
            decreases self.items@.len() - i,
        {
            if self.items[i] == v {
                proof {
                    assert(self.items@.contains(v));
                }
                return true;
            }
            i = i + 1;
        }
        false
    }

    pub fn insert(&mut self, v: u64)
        ensures
            final(self).view() == old(self).view().insert(v),
    {
        if !self.contains(v) {
            self.items.push(v);
            proof {
                assert(self.view() =~= old(self).view().insert(v)) by {
                    assert forall|x: u64| old(self).view().insert(v).contains(x) implies self.view().contains(
                        x,
                    ) by {
                        if x == v {
                            assert(self.items@[self.items@.len() - 1] == v);
                        } else {
                            let j = choose|j: int| 0 <= j < old(self).items@.len() && old(self).items@[j] == x;
                            assert(self.items@[j] == x);
                        }
                    }
                }
            }
        } else {
            proof {
                assert(self.view() =~= old(self).view().insert(v));
            }
        }
    }

    pub fn duplicate(&self) -> (r: VarSet)
        ensures
            r.view() == self.view(),
    {
        VarSet::from_slice(&self.items)
    }

    /// Adds every value of `other` that `excluded` does not hold.
    pub fn add_all_except(&mut self, other: &VarSet, excluded: &VarSet)
        ensures
            final(self).view() == old(self).view().union(other.view().difference(excluded.view())),
    {
        let mut k: usize = 0;
        while k < other.items.len()
            invariant
                0 <= k <= other.items@.len(),
                self.view() == old(self).view().union(
                    other.items@.subrange(0, k as int).to_set().difference(excluded.view()),
                ),
            decreases other.items@.len() - k,
        {
            let v = other.items[k];
            if !excluded.contains(v) {
                self.insert(v);
            }
            proof {
                assert(other.items@.subrange(0, k + 1) =~= other.items@.subrange(0, k as int).push(v));
                other.items@.subrange(0, k as int).lemma_push_to_set_commute(v);
                assert(self.view() =~= old(self).view().union(
                    other.items@.subrange(0, k + 1).to_set().difference(excluded.view()),
                ));
            }
            k = k + 1;
        }
        proof {
            assert(other.items@.subrange(0, other.items@.len() as int) =~= other.items@);
        }
    }

    /// The set of the values in `s`.
    pub fn from_slice(s: &Vec<u64>) -> (r: VarSet)
        ensures
            r.view() == s@.to_set(),
    {
        let mut r = VarSet::new();
        let mut i: usize = 0;
        while i < s.len()
            invariant
                0 <= i <= s@.len(),
                forall|x: u64|
                    r.view().contains(x) <==> (exists|j: int| 0 <= j < i && #[trigger] s@[j] == x),
            decreases s@.len() - i,
        {
            r.insert(s[i]);
            proof {
                assert forall|x: u64|
                    r.view().contains(x) <==> (exists|j: int| 0 <= j < i + 1 && #[trigger] s@[j] == x) by {
                    if x == s@[i as int] {
                        assert(s@[i as int] == x);
                    }
                }
            }
            i = i + 1;
        }
        proof {
            assert(r.view() =~= s@.to_set());
        }
        r
    }
}

/// A statement: the values it reads, the values it defines, and the blocks
/// nested in it, by arena index.
pub struct StatementModel {
    pub id: u64,
    pub arguments: Vec<u64>,
    pub results: Vec<u64>,
    pub blocks: Vec<usize>,
}

/// A block: its arguments, its statements and its terminator.
pub struct BlockModel {
    pub arguments: Vec<u64>,
    pub statements: Vec<StatementModel>,
    pub terminator: Option<StatementModel>,
}

/// The blocks of a stage's IR.
pub struct IrModel {
    pub blocks: Vec<BlockModel>,
}

/// The statements of a block in execution order: its statements, then its
/// terminator.
pub open spec fn body(b: BlockModel) -> Seq<StatementModel> {
    match b.terminator {
        Some(t) => b.statements@.push(t),
        None => b.statements@,
    }
}

/// Walks `stmts` forward from the definitions `init`: the values defined
/// after them, and the values they read before any definition.
pub open spec fn upward_scan(init: Set<u64>, stmts: Seq<StatementModel>) -> (Set<u64>, Set<u64>)
    decreases stmts.len(),
{
    if stmts.len() == 0 {
        (init, Set::empty())
    } else {
        let (d, u) = upward_scan(init, stmts.drop_last());
        let st = stmts.last();
        (d.union(st.results@.to_set()), u.union(st.arguments@.to_set().difference(d)))
    }
}

/// The live-in set of a block whose live-out set is `live_out`: what it
/// reads before defining, and what is live after it and not defined in it.
pub open spec fn spec_transfer(b: BlockModel, live_out: Set<u64>) -> Set<u64> {
    let (d, u) = upward_scan(b.arguments@.to_set(), body(b));
    u.union(live_out.difference(d))
}

impl IrModel {
    /// Every block nested in a statement of block `i` has a smaller index
    /// than `i`: nesting is acyclic.
    pub open spec fn nesting_ok(self) -> bool {
        forall|i: int, k: int, m: int|
            0 <= i < self.blocks@.len() && 0 <= k < body(self.blocks@[i]).len() && 0 <= m < body(
                self.blocks@[i],
            )[k].blocks@.len() ==> #[trigger] body(self.blocks@[i])[k].blocks@[m] < i
    }

    /// The values a block (and the blocks nested in it) reads that are not
    /// defined in it before the read.
    pub open spec fn free_vars(self, b: int) -> Set<u64>
        decreases b, 2int, 0int,
    {
        if 0 <= b < self.blocks@.len() {
            self.free_scan(b, self.blocks@[b].arguments@.to_set(), body(self.blocks@[b])).1
        } else {
            Set::empty()
        }
    }

    /// Walks the statements `stmts` of block `b` forward from the
    /// definitions `init`: the values defined, and the free values so far.
    pub open spec fn free_scan(self, b: int, init: Set<u64>, stmts: Seq<StatementModel>) -> (
        Set<u64>,
        Set<u64>,
    )
        decreases b, 1int, stmts.len(),
    {
        if stmts.len() == 0 {
            (init, Set::empty())
        } else {
            let (d, f) = self.free_scan(b, init, stmts.drop_last());
            let st = stmts.last();
            (
                d.union(st.results@.to_set()),
                f.union(st.arguments@.to_set().difference(d)).union(
                    self.nested_free(b, st.blocks@).difference(d),
                ),
            )
        }
    }

    /// The free values of the blocks `ids` nested in block `b`.
    pub open spec fn nested_free(self, b: int, ids: Seq<usize>) -> Set<u64>
        decreases b, 0int, ids.len(),
    {
        if ids.len() == 0 {
            Set::empty()
        } else {
            let last = ids.last() as int;
            self.nested_free(b, ids.drop_last()).union(
                if 0 <= last < b {
                    self.free_vars(last)
                } else {
                    Set::empty()
                },
            )
        }
    }

    /// The values live before statement `i` of `stmts` (statements of
    /// block `b`), going backward from an empty set after the last one: a
    /// statement's reads, including the free values of its nested blocks,
    /// plus what is live after it and not defined by it.
    pub open spec fn live_before(self, b: int, stmts: Seq<StatementModel>, i: int) -> Set<u64>
        decreases stmts.len() - i,
    {
        if i < 0 || i >= stmts.len() {
            Set::empty()
        } else {
            let st = stmts[i];
            let uses = st.arguments@.to_set().union(self.nested_free(b, st.blocks@));
            uses.union(self.live_before(b, stmts, i + 1).difference(st.results@.to_set()))
        }
    }
}

/// The join of two liveness facts: their union.
pub fn liveness_join(a: &VarSet, b: &VarSet) -> (r: VarSet)
    ensures
        r.view() == a.view().union(b.view()),
{
    let mut r = VarSet::from_slice(&a.items);
    let mut i: usize = 0;
    while i < b.items.len()
        invariant
            0 <= i <= b.items@.len(),
            r.view() == a.view().union(b.items@.subrange(0, i as int).to_set()),
        decreases b.items@.len() - i,
    {
        r.insert(b.items[i]);
        proof {
            assert(b.items@.subrange(0, i + 1) =~= b.items@.subrange(0, i as int).push(b.items@[i as int]));
            b.items@.subrange(0, i as int).lemma_push_to_set_commute(b.items@[i as int]);
            assert(r.view() =~= a.view().union(b.items@.subrange(0, i + 1).to_set()));
        }
        i = i + 1;
    }
    proof {
        assert(b.items@.subrange(0, b.items@.len() as int) =~= b.items@);
    }
    r
}

/// No value is live: the starting point of the backward analysis.
pub fn liveness_bottom() -> (r: VarSet)
    ensures
        r.view() == Set::<u64>::empty(),
{
    VarSet::new()
}

/// Adds to `defs` and `uses` what statement `st` defines and reads before a
/// definition.
fn scan_statement(st: &StatementModel, defs: &mut VarSet, uses: &mut VarSet)
    ensures
        final(defs).view() == old(defs).view().union(st.results@.to_set()),
        final(uses).view() == old(uses).view().union(st.arguments@.to_set().difference(old(defs).view())),
{
    let mut i: usize = 0;
    while i < st.arguments.len()
        invariant
            0 <= i <= st.arguments@.len(),
            defs.view() == old(defs).view(),
            uses.view() == old(uses).view().union(
                st.arguments@.subrange(0, i as int).to_set().difference(old(defs).view()),
            ),
        decreases st.arguments@.len() - i,
    {
        let v = st.arguments[i];
        if !defs.contains(v) {
            uses.insert(v);
        }
        proof {
            assert(st.arguments@.subrange(0, i + 1) =~= st.arguments@.subrange(0, i as int).push(v));
            st.arguments@.subrange(0, i as int).lemma_push_to_set_commute(v);
            assert(uses.view() =~= old(uses).view().union(
                st.arguments@.subrange(0, i + 1).to_set().difference(old(defs).view()),
            ));
        }
        i = i + 1;
    }
    proof {
        assert(st.arguments@.subrange(0, st.arguments@.len() as int) =~= st.arguments@);
    }
    let mut j: usize = 0;
    while j < st.results.len()
        invariant
            0 <= j <= st.results@.len(),
            defs.view() == old(defs).view().union(st.results@.subrange(0, j as int).to_set()),
            uses.view() == old(uses).view().union(st.arguments@.to_set().difference(old(defs).view())),
        decreases st.results@.len() - j,
    {
        let v = st.results[j];
        defs.insert(v);
        proof {
            assert(st.results@.subrange(0, j + 1) =~= st.results@.subrange(0, j as int).push(v));
            st.results@.subrange(0, j as int).lemma_push_to_set_commute(v);
            assert(defs.view() =~= old(defs).view().union(st.results@.subrange(0, j + 1).to_set()));
        }
        j = j + 1;
    }
    proof {
        assert(st.results@.subrange(0, st.results@.len() as int) =~= st.results@);
    }
}

/// The live-in set of `block` given its live-out set: the values read
/// before being defined in the block, plus the values live out that the
/// block does not define. Nested blocks are not looked into.
pub fn transfer_block(block: &BlockModel, live_out: &VarSet) -> (r: VarSet)
    ensures
        r.view() == spec_transfer(*block, live_out.view()),
{
    let mut defs = VarSet::from_slice(&block.arguments);
    let mut uses = VarSet::new();
    let ghost init = block.arguments@.to_set();
    let mut i: usize = 0;
    while i < block.statements.len()
        invariant
            0 <= i <= block.statements@.len(),
            init == block.arguments@.to_set(),
            (defs.view(), uses.view()) == upward_scan(init, block.statements@.subrange(0, i as int)),
        decreases block.statements@.len() - i,
    {
        scan_statement(&block.statements[i], &mut defs, &mut uses);
        proof {
            assert(block.statements@.subrange(0, i + 1).drop_last() =~= block.statements@.subrange(0, i as int));
        }
        i = i + 1;
    }
    proof {
        assert(block.statements@.subrange(0, block.statements@.len() as int) =~= block.statements@);
    }
    match &block.terminator {
        Some(t) => {
            scan_statement(t, &mut defs, &mut uses);
            proof {
                assert(body(*block).drop_last() =~= block.statements@);
            }
        },
        None => {},
    }
    let mut r = VarSet::from_slice(&uses.items);
    let mut k: usize = 0;
    while k < live_out.items.len()
        invariant
            0 <= k <= live_out.items@.len(),
            r.view() == uses.view().union(
                live_out.items@.subrange(0, k as int).to_set().difference(defs.view()),
            ),
        decreases live_out.items@.len() - k,
    {
        let v = live_out.items[k];
        if !defs.contains(v) {
            r.insert(v);
        }
        proof {
            assert(live_out.items@.subrange(0, k + 1) =~= live_out.items@.subrange(0, k as int).push(v));
            live_out.items@.subrange(0, k as int).lemma_push_to_set_commute(v);
            assert(r.view() =~= uses.view().union(
                live_out.items@.subrange(0, k + 1).to_set().difference(defs.view()),
            ));
        }
        k = k + 1;
    }
    proof {
        assert(live_out.items@.subrange(0, live_out.items@.len() as int) =~= live_out.items@);
    }
    r
}

impl IrModel {
    /// The free values of block `b`: what it and the blocks nested in it
    /// read that is not defined in `b` (by its arguments or an earlier
    /// statement) before the read.
    pub fn collect_free_vars(&self, b: usize) -> (r: VarSet)
        requires
            self.nesting_ok(),
            b < self.blocks@.len(),
        ensures
            r.view() == self.free_vars(b as int),
        decreases b, 2int, 0int,
    {
        let block = &self.blocks[b];
        let mut defs = VarSet::from_slice(&block.arguments);
        let mut free = VarSet::new();
        let ghost init = block.arguments@.to_set();
        let mut i: usize = 0;
        while i < block.statements.len()
            invariant
                self.nesting_ok(),
                b < self.blocks@.len(),
                *block == self.blocks@[b as int],
                0 <= i <= block.statements@.len(),
                init == block.arguments@.to_set(),
                (defs.view(), free.view()) == self.free_scan(
                    b as int,
                    init,
                    block.statements@.subrange(0, i as int),
                ),
            decreases block.statements@.len() - i,
        {
            proof {
                assert(body(*block)[i as int] == block.statements@[i as int]);
                assert forall|m: int| 0 <= m < block.statements@[i as int].blocks@.len() implies #[trigger] block.statements@[i as int].blocks@[m] < b by {
                    assert(body(self.blocks@[b as int])[i as int].blocks@[m] < b);
                }
            }
            self.free_statement(b, &block.statements[i], &mut defs, &mut free);
            proof {
                assert(block.statements@.subrange(0, i + 1).drop_last() =~= block.statements@.subrange(0, i as int));
            }
            i = i + 1;
        }
        proof {
            assert(block.statements@.subrange(0, block.statements@.len() as int) =~= block.statements@);
        }
        match &block.terminator {
            Some(t) => {
                proof {
                    let k = block.statements@.len() as int;
                    assert(body(*block)[k] == *t);
                    assert forall|m: int| 0 <= m < t.blocks@.len() implies #[trigger] t.blocks@[m] < b by {
                        assert(body(self.blocks@[b as int])[k].blocks@[m] < b);
                    }
                }
                self.free_statement(b, t, &mut defs, &mut free);
                proof {
                    assert(body(*block).drop_last() =~= block.statements@);
                }
            },
            None => {},
        }
        free
    }

    /// Adds what statement `st` of block `b` defines to `defs`, and what it
    /// reads (directly or in its nested blocks) that `defs` does not hold to
    /// `free`.
    fn free_statement(&self, b: usize, st: &StatementModel, defs: &mut VarSet, free: &mut VarSet)
        requires
            self.nesting_ok(),
            b < self.blocks@.len(),
            forall|m: int| 0 <= m < st.blocks@.len() ==> #[trigger] st.blocks@[m] < b,
        ensures
            final(defs).view() == old(defs).view().union(st.results@.to_set()),
            final(free).view() == old(free).view().union(
                st.arguments@.to_set().difference(old(defs).view()),
            ).union(self.nested_free(b as int, st.blocks@).difference(old(defs).view())),
        decreases b, 1int, 0int,
    {
        let args = VarSet::from_slice(&st.arguments);
        free.add_all_except(&args, defs);
        let ghost after_args = free.view();
        let mut m: usize = 0;
        while m < st.blocks.len()
            invariant
                self.nesting_ok(),
                b < self.blocks@.len(),
                forall|m2: int| 0 <= m2 < st.blocks@.len() ==> #[trigger] st.blocks@[m2] < b,
                0 <= m <= st.blocks@.len(),
                defs.view() == old(defs).view(),
                free.view() == after_args.union(
                    self.nested_free(b as int, st.blocks@.subrange(0, m as int)).difference(
                        old(defs).view(),
                    ),
                ),
            decreases st.blocks@.len() - m,
        {
            let nested = st.blocks[m];
            assert(nested < b);
            let nv = self.collect_free_vars(nested);
            free.add_all_except(&nv, defs);
            proof {
                let ids = st.blocks@.subrange(0, m + 1);
                assert(ids.drop_last() =~= st.blocks@.subrange(0, m as int));
                assert(ids.last() == nested);
                assert(free.view() =~= after_args.union(
                    self.nested_free(b as int, ids).difference(old(defs).view()),
                ));
            }
            m = m + 1;
        }
        proof {
            assert(st.blocks@.subrange(0, st.blocks@.len() as int) =~= st.blocks@);
        }
        let results = VarSet::from_slice(&st.results);
        let empty = VarSet::new();
        defs.add_all_except(&results, &empty);
        proof {
            assert(defs.view() =~= old(defs).view().union(st.results@.to_set()));
        }
    }

    /// The values live before statement `st` of block `b` given the values
    /// live after it: its reads, including the free values of its nested
    /// blocks, and the values live after it that it does not define.
    fn live_before_statement(&self, b: usize, st: &StatementModel, live_after: &VarSet) -> (r: VarSet)
        requires
            self.nesting_ok(),
            b < self.blocks@.len(),
            forall|m: int| 0 <= m < st.blocks@.len() ==> #[trigger] st.blocks@[m] < b,
        ensures
            r.view() == st.arguments@.to_set().union(self.nested_free(b as int, st.blocks@)).union(
                live_after.view().difference(st.results@.to_set()),
            ),
    {
        let mut uses = VarSet::from_slice(&st.arguments);
        let ghost args_set = uses.view();
        let mut m: usize = 0;
        while m < st.blocks.len()
            invariant
                self.nesting_ok(),
                b < self.blocks@.len(),
                forall|m2: int| 0 <= m2 < st.blocks@.len() ==> #[trigger] st.blocks@[m2] < b,
                0 <= m <= st.blocks@.len(),
                uses.view() == args_set.union(
                    self.nested_free(b as int, st.blocks@.subrange(0, m as int)),
                ),
            decreases st.blocks@.len() - m,
        {
            let nested = st.blocks[m];
            assert(nested < b);
            let nv = self.collect_free_vars(nested);
            uses = liveness_join(&uses, &nv);
            proof {
                let ids = st.blocks@.subrange(0, m + 1);
                assert(ids.drop_last() =~= st.blocks@.subrange(0, m as int));
                assert(ids.last() == nested);
                assert(uses.view() =~= args_set.union(self.nested_free(b as int, ids)));
            }
            m = m + 1;
        }
        proof {
            assert(st.blocks@.subrange(0, st.blocks@.len() as int) =~= st.blocks@);
        }
        let defs = VarSet::from_slice(&st.results);
        uses.add_all_except(live_after, &defs);
        uses
    }

    /// The values live before each statement of block `b`, going backward
    /// from the last statement with nothing live after it; one entry per
    /// statement, last statement first, with the statement's id.
    pub fn stmt_backward_liveness(&self, b: usize) -> (r: Vec<(u64, VarSet)>)
        requires
            self.nesting_ok(),
            b < self.blocks@.len(),
        ensures
            r@.len() == body(self.blocks@[b as int]).len(),
            forall|k: int|
                0 <= k < r@.len() ==> {
                    let i = r@.len() - 1 - k;
                    &&& (#[trigger] r@[k]).0 == body(self.blocks@[b as int])[i].id
                    &&& r@[k].1.view() == self.live_before(
                        b as int,
                        body(self.blocks@[b as int]),
                        i,
                    )
                },
    {
        let block = &self.blocks[b];
        let ghost stmts = body(*block);
        let ghost n: int = stmts.len() as int;
        let mut live = VarSet::new();
        let mut out: Vec<(u64, VarSet)> = Vec::new();
        match &block.terminator {
            Some(t) => {
                proof {
                    let k = block.statements@.len() as int;
                    assert(stmts[k] == *t);
                    assert forall|m: int| 0 <= m < t.blocks@.len() implies #[trigger] t.blocks@[m] < b by {
                        assert(body(self.blocks@[b as int])[k].blocks@[m] < b);
                    }
                }
                let ghost k0 = block.statements@.len() as int;
                proof {
                    assert(self.live_before(b as int, stmts, k0 + 1) == Set::<u64>::empty());
                }
                let before = self.live_before_statement(b, t, &live);
                proof {
                    assert(before.view() =~= self.live_before(b as int, stmts, k0));
                }
                live = before.duplicate();
                out.push((t.id, before));
            },
            None => {
                proof {
                    assert(self.live_before(b as int, stmts, block.statements@.len() as int)
                        == Set::<u64>::empty());
                }
            },
        }
        let mut k: usize = block.statements.len();
        while k > 0
            invariant
                self.nesting_ok(),
                b < self.blocks@.len(),
                *block == self.blocks@[b as int],
                stmts == body(*block),
                n == stmts.len(),
                0 <= k <= block.statements@.len(),
                live.view() == self.live_before(b as int, stmts, k as int),
                out@.len() == n - k,
                forall|j: int|
                    0 <= j < out@.len() ==> {
                        &&& (#[trigger] out@[j]).0 == stmts[n - 1 - j].id
                        &&& out@[j].1.view() == self.live_before(b as int, stmts, n - 1 - j)
                    },
            decreases k,
        {
            k = k - 1;
            let st = &block.statements[k];
            proof {
                assert(stmts[k as int] == *st);
                assert forall|m: int| 0 <= m < st.blocks@.len() implies #[trigger] st.blocks@[m] < b by {
                    assert(body(self.blocks@[b as int])[k as int].blocks@[m] < b);
                }
            }
            let before = self.live_before_statement(b, st, &live);
            live = before.duplicate();
            let ghost before_v = before.view();
            out.push((st.id, before));
            proof {
                assert(before_v == self.live_before(b as int, stmts, k as int));
                assert forall|j: int| 0 <= j < out@.len() implies {
                    &&& (#[trigger] out@[j]).0 == stmts[n - 1 - j].id
                    &&& out@[j].1.view() == self.live_before(b as int, stmts, n - 1 - j)
                } by {
                    if j == out@.len() - 1 {
                        assert(n - 1 - j == k);
                    }
                }
            }
        }
        out
    }
}

/// The block transfer is monotone in the live-out set, as the backward
/// fixpoint needs.
pub proof fn transfer_monotone(b: BlockModel, l1: Set<u64>, l2: Set<u64>)
    requires
        l1.subset_of(l2),
    ensures
        spec_transfer(b, l1).subset_of(spec_transfer(b, l2)),
{
}

proof fn lemma_flat_scan(ir: IrModel, b: int, init: Set<u64>, stmts: Seq<StatementModel>)
    requires
        forall|i: int| 0 <= i < stmts.len() ==> (#[trigger] stmts[i]).blocks@.len() == 0,
    ensures
        ir.free_scan(b, init, stmts) == upward_scan(init, stmts),
    decreases stmts.len(),
{
    if stmts.len() > 0 {
        lemma_flat_scan(ir, b, init, stmts.drop_last());
        let (d, f) = ir.free_scan(b, init, stmts.drop_last());
        assert(stmts.last().blocks@ =~= Seq::<usize>::empty());
        assert(ir.nested_free(b, stmts.last().blocks@) == Set::<u64>::empty());
        assert(ir.free_scan(b, init, stmts).1 =~= upward_scan(init, stmts).1);
    }
}

/// For a block with no nested blocks, its free values are its live-in set
/// when nothing is live after it.
pub proof fn free_vars_of_flat_block(ir: IrModel, b: int)
    requires
        0 <= b < ir.blocks@.len(),
        forall|i: int|
            0 <= i < body(ir.blocks@[b]).len() ==> (#[trigger] body(ir.blocks@[b])[i]).blocks@.len()
                == 0,
    ensures
        ir.free_vars(b) == spec_transfer(ir.blocks@[b], Set::empty()),
{
    let blk = ir.blocks@[b];
    lemma_flat_scan(ir, b, blk.arguments@.to_set(), body(blk));
    assert(spec_transfer(blk, Set::empty()) =~= upward_scan(blk.arguments@.to_set(), body(blk)).1);
}

} // verus!
