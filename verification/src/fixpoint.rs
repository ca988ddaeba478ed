//! The bookkeeping of interprocedural abstract interpretation over both
//! stages: per-function summaries (the joined input seen so far, the output
//! found so far, the entry block), a worklist of functions to (re)analyze,
//! the callers of each function, and, for the function being analyzed, the
//! inputs of its blocks and a worklist of blocks. Executing a block is the
//! cursors' business; this module decides what their reports do to the
//! tables and stacks.

use vstd::prelude::*;
use crate::assoc::{AssocMap, MapKey};
use crate::error::InterpreterError;
use crate::machine::{Control, StackEntry};
use crate::pipeline::PipelineModel;
use crate::values::AbstractToyVal;

verus! {

/// A function analyzed at one stage: the specialization and the stage.
#[derive(Clone, Copy, Debug, PartialEq, Eq, Structural)]
pub struct StagedKey {
    pub function: u64,
    pub stage: usize,
}

impl MapKey for StagedKey {
    fn same(&self, other: &Self) -> (r: bool) {
        *self == *other
    }
}

/// What is known of a function: the join of the arguments it was called
/// with, the join of the values it was seen to return, and where its body
/// starts.
pub struct FuncSummary<V> {
    pub input: Vec<V>,
    pub output: Option<V>,
    pub entry_block: u64,
}

/// The analysis state of the function being analyzed: the arguments each
/// block was entered with, and the blocks still to visit.
pub struct FuncState<V> {
    pub block_in: AssocMap<u64, Vec<V>>,
    pub block_worklist: Vec<u64>,
}

/// A call site: the calling function and stage, and the SSA values its
/// results go to.
pub struct CallSite {
    pub function: u64,
    pub stage: usize,
    pub results: Vec<u64>,
}

/// What a call site is, as a value.
pub open spec fn site_view(c: CallSite) -> (u64, usize, Seq<u64>) {
    (c.function, c.stage, c.results@)
}

/// The call sites of a list, as a set.
pub open spec fn site_set(s: Seq<CallSite>) -> Set<(u64, usize, Seq<u64>)> {
    Set::new(|v: (u64, usize, Seq<u64>)| exists|i: int| 0 <= i < s.len() && site_view(s[i]) == v)
}

/// Some merged argument is not below the argument recorded before: the
/// function has to be analyzed again.
pub open spec fn input_grew<V: AbstractToyVal>(merged: Seq<V>, existing: Seq<V>) -> bool {
    exists|i: int| 0 <= i < merged.len() && !(#[trigger] merged[i]).spec_le(&existing[i])
}

/// The work on the environment that an abstract step leaves to its driver.
pub enum AbstractAction<V> {
    /// Nothing more to do.
    Continue,
    /// Join this value into the current function's output.
    RecordReturn(V),
    /// Join these arguments into the inputs of these blocks and queue them.
    Enqueue(Vec<(u64, Vec<V>)>),
    /// Write `value` to each of the call's result values.
    WriteResults { results: Vec<u64>, value: V },
}

/// The state of the interprocedural fixpoint.
pub struct FixpointState<C, V> {
    pub summaries: AssocMap<StagedKey, FuncSummary<V>>,
    pub func_states: AssocMap<StagedKey, FuncState<V>>,
    pub visit_counts: AssocMap<StagedKey, usize>,
    pub func_worklist: Vec<StagedKey>,
    pub call_graph: AssocMap<StagedKey, Vec<CallSite>>,
    pub cursor_stack: Vec<StackEntry<C, V>>,
    pub current_key: Option<StagedKey>,
}

fn copy_vec<V: Copy>(v: &Vec<V>) -> (r: Vec<V>)
    ensures
        r@ == v@,
{
    let mut r: Vec<V> = Vec::new();
    let mut i: usize = 0;
    while i < v.len()
        invariant
            0 <= i <= v@.len(),
            r@ == v@.subrange(0, i as int),
        decreases v@.len() - i,
    {
        r.push(v[i]);
        i = i + 1;
        proof {
            assert(r@ =~= v@.subrange(0, i as int));
        }
    }
    proof {
        assert(r@ =~= v@);
    }
    r
}

fn same_results(a: &Vec<u64>, b: &Vec<u64>) -> (r: bool)
    ensures
        r == (a@ == b@),
{
    if a.len() != b.len() {
        return false;
    }
    let mut i: usize = 0;
    while i < a.len()
        invariant
            a@.len() == b@.len(),
            0 <= i <= a@.len(),
            forall|j: int| 0 <= j < i ==> a@[j] == b@[j],
        decreases a@.len() - i,
    {
        if a[i] != b[i] {
            return false;
        }
        i = i + 1;
    }
    proof {
        assert(a@ =~= b@);
    }
    true
}

impl<C, V: AbstractToyVal> FixpointState<C, V> {
    /// How often the function's input has grown.
    pub open spec fn visits(self, k: StagedKey) -> usize {
        if self.visit_counts.view().contains_key(k) {
            self.visit_counts.view()[k]
        } else {
            0
        }
    }

    /// Every function on the worklist has a summary.
    pub open spec fn queued_summarized(self) -> bool {
        forall|i: int|
            0 <= i < self.func_worklist@.len() ==> self.summaries.view().contains_key(
                #[trigger] self.func_worklist@[i],
            )
    }

    /// The call sites recorded as calling `k`.
    pub open spec fn callers(self, k: StagedKey) -> Set<(u64, usize, Seq<u64>)> {
        if self.call_graph.view().contains_key(k) {
            site_set(self.call_graph.view()[k]@)
        } else {
            Set::empty()
        }
    }

    /// The function analyses that a call from `caller` of `callee` with
    /// `args`, with its results going to `results`, leaves behind and the
    /// value it answers; `merge` combines a recorded argument with a new one
    /// given the number of earlier growths.
    pub open spec fn call_handled<M: Fn(&V, &V, usize) -> V>(
        pre: Self,
        post: Self,
        pipeline: PipelineModel,
        caller: StagedKey,
        callee: StagedKey,
        results: Seq<u64>,
        args: Seq<V>,
        merge: M,
        r: Result<V, InterpreterError>,
    ) -> bool {
        &&& post.callers(callee) == pre.callers(callee).insert((caller.function, caller.stage, results))
        &&& forall|k: StagedKey| k != callee ==> #[trigger] post.callers(k) == pre.callers(k)
        &&& post.func_states.view() == pre.func_states.view()
        &&& if pre.summaries.view().contains_key(callee) {
            let s = pre.summaries.view()[callee];
            if s.input@.len() != args.len() {
                &&& r == Err::<V, InterpreterError>(
                    InterpreterError::ArityMismatch {
                        expected: s.input@.len() as usize,
                        got: args.len() as usize,
                    },
                )
                &&& post.summaries.view() == pre.summaries.view()
                &&& post.visit_counts.view() == pre.visit_counts.view()
                &&& post.func_worklist@ == pre.func_worklist@
            } else {
                &&& r == Ok::<V, InterpreterError>(
                    match s.output {
                        Some(o) => o,
                        None => V::spec_bottom(),
                    },
                )
                &&& exists|m: Seq<V>|
                    {
                        &&& m.len() == args.len()
                        &&& forall|i: int|
                            0 <= i < m.len() ==> call_ensures(
                                merge,
                                (&s.input@[i], &args[i], pre.visits(callee)),
                                #[trigger] m[i],
                            )
                        &&& if input_grew(m, s.input@) {
                            &&& post.summaries.view().contains_key(callee)
                            &&& post.summaries.view()[callee].input@ == m
                            &&& post.summaries.view()[callee].output == s.output
                            &&& post.summaries.view()[callee].entry_block == s.entry_block
                            &&& post.summaries.view() == pre.summaries.view().insert(
                                callee,
                                post.summaries.view()[callee],
                            )
                            &&& post.visit_counts.view() == pre.visit_counts.view().insert(
                                callee,
                                (pre.visits(callee) + 1) as usize,
                            )
                            &&& post.func_worklist@ == pre.func_worklist@.push(callee)
                        } else {
                            &&& post.summaries.view() == pre.summaries.view()
                            &&& post.visit_counts.view() == pre.visit_counts.view()
                            &&& post.func_worklist@ == pre.func_worklist@
                        }
                    }
            }
        } else {
            match pipeline.spec_entry_block(callee.function, callee.stage as int) {
                None => {
                    &&& r == Err::<V, InterpreterError>(InterpreterError::MissingEntry)
                    &&& post.summaries.view() == pre.summaries.view()
                    &&& post.visit_counts.view() == pre.visit_counts.view()
                    &&& post.func_worklist@ == pre.func_worklist@
                },
                Some(entry_block) => {
                    &&& r == Ok::<V, InterpreterError>(V::spec_bottom())
                    &&& post.summaries.view().contains_key(callee)
                    &&& post.summaries.view()[callee].input@ == args
                    &&& post.summaries.view()[callee].output is None
                    &&& post.summaries.view()[callee].entry_block == entry_block
                    &&& post.summaries.view() == pre.summaries.view().insert(
                        callee,
                        post.summaries.view()[callee],
                    )
                    &&& post.visit_counts.view() == pre.visit_counts.view()
                    &&& post.func_worklist@ == pre.func_worklist@.push(callee)
                },
            }
        }
    }

    /// A fixpoint with no function seen yet.
    pub fn new() -> (r: FixpointState<C, V>)
        ensures
            r.summaries.view() == Map::<StagedKey, FuncSummary<V>>::empty(),
            r.func_states.view() == Map::<StagedKey, FuncState<V>>::empty(),
            r.visit_counts.view() == Map::<StagedKey, usize>::empty(),
            r.func_worklist@.len() == 0,
            r.call_graph.view() == Map::<StagedKey, Vec<CallSite>>::empty(),
            r.cursor_stack@.len() == 0,
            r.current_key is None,
    {
        FixpointState {
            summaries: AssocMap::new(),
            func_states: AssocMap::new(),
            visit_counts: AssocMap::new(),
            func_worklist: Vec::new(),
            call_graph: AssocMap::new(),
            cursor_stack: Vec::new(),
            current_key: None,
        }
    }

    /// How often the input of `k` has grown.
    pub fn visit_count(&self, k: &StagedKey) -> (r: usize)
        ensures
            r == self.visits(*k),
    {
        match self.visit_counts.get(k) {
            Some(n) => *n,
            None => 0,
        }
    }

    /// Starts the analysis of `entry` with `args`: its summary records the
    /// arguments, no output and its entry block, and it is queued.
    pub fn seed(&mut self, pipeline: &PipelineModel, entry: StagedKey, args: Vec<V>) -> (r: Result<
        (),
        InterpreterError,
    >)
        ensures
            match pipeline.spec_entry_block(entry.function, entry.stage as int) {
                None => r == Err::<(), InterpreterError>(InterpreterError::MissingEntry)
                    && final(self).summaries.view() == old(self).summaries.view()
                    && final(self).func_worklist@ == old(self).func_worklist@,
                Some(b) => r is Ok && final(self).summaries.view().contains_key(entry) && final(self).summaries.view()[entry].input@ == args@ && final(self).summaries.view()[entry].output is None
                    && final(self).summaries.view()[entry].entry_block == b && final(self).summaries.view()
                    == old(self).summaries.view().insert(entry, final(self).summaries.view()[entry])
                    && final(self).func_worklist@ == old(self).func_worklist@.push(
                    entry,
                ),
            },
            final(self).visit_counts.view() == old(self).visit_counts.view(),
            final(self).func_states.view() == old(self).func_states.view(),
            final(self).call_graph.view() == old(self).call_graph.view(),
            final(self).cursor_stack@ == old(self).cursor_stack@,
            final(self).current_key == old(self).current_key,
            old(self).queued_summarized() ==> final(self).queued_summarized(),
    {
        let entry_block = match pipeline.entry_block_for(entry.function, entry.stage) {
            Ok(b) => b,
            Err(e) => return Err(e),
        };
        self.summaries.insert(entry, FuncSummary { input: args, output: None, entry_block });
        self.func_worklist.push(entry);
        Ok(())
    }

    /// The next function to analyze, taken from the worklist.
    pub fn next_function(&mut self) -> (r: Option<StagedKey>)
        ensures
            old(self).func_worklist@.len() == 0 ==> r is None && final(self).func_worklist@
                == old(self).func_worklist@,
            old(self).func_worklist@.len() > 0 ==> r == Some(old(self).func_worklist@.last())
                && final(self).func_worklist@ == old(self).func_worklist@.drop_last(),
            final(self).summaries.view() == old(self).summaries.view(),
            final(self).visit_counts.view() == old(self).visit_counts.view(),
            final(self).func_states.view() == old(self).func_states.view(),
            final(self).call_graph.view() == old(self).call_graph.view(),
            final(self).cursor_stack@ == old(self).cursor_stack@,
            final(self).current_key == old(self).current_key,
            old(self).queued_summarized() ==> final(self).queued_summarized(),
            old(self).queued_summarized() ==> (r matches Some(k) ==> final(self).summaries.view().contains_key(k)),
    {
        self.func_worklist.pop()
    }

    /// The output recorded for `k`, if any.
    pub fn summary_output(&self, k: &StagedKey) -> (r: Option<V>)
        ensures
            r == (if self.summaries.view().contains_key(*k) {
                self.summaries.view()[*k].output
            } else {
                None
            }),
    {
        match self.summaries.get(k) {
            Some(s) => s.output,
            None => None,
        }
    }

    /// Records that `site` calls `callee`.
    pub fn record_call_site(&mut self, callee: StagedKey, site: CallSite)
        ensures
            final(self).callers(callee) == old(self).callers(callee).insert(site_view(site)),
            forall|k: StagedKey| k != callee ==> #[trigger] final(self).callers(k) == old(self).callers(k),
            final(self).summaries.view() == old(self).summaries.view(),
            final(self).visit_counts.view() == old(self).visit_counts.view(),
            final(self).func_states.view() == old(self).func_states.view(),
            final(self).func_worklist@ == old(self).func_worklist@,
            final(self).cursor_stack@ == old(self).cursor_stack@,
            final(self).current_key == old(self).current_key,
    {
        let ghost before = old(self).callers(callee);
        let mut sites = match self.call_graph.replace(&callee, Vec::new()) {
            Some(v) => v,
            None => Vec::new(),
        };
        proof {
            assert(site_set(sites@) =~= before);
        }
        let mut present = false;
        let mut i: usize = 0;
        while i < sites.len()
            invariant
                0 <= i <= sites@.len(),
                present <==> exists|j: int| 0 <= j < i && site_view(sites@[j]) == site_view(site),
            decreases sites@.len() - i,
        {
            if sites[i].function == site.function && sites[i].stage == site.stage && same_results(
                &sites[i].results,
                &site.results,
            ) {
                present = true;
            }
            i = i + 1;
        }
        let ghost sv = site_view(site);
        let ghost old_sites = sites@;
        if !present {
            sites.push(site);
            proof {
                assert(site_set(sites@) =~= before.insert(sv)) by {
                    assert(site_view(sites@[sites@.len() - 1]) == sv);
                    assert forall|v: (u64, usize, Seq<u64>)|
                        before.insert(sv).contains(v) implies site_set(sites@).contains(v) by {
                        if v != sv {
                            let j = choose|j: int|
                                0 <= j < old_sites.len() && site_view(old_sites[j]) == v;
                            assert(sites@[j] == old_sites[j]);
                        }
                    }
                }
            }
        } else {
            proof {
                assert(site_set(sites@) =~= before.insert(sv));
            }
        }
        self.call_graph.insert(callee, sites);
    }

    /// The abstract treatment of a call from `caller` of `callee` whose
    /// results go to `results`:
    /// - the call site is recorded as a caller of `callee`;
    /// - when `callee` has a summary, the number of arguments must match it
    ///   (`ArityMismatch` otherwise); each recorded argument is merged with
    ///   the new one by `merge`, given how often the input grew before; when
    ///   some merged argument is not below the recorded one, the summary
    ///   takes the merged input, the growth count goes up and `callee` is
    ///   queued again; the answer is the recorded output, or bottom when
    ///   none was seen yet;
    /// - when it has none, the summary starts with the arguments, no output
    ///   and the callee's entry block (`MissingEntry` when there is none),
    ///   `callee` is queued and the answer is bottom.
    pub fn handle_abstract_call<M: Fn(&V, &V, usize) -> V>(
        &mut self,
        pipeline: &PipelineModel,
        caller: StagedKey,
        callee: StagedKey,
        results: &Vec<u64>,
        new_args: Vec<V>,
        merge: &M,
    ) -> (r: Result<V, InterpreterError>)
        requires
            forall|a: &V, b: &V, n: usize| #[trigger] merge.requires((a, b, n)),
            old(self).visits(callee) < usize::MAX,
        ensures
            Self::call_handled(
                *old(self),
                *final(self),
                *pipeline,
                caller,
                callee,
                results@,
                new_args@,
                *merge,
                r,
            ),
            final(self).cursor_stack@ == old(self).cursor_stack@,
            final(self).current_key == old(self).current_key,
            old(self).queued_summarized() ==> final(self).queued_summarized(),
    {
        let ghost old_self = *old(self);
        self.record_call_site(
            callee,
            CallSite { function: caller.function, stage: caller.stage, results: copy_vec(results) },
        );
        let ghost mid = *self;
        let visits = self.visit_count(&callee);
        let summary = match self.summaries.get(&callee) {
            Some(s) => s,
            None => {
                let entry_block = match pipeline.entry_block_for(callee.function, callee.stage) {
                    Ok(b) => b,
                    Err(e) => return Err(e),
                };
                self.summaries.insert(
                    callee,
                    FuncSummary { input: new_args, output: None, entry_block },
                );
                self.func_worklist.push(callee);
                proof {
                    assert forall|k: StagedKey| k != callee implies #[trigger] self.callers(k)
                        == old_self.callers(k) by {
                        assert(self.callers(k) == mid.callers(k));
                    }
                }
                return Ok(V::bottom());
            },
        };
        let n = summary.input.len();
        if n != new_args.len() {
            return Err(InterpreterError::ArityMismatch { expected: n, got: new_args.len() });
        }
        let mut merged: Vec<V> = Vec::new();
        let mut i: usize = 0;
        while i < n
            invariant
                n == summary.input@.len(),
                n == new_args@.len(),
                0 <= i <= n,
                merged@.len() == i,
                forall|a: &V, b: &V, c: usize| #[trigger] merge.requires((a, b, c)),
                forall|j: int|
                    0 <= j < i ==> call_ensures(
                        *merge,
                        (&summary.input@[j], &new_args@[j], visits),
                        #[trigger] merged@[j],
                    ),
            decreases n - i,
        {
            let m = merge(&summary.input[i], &new_args[i], visits);
            merged.push(m);
            i = i + 1;
        }
        let mut grew = false;
        let mut i: usize = 0;
        while i < n
            invariant
                n == summary.input@.len(),
                n == merged@.len(),
                0 <= i <= n,
                grew <==> exists|j: int| 0 <= j < i && !(#[trigger] merged@[j]).spec_le(&summary.input@[j]),
            decreases n - i,
        {
            if !merged[i].is_subseteq(&summary.input[i]) {
                grew = true;
            }
            i = i + 1;
        }
        let output = summary.output;
        let entry_block = summary.entry_block;
        let ghost m = merged@;
        if grew {
            self.summaries.insert(callee, FuncSummary { input: merged, output, entry_block });
            self.visit_counts.insert(callee, visits + 1);
            self.func_worklist.push(callee);
        }
        proof {
            assert(input_grew(m, old_self.summaries.view()[callee].input@) == grew);
            assert forall|k: StagedKey| k != callee implies #[trigger] self.callers(k)
                == old_self.callers(k) by {
                assert(self.callers(k) == mid.callers(k));
            }
        }
        match output {
            Some(o) => Ok(o),
            None => Ok(V::bottom()),
        }
    }

    /// Starts analyzing `key`: its entry block is entered with the recorded
    /// input and is the only block queued; `MissingEntry` when `key` has no
    /// summary.
    pub fn begin_function(&mut self, key: StagedKey) -> (r: Result<(), InterpreterError>)
        ensures
            !old(self).summaries.view().contains_key(key) ==> r == Err::<(), InterpreterError>(
                InterpreterError::MissingEntry,
            ) && final(self).func_states.view() == old(self).func_states.view() && final(self).current_key
                == old(self).current_key,
            old(self).summaries.view().contains_key(key) ==> ({
                let s = old(self).summaries.view()[key];
                &&& r is Ok
                &&& final(self).func_states.view() == old(self).func_states.view().insert(
                    key,
                    final(self).func_states.view()[key],
                )
                &&& final(self).func_states.view()[key].block_in.view() == Map::<u64, Vec<V>>::empty().insert(
                    s.entry_block,
                    final(self).func_states.view()[key].block_in.view()[s.entry_block],
                )
                &&& final(self).func_states.view()[key].block_in.view()[s.entry_block]@ == s.input@
                &&& final(self).func_states.view()[key].block_worklist@ == seq![s.entry_block]
                &&& final(self).current_key == Some(key)
            }),
            final(self).summaries.view() == old(self).summaries.view(),
            final(self).visit_counts.view() == old(self).visit_counts.view(),
            final(self).call_graph.view() == old(self).call_graph.view(),
            final(self).func_worklist@ == old(self).func_worklist@,
            final(self).cursor_stack@ == old(self).cursor_stack@,
    {
        let (entry_block, input) = match self.summaries.get(&key) {
            Some(s) => (s.entry_block, copy_vec(&s.input)),
            None => return Err(InterpreterError::MissingEntry),
        };
        let mut block_in: AssocMap<u64, Vec<V>> = AssocMap::new();
        block_in.insert(entry_block, input);
        let mut block_worklist: Vec<u64> = Vec::new();
        block_worklist.push(entry_block);
        proof {
            assert(block_worklist@ =~= seq![entry_block]);
        }
        self.func_states.insert(key, FuncState { block_in, block_worklist });
        self.current_key = Some(key);
        Ok(())
    }

    /// The next block of `key` to visit, with the arguments it was entered
    /// with (none recorded: no arguments); `None` when no block is queued.
    pub fn next_block(&mut self, key: StagedKey) -> (r: Option<(u64, Vec<V>)>)
        ensures
            !old(self).func_states.view().contains_key(key) ==> r is None && final(self).func_states.view() == old(self).func_states.view(),
            old(self).func_states.view().contains_key(key) ==> ({
                let st = old(self).func_states.view()[key];
                let nst = final(self).func_states.view()[key];
                &&& final(self).func_states.view() == old(self).func_states.view().insert(key, nst)
                &&& nst.block_in.view() == st.block_in.view()
                &&& if st.block_worklist@.len() == 0 {
                    r is None && nst.block_worklist@ == st.block_worklist@
                } else {
                    let b = st.block_worklist@.last();
                    &&& nst.block_worklist@ == st.block_worklist@.drop_last()
                    &&& r matches Some((b2, args)) && b2 == b && args@ == (
                    if st.block_in.view().contains_key(b) {
                        st.block_in.view()[b]@
                    } else {
                        Seq::<V>::empty()
                    })
                }
            }),
            final(self).summaries.view() == old(self).summaries.view(),
            final(self).visit_counts.view() == old(self).visit_counts.view(),
            final(self).call_graph.view() == old(self).call_graph.view(),
            final(self).func_worklist@ == old(self).func_worklist@,
            final(self).cursor_stack@ == old(self).cursor_stack@,
            final(self).current_key == old(self).current_key,
    {
        let placeholder = FuncState { block_in: AssocMap::new(), block_worklist: Vec::new() };
        let mut st = match self.func_states.replace(&key, placeholder) {
            Some(st) => st,
            None => return None,
        };
        match st.block_worklist.pop() {
            None => {
                self.func_states.insert(key, st);
                None
            },
            Some(b) => {
                let args = match st.block_in.get(&b) {
                    Some(a) => copy_vec(a),
                    None => Vec::new(),
                };
                self.func_states.insert(key, st);
                Some((b, args))
            },
        }
    }

    /// Ends the analysis of the current function.
    pub fn end_function(&mut self)
        ensures
            final(self).current_key is None,
            final(self).summaries.view() == old(self).summaries.view(),
            final(self).func_states.view() == old(self).func_states.view(),
            final(self).visit_counts.view() == old(self).visit_counts.view(),
            final(self).call_graph.view() == old(self).call_graph.view(),
            final(self).func_worklist@ == old(self).func_worklist@,
            final(self).cursor_stack@ == old(self).cursor_stack@,
    {
        self.current_key = None;
    }

    /// Puts a cursor for a block on the stack.
    pub fn push_cursor(&mut self, cursor: C)
        ensures
            final(self).cursor_stack@ == old(self).cursor_stack@.push(
                StackEntry { cursor, inbox: None },
            ),
            final(self).summaries.view() == old(self).summaries.view(),
            final(self).func_states.view() == old(self).func_states.view(),
            final(self).visit_counts.view() == old(self).visit_counts.view(),
            final(self).call_graph.view() == old(self).call_graph.view(),
            final(self).func_worklist@ == old(self).func_worklist@,
            final(self).current_key == old(self).current_key,
    {
        self.cursor_stack.push(StackEntry { cursor, inbox: None });
    }

    /// Takes the top cursor off the stack with the value in its inbox.
    pub fn take_abstract_entry(&mut self) -> (r: Option<(StackEntry<C, V>, Option<V>)>)
        ensures
            old(self).cursor_stack@.len() == 0 ==> r is None && final(self).cursor_stack@
                == old(self).cursor_stack@,
            old(self).cursor_stack@.len() > 0 ==> (r matches Some((entry, inbox))
                && final(self).cursor_stack@ == old(self).cursor_stack@.drop_last()
                && entry.cursor == old(self).cursor_stack@.last().cursor && entry.inbox is None
                && inbox == old(self).cursor_stack@.last().inbox),
            final(self).summaries.view() == old(self).summaries.view(),
            final(self).func_states.view() == old(self).func_states.view(),
            final(self).visit_counts.view() == old(self).visit_counts.view(),
            final(self).call_graph.view() == old(self).call_graph.view(),
            final(self).func_worklist@ == old(self).func_worklist@,
            final(self).current_key == old(self).current_key,
    {
        match self.cursor_stack.pop() {
            None => None,
            Some(entry) => {
                let StackEntry { cursor, inbox } = entry;
                Some((StackEntry { cursor, inbox: None }, inbox))
            },
        }
    }

    /// Applies what the cursor `entry` of function `key` reported, in
    /// abstract execution:
    /// - `Advance`: the cursor stays; `Push(c)`: it stays with `c` on top;
    ///   `Pop`: it leaves; `Yield(v)`: it leaves and `v` goes to the inbox of
    ///   the cursor below, if any;
    /// - `Return(v)`: every cursor leaves and `v` is to be joined into the
    ///   function's output;
    /// - `Jump` and `Fork`: the cursor leaves and the target blocks are to be
    ///   queued with their arguments;
    /// - `Call`: the cursor stays, the call is handled as in
    ///   `handle_abstract_call`, and its answer is to be written to the call's
    ///   results.
    pub fn apply_abstract_control<M: Fn(&V, &V, usize) -> V>(
        &mut self,
        pipeline: &PipelineModel,
        key: StagedKey,
        entry: StackEntry<C, V>,
        effect: Control<V, C>,
        merge: &M,
    ) -> (r: Result<AbstractAction<V>, InterpreterError>)
        requires
            forall|a: &V, b: &V, n: usize| #[trigger] merge.requires((a, b, n)),
            effect matches Control::Call { callee, stage, .. } ==> old(self).visits(
                StagedKey { function: callee, stage },
            ) < usize::MAX,
        ensures
            final(self).current_key == old(self).current_key,
            !(effect is Call) ==> final(self).summaries.view() == old(self).summaries.view()
                && final(self).func_states.view() == old(self).func_states.view()
                && final(self).visit_counts.view() == old(self).visit_counts.view()
                && final(self).call_graph.view() == old(self).call_graph.view()
                && final(self).func_worklist@ == old(self).func_worklist@,
            match effect {
                Control::Advance => r matches Ok(AbstractAction::Continue) && final(self).cursor_stack@
                    == old(self).cursor_stack@.push(entry),
                Control::Push(c) => r matches Ok(AbstractAction::Continue) && final(self).cursor_stack@
                    == old(self).cursor_stack@.push(entry).push(StackEntry { cursor: c, inbox: None }),
                Control::Pop => r matches Ok(AbstractAction::Continue) && final(self).cursor_stack@
                    == old(self).cursor_stack@,
                Control::Yield(v) => r matches Ok(AbstractAction::Continue) && if old(self).cursor_stack@.len() > 0 {
                    final(self).cursor_stack@ == old(self).cursor_stack@.update(
                        old(self).cursor_stack@.len() - 1,
                        StackEntry { cursor: old(self).cursor_stack@.last().cursor, inbox: Some(v) },
                    )
                } else {
                    final(self).cursor_stack@ == old(self).cursor_stack@
                },
                Control::Return(v) => r matches Ok(AbstractAction::RecordReturn(v2)) && v2 == v
                    && final(self).cursor_stack@.len() == 0,
                Control::Jump(block, args) => r matches Ok(AbstractAction::Enqueue(targets))
                    && targets@.len() == 1 && targets@[0].0 == block && targets@[0].1 == args
                    && final(self).cursor_stack@ == old(self).cursor_stack@,
                Control::Fork(branches) => r matches Ok(AbstractAction::Enqueue(targets))
                    && targets == branches && final(self).cursor_stack@ == old(self).cursor_stack@,
                Control::Call { callee, stage, args, results } => final(self).cursor_stack@ == old(self).cursor_stack@.push(entry) && exists|hr: Result<V, InterpreterError>|
                    {
                        &&& Self::call_handled(
                            *old(self),
                            *final(self),
                            *pipeline,
                            key,
                            StagedKey { function: callee, stage },
                            results@,
                            args@,
                            *merge,
                            hr,
                        )
                        &&& match hr {
                            Ok(v) => r matches Ok(AbstractAction::WriteResults { results: r2, value })
                                && r2 == results && value == v,
                            Err(e) => r == Err::<AbstractAction<V>, InterpreterError>(e),
                        }
                    },
            },
    {
        match effect {
            Control::Advance => {
                self.cursor_stack.push(entry);
                Ok(AbstractAction::Continue)
            },
            Control::Push(new_cursor) => {
                self.cursor_stack.push(entry);
                self.cursor_stack.push(StackEntry { cursor: new_cursor, inbox: None });
                Ok(AbstractAction::Continue)
            },
            Control::Pop => Ok(AbstractAction::Continue),
            Control::Yield(v) => {
                let n = self.cursor_stack.len();
                if n > 0 {
                    let parent = self.cursor_stack.pop().unwrap();
                    self.cursor_stack.push(StackEntry { cursor: parent.cursor, inbox: Some(v) });
                    proof {
                        assert(self.cursor_stack@ =~= old(self).cursor_stack@.update(
                            n - 1,
                            StackEntry { cursor: old(self).cursor_stack@.last().cursor, inbox: Some(v) },
                        ));
                    }
                }
                Ok(AbstractAction::Continue)
            },
            Control::Return(v) => {
                self.cursor_stack.clear();
                Ok(AbstractAction::RecordReturn(v))
            },
            Control::Jump(block, args) => {
                let mut targets: Vec<(u64, Vec<V>)> = Vec::new();
                targets.push((block, args));
                Ok(AbstractAction::Enqueue(targets))
            },
            Control::Fork(branches) => Ok(AbstractAction::Enqueue(branches)),
            Control::Call { callee, stage, args, results } => {
                self.cursor_stack.push(entry);
                let ghost pushed = *self;
                let ghost args_v = args@;
                let hr = self.handle_abstract_call(
                    pipeline,
                    key,
                    StagedKey { function: callee, stage },
                    &results,
                    args,
                    merge,
                );
                proof {
                    let k = StagedKey { function: callee, stage };
                    assert(pushed.visits(k) == old(self).visits(k));
                    assert forall|k2: StagedKey| #[trigger] pushed.callers(k2) == old(self).callers(k2) by {}
                    assert(Self::call_handled(
                        *old(self),
                        *self,
                        *pipeline,
                        key,
                        k,
                        results@,
                        args_v,
                        *merge,
                        hr,
                    ));
                }
                match hr {
                    Ok(v) => Ok(AbstractAction::WriteResults { results, value: v }),
                    Err(e) => Err(e),
                }
            },
        }
    }
}

/// When `merge` answers an upper bound of the two values it combines (as
/// join and widening do), a call that is answered leaves the callee's
/// recorded input above the call's arguments and above the input recorded
/// before: a function's summary covers every call it has answered. A call
/// of a callee that already has a summary is answered with the recorded
/// output (bottom when none was seen); the callee is queued again, and its
/// growth count goes up by one, exactly when its input grew, and otherwise
/// summaries, counts and worklist stay as they were.
pub proof fn summary_covers_answered_call<C, V: AbstractToyVal, M: Fn(&V, &V, usize) -> V>(
    pre: FixpointState<C, V>,
    post: FixpointState<C, V>,
    pipeline: PipelineModel,
    caller: StagedKey,
    callee: StagedKey,
    results: Seq<u64>,
    args: Seq<V>,
    merge: M,
    r: Result<V, InterpreterError>,
)
    requires
        FixpointState::call_handled(pre, post, pipeline, caller, callee, results, args, merge, r),
        r is Ok,
        forall|a: &V, b: &V, n: usize, x: V| #[trigger]
            call_ensures(merge, (a, b, n), x) ==> a.spec_le(&x) && b.spec_le(&x),
    ensures
        post.summaries.view().contains_key(callee),
        post.summaries.view()[callee].input@.len() == args.len(),
        forall|i: int|
            0 <= i < args.len() ==> (#[trigger] args[i]).spec_le(
                &post.summaries.view()[callee].input@[i],
            ),
        pre.summaries.view().contains_key(callee) ==> forall|i: int|
            0 <= i < args.len() ==> (#[trigger] pre.summaries.view()[callee].input@[i]).spec_le(
                &post.summaries.view()[callee].input@[i],
            ),
        pre.summaries.view().contains_key(callee) ==> r == Ok::<V, InterpreterError>(
            match pre.summaries.view()[callee].output {
                Some(o) => o,
                None => V::spec_bottom(),
            },
        ),
        pre.summaries.view().contains_key(callee) ==> {
            ||| {
                &&& exists|i: int|
                    0 <= i < args.len() && !(#[trigger] post.summaries.view()[callee].input@[i]).spec_le(
                        &pre.summaries.view()[callee].input@[i],
                    )
                &&& post.func_worklist@ == pre.func_worklist@.push(callee)
                &&& post.visit_counts.view() == pre.visit_counts.view().insert(
                    callee,
                    (pre.visits(callee) + 1) as usize,
                )
            }
            ||| {
                &&& post.summaries.view() == pre.summaries.view()
                &&& post.func_worklist@ == pre.func_worklist@
                &&& post.visit_counts.view() == pre.visit_counts.view()
            }
        },
{
    if pre.summaries.view().contains_key(callee) {
        let s = pre.summaries.view()[callee];
        let m = choose|m: Seq<V>|
            {
                &&& m.len() == args.len()
                &&& forall|i: int|
                    0 <= i < m.len() ==> call_ensures(
                        merge,
                        (&s.input@[i], &args[i], pre.visits(callee)),
                        #[trigger] m[i],
                    )
                &&& if input_grew(m, s.input@) {
                    &&& post.summaries.view().contains_key(callee)
                    &&& post.summaries.view()[callee].input@ == m
                    &&& post.summaries.view()[callee].output == s.output
                    &&& post.summaries.view()[callee].entry_block == s.entry_block
                    &&& post.summaries.view() == pre.summaries.view().insert(
                        callee,
                        post.summaries.view()[callee],
                    )
                    &&& post.visit_counts.view() == pre.visit_counts.view().insert(
                        callee,
                        (pre.visits(callee) + 1) as usize,
                    )
                    &&& post.func_worklist@ == pre.func_worklist@.push(callee)
                } else {
                    &&& post.summaries.view() == pre.summaries.view()
                    &&& post.visit_counts.view() == pre.visit_counts.view()
                    &&& post.func_worklist@ == pre.func_worklist@
                }
            };
        assert forall|i: int| 0 <= i < args.len() implies (#[trigger] args[i]).spec_le(
            &post.summaries.view()[callee].input@[i],
        ) && s.input@[i].spec_le(&post.summaries.view()[callee].input@[i]) by {
            assert(call_ensures(merge, (&s.input@[i], &args[i], pre.visits(callee)), m[i]));
            if !input_grew(m, s.input@) {
                assert(m[i].spec_le(&s.input@[i]));
                V::lemma_order(args[i], m[i], s.input@[i]);
                V::lemma_order(s.input@[i], s.input@[i], s.input@[i]);
            }
        }
    } else {
        assert forall|i: int| 0 <= i < args.len() implies (#[trigger] args[i]).spec_le(
            &post.summaries.view()[callee].input@[i],
        ) by {
            V::lemma_order(args[i], args[i], args[i]);
        }
    }
}

/// A handled call keeps every queued function summarized: the only
/// function it queues is the callee, which it leaves with a summary, and it
/// removes no summary.
pub proof fn call_keeps_queue_summarized<C, V: AbstractToyVal, M: Fn(&V, &V, usize) -> V>(
    pre: FixpointState<C, V>,
    post: FixpointState<C, V>,
    pipeline: PipelineModel,
    caller: StagedKey,
    callee: StagedKey,
    results: Seq<u64>,
    args: Seq<V>,
    merge: M,
    r: Result<V, InterpreterError>,
)
    requires
        FixpointState::call_handled(pre, post, pipeline, caller, callee, results, args, merge, r),
        pre.queued_summarized(),
    ensures
        post.queued_summarized(),
{
    assert forall|i: int| 0 <= i < post.func_worklist@.len() implies post.summaries.view().contains_key(
        #[trigger] post.func_worklist@[i],
    ) by {
        if i < pre.func_worklist@.len() {
            assert(pre.summaries.view().contains_key(pre.func_worklist@[i]));
        }
    }
}

} // verus!
