//! The compiled program as the interpreters read it: stages, functions
//! declared per stage with their specializations, and the symbol tables;
//! and the lookups and call-target resolution over it.

use vstd::prelude::*;
use crate::error::{InterpreterError, Location, StagedRef, ToyError};

verus! {

/// Which dialect a stage's IR is written in.
#[derive(Clone, Copy, Debug, PartialEq, Eq, Structural)]
pub enum StageKind {
    /// Structured control flow and lexical lambdas.
    Source,
    /// Unstructured control flow and lifted functions.
    Lowered,
}

/// One compile stage of the pipeline.
#[derive(Clone, Debug)]
pub struct StageModel {
    pub name: String,
    pub kind: StageKind,
}

/// One specialization (a signature-specific body) of a staged function.
#[derive(Clone, Copy, Debug)]
pub struct SpecializationModel {
    pub id: u64,
    /// Whether the specialization is live (not superseded).
    pub live: bool,
    /// The statement that holds the body.
    pub body: u64,
    /// The entry block of the body, when the body is a region with blocks.
    pub entry_block: Option<u64>,
}

/// A function as declared at one stage.
#[derive(Clone, Debug)]
pub struct StagedModel {
    pub stage: usize,
    pub specializations: Vec<SpecializationModel>,
}

/// A function of the program, with its declarations per stage.
#[derive(Clone, Debug)]
pub struct FunctionModel {
    pub name: String,
    pub staged: Vec<StagedModel>,
}

/// An entry of a stage's symbol table: `symbol` names `function` there.
#[derive(Clone, Copy, Debug)]
pub struct SymbolBinding {
    pub stage: usize,
    pub symbol: u64,
    pub function: usize,
}

/// The whole program: stages are named by their index in `stages`,
/// functions by their index in `functions`.
#[derive(Clone, Debug)]
pub struct PipelineModel {
    pub stages: Vec<StageModel>,
    pub functions: Vec<FunctionModel>,
    pub bindings: Vec<SymbolBinding>,
}

/// What a call resolves to.
#[derive(Clone, Copy, Debug, PartialEq, Eq, Structural)]
pub enum EntryTarget {
    /// A function with no usable specialization; entering it will select one.
    Function(usize),
    /// A specific specialization.
    SpecializedFunction(u64),
}

/// A resolved call: the stage whose body runs and the entry to run.
#[derive(Clone, Copy, Debug, PartialEq, Eq, Structural)]
pub struct ResolvedCallTarget {
    pub stage: usize,
    pub target: EntryTarget,
}

/// Why a staged function has no unique live specialization.
#[derive(Clone, Copy, Debug, PartialEq, Eq, Structural)]
pub enum UniqueLiveSpecializationError {
    NoSpecialization,
    Ambiguous { count: usize },
}

/// The index of the first element of `s`, at or after `i`, that satisfies `p`.
pub open spec fn first_from<T>(s: Seq<T>, p: spec_fn(T) -> bool, i: int) -> Option<int>
    decreases s.len() - i,
{
    if i < 0 || i >= s.len() {
        None
    } else if p(s[i]) {
        Some(i)
    } else {
        first_from(s, p, i + 1)
    }
}

/// The ids of the live specializations, in order.
pub open spec fn live_ids(s: Seq<SpecializationModel>) -> Seq<u64>
    decreases s.len(),
{
    if s.len() == 0 {
        Seq::empty()
    } else if s.last().live {
        live_ids(s.drop_last()).push(s.last().id)
    } else {
        live_ids(s.drop_last())
    }
}

/// The unique live specialization among `s`, or why there is none.
pub open spec fn spec_unique_live(s: Seq<SpecializationModel>) -> Result<
    u64,
    UniqueLiveSpecializationError,
> {
    let ids = live_ids(s);
    if ids.len() == 0 {
        Err(UniqueLiveSpecializationError::NoSpecialization)
    } else if ids.len() == 1 {
        Ok(ids[0])
    } else {
        Err(UniqueLiveSpecializationError::Ambiguous { count: ids.len() as usize })
    }
}

proof fn lemma_first_from_found<T>(s: Seq<T>, p: spec_fn(T) -> bool, i: int)
    requires
        0 <= i < s.len(),
        p(s[i]),
    ensures
        first_from(s, p, i) == Some(i),
{
}

/// `first_from` only returns an index that satisfies the predicate, and
/// skips none that does.
pub proof fn lemma_first_from_spec<T>(s: Seq<T>, p: spec_fn(T) -> bool, i: int)
    ensures
        first_from(s, p, i) matches Some(j) ==> i <= j < s.len() && p(s[j]) && forall|k: int|
            i <= k < j ==> !p(#[trigger] s[k]),
        first_from(s, p, i) is None ==> forall|k: int| 0 <= i <= k < s.len() ==> !p(#[trigger] s[k]),
    decreases s.len() - i,
{
    if 0 <= i < s.len() && !p(s[i]) {
        lemma_first_from_spec(s, p, i + 1);
    }
}

/// Holds of a stage named `name`.
pub open spec fn stage_named(name: Seq<char>) -> spec_fn(StageModel) -> bool {
    |st: StageModel| st.name@ == name
}

/// Holds of a function named `name`.
pub open spec fn function_named(name: Seq<char>) -> spec_fn(FunctionModel) -> bool {
    |f: FunctionModel| f.name@ == name
}

/// Holds of a declaration at `stage`.
pub open spec fn declared_at(stage: int) -> spec_fn(StagedModel) -> bool {
    |s: StagedModel| s.stage == stage
}

/// Holds of a symbol-table entry for `symbol` at `stage`.
pub open spec fn binds(stage: int, symbol: u64) -> spec_fn(SymbolBinding) -> bool {
    |b: SymbolBinding| b.stage == stage && b.symbol == symbol
}

/// Holds of the specialization with id `id`.
pub open spec fn has_id(id: u64) -> spec_fn(SpecializationModel) -> bool {
    |sp: SpecializationModel| sp.id == id
}

/// The first declaration at `stage`, at or after `j`, that defines
/// specialization `id`, with the specialization's index.
pub open spec fn find_in_staged(s: Seq<StagedModel>, stage: int, id: u64, j: int) -> Option<
    (int, int),
>
    decreases s.len() - j,
{
    if j < 0 || j >= s.len() {
        None
    } else if s[j].stage == stage && first_from(s[j].specializations@, has_id(id), 0) is Some {
        Some((j, first_from(s[j].specializations@, has_id(id), 0).unwrap()))
    } else {
        find_in_staged(s, stage, id, j + 1)
    }
}

/// The first function, at or after `f`, with a declaration at `stage` that
/// defines specialization `id`.
pub open spec fn find_in_functions(s: Seq<FunctionModel>, stage: int, id: u64, f: int) -> Option<
    (int, int, int),
>
    decreases s.len() - f,
{
    if f < 0 || f >= s.len() {
        None
    } else {
        match find_in_staged(s[f].staged@, stage, id, 0) {
            Some((j, k)) => Some((f, j, k)),
            None => find_in_functions(s, stage, id, f + 1),
        }
    }
}

impl StagedModel {
    /// The unique live specialization, or why there is none.
    pub fn unique_live_specialization(&self) -> (r: Result<u64, UniqueLiveSpecializationError>)
        ensures
            r == spec_unique_live(self.specializations@),
    {
        let n = self.specializations.len();
        let mut count: usize = 0;
        let mut first: u64 = 0;
        let mut i: usize = 0;
        while i < n
            invariant
                n == self.specializations@.len(),
                0 <= i <= n,
                count == live_ids(self.specializations@.subrange(0, i as int)).len(),
                count <= i,
                count >= 1 ==> first == live_ids(self.specializations@.subrange(0, i as int))[0],
            decreases n - i,
        {
            let ghost s = self.specializations@;
            assert(s.subrange(0, i + 1).drop_last() =~= s.subrange(0, i as int));
            assert(s.subrange(0, i + 1).last() == s[i as int]);
            if self.specializations[i].live {
                if count == 0 {
                    first = self.specializations[i].id;
                }
                count = count + 1;
            }
            i = i + 1;
        }
        assert(self.specializations@.subrange(0, n as int) =~= self.specializations@);
        if count == 0 {
            Err(UniqueLiveSpecializationError::NoSpecialization)
        } else if count == 1 {
            Ok(first)
        } else {
            Err(UniqueLiveSpecializationError::Ambiguous { count })
        }
    }
}

impl PipelineModel {
    /// The stage named `name`.
    pub open spec fn spec_stage_by_name(self, name: Seq<char>) -> Option<int> {
        first_from(self.stages@, stage_named(name), 0)
    }

    /// The function named `name`.
    pub open spec fn spec_function_by_name(self, name: Seq<char>) -> Option<int> {
        first_from(self.functions@, function_named(name), 0)
    }

    /// The index, among the function's declarations, of its declaration at
    /// `stage`.
    pub open spec fn spec_staged(self, function: int, stage: int) -> Option<int> {
        if 0 <= function < self.functions@.len() {
            first_from(self.functions@[function].staged@, declared_at(stage), 0)
        } else {
            None
        }
    }

    /// The function that `symbol` names in `stage`'s symbol table.
    pub open spec fn spec_resolve_function(self, stage: int, symbol: u64) -> Option<int> {
        match first_from(self.bindings@, binds(stage, symbol), 0) {
            Some(i) => Some(self.bindings@[i].function as int),
            None => None,
        }
    }

    /// The unique live specialization of `function` at `stage`, when the
    /// stage exists, the function is declared there and has exactly one.
    pub open spec fn spec_live_at(self, stage: int, function: int) -> Option<u64> {
        match self.spec_staged(function, stage) {
            Some(j) => if 0 <= stage < self.stages@.len() {
                match spec_unique_live(self.functions@[function].staged@[j].specializations@) {
                    Ok(id) => Some(id),
                    Err(_) => None,
                }
            } else {
                None
            },
            None => None,
        }
    }

    /// The first stage other than `avoid`, at or after `i`, where `function`
    /// has a unique live specialization.
    pub open spec fn spec_first_live_other(self, avoid: int, function: int, i: int) -> Option<int>
        decreases self.stages@.len() - i,
    {
        if i < 0 || i >= self.stages@.len() {
            None
        } else if i != avoid && self.spec_live_at(i, function) is Some {
            Some(i)
        } else {
            self.spec_first_live_other(avoid, function, i + 1)
        }
    }

    /// Where a call of `target` from `stage` goes: the callee's live
    /// specialization at the caller's stage if it has one; otherwise the
    /// first other stage, in pipeline order, that has one; otherwise the
    /// function itself at the caller's stage.
    pub open spec fn spec_resolve_cross_stage(
        self,
        dialect: StageKind,
        location: Location,
        target: u64,
    ) -> Result<ResolvedCallTarget, ToyError> {
        let stage = location.stage as int;
        if !(0 <= stage < self.stages@.len()) {
            Err(ToyError::Core(InterpreterError::MissingStage(stage as usize)))
        } else if self.stages@[stage].kind != dialect {
            Err(ToyError::Core(InterpreterError::MissingStageInfo(stage as usize)))
        } else {
            match self.spec_resolve_function(stage, target) {
                None => Err(
                    ToyError::Core(
                        InterpreterError::MissingCallTarget { location, target },
                    ),
                ),
                Some(function) => match self.spec_live_at(stage, function) {
                    Some(id) => Ok(
                        ResolvedCallTarget {
                            stage: stage as usize,
                            target: EntryTarget::SpecializedFunction(id),
                        },
                    ),
                    None => match self.spec_first_live_other(stage, function, 0) {
                        Some(other) => Ok(
                            ResolvedCallTarget {
                                stage: other as usize,
                                target: EntryTarget::SpecializedFunction(
                                    self.spec_live_at(other, function).unwrap(),
                                ),
                            },
                        ),
                        None => Ok(
                            ResolvedCallTarget {
                                stage: stage as usize,
                                target: EntryTarget::Function(function as usize),
                            },
                        ),
                    },
                },
            }
        }
    }

    /// The stage with index `stage`.
    pub fn stage(&self, stage: usize) -> (r: Option<&StageModel>)
        ensures
            r == (if stage < self.stages@.len() {
                Some(&self.stages@[stage as int])
            } else {
                None
            }),
    {
        if stage < self.stages.len() {
            Some(&self.stages[stage])
        } else {
            None
        }
    }

    /// The first stage named `name`.
    pub fn stage_by_name(&self, name: &str) -> (r: Option<usize>)
        ensures
            r matches Some(i) ==> self.spec_stage_by_name(name@) == Some(i as int),
            r is None ==> self.spec_stage_by_name(name@) is None,
    {
        let wanted = name.to_owned();
        let ghost p = stage_named(name@);
        let mut i: usize = 0;
        while i < self.stages.len()
            invariant
                0 <= i <= self.stages@.len(),
                wanted@ == name@,
                p == stage_named(name@),
                first_from(self.stages@, p, 0) == first_from(self.stages@, p, i as int),
            decreases self.stages@.len() - i,
        {
            if self.stages[i].name == wanted {
                proof {
                    lemma_first_from_found(self.stages@, p, i as int);
                }
                return Some(i);
            }
            i = i + 1;
        }
        None
    }

    /// The first function named `name`.
    pub fn lookup_function_by_name(&self, name: &str) -> (r: Option<usize>)
        ensures
            r matches Some(i) ==> self.spec_function_by_name(name@) == Some(i as int),
            r is None ==> self.spec_function_by_name(name@) is None,
    {
        let wanted = name.to_owned();
        let ghost p = function_named(name@);
        let mut i: usize = 0;
        while i < self.functions.len()
            invariant
                0 <= i <= self.functions@.len(),
                wanted@ == name@,
                p == function_named(name@),
                first_from(self.functions@, p, 0) == first_from(self.functions@, p, i as int),
            decreases self.functions@.len() - i,
        {
            if self.functions[i].name == wanted {
                proof {
                    lemma_first_from_found(self.functions@, p, i as int);
                }
                return Some(i);
            }
            i = i + 1;
        }
        None
    }

    /// The declaration of `function` at `stage`, as an index into the
    /// function's declarations.
    pub fn staged_index(&self, function: usize, stage: usize) -> (r: Option<usize>)
        ensures
            r matches Some(j) ==> self.spec_staged(function as int, stage as int) == Some(j as int),
            r is None ==> self.spec_staged(function as int, stage as int) is None,
    {
        if function >= self.functions.len() {
            return None;
        }
        let staged = &self.functions[function].staged;
        let ghost p = declared_at(stage as int);
        let mut j: usize = 0;
        while j < staged.len()
            invariant
                0 <= j <= staged@.len(),
                function < self.functions@.len(),
                staged@ == self.functions@[function as int].staged@,
                p == declared_at(stage as int),
                first_from(staged@, p, 0) == first_from(staged@, p, j as int),
            decreases staged@.len() - j,
        {
            if staged[j].stage == stage {
                proof {
                    lemma_first_from_found(staged@, p, j as int);
                }
                return Some(j);
            }
            j = j + 1;
        }
        None
    }

    /// The function that `symbol` names in `stage`'s symbol table.
    pub fn resolve_function(&self, stage: usize, symbol: u64) -> (r: Option<usize>)
        ensures
            r matches Some(f) ==> self.spec_resolve_function(stage as int, symbol) == Some(
                f as int,
            ),
            r is None ==> self.spec_resolve_function(stage as int, symbol) is None,
    {
        let ghost p = binds(stage as int, symbol);
        let mut i: usize = 0;
        while i < self.bindings.len()
            invariant
                0 <= i <= self.bindings@.len(),
                p == binds(stage as int, symbol),
                first_from(self.bindings@, p, 0) == first_from(self.bindings@, p, i as int),
            decreases self.bindings@.len() - i,
        {
            if self.bindings[i].stage == stage && self.bindings[i].symbol == symbol {
                proof {
                    lemma_first_from_found(self.bindings@, p, i as int);
                }
                return Some(self.bindings[i].function);
            }
            i = i + 1;
        }
        None
    }

    /// The unique live specialization of `function` at `stage` as a call
    /// target, if there is one.
    pub fn live_specialization_at_stage(&self, stage: usize, function: usize) -> (r: Option<
        ResolvedCallTarget,
    >)
        ensures
            r == (match self.spec_live_at(stage as int, function as int) {
                Some(id) => Some(
                    ResolvedCallTarget { stage, target: EntryTarget::SpecializedFunction(id) },
                ),
                None => None,
            }),
    {
        let j = match self.staged_index(function, stage) {
            Some(j) => j,
            None => return None,
        };
        proof {
            lemma_first_from_spec(
                self.functions@[function as int].staged@,
                declared_at(stage as int),
                0,
            );
        }
        if self.stage(stage).is_none() {
            return None;
        }
        match self.functions[function].staged[j].unique_live_specialization() {
            Ok(id) => Some(ResolvedCallTarget { stage, target: EntryTarget::SpecializedFunction(id) }),
            Err(_) => None,
        }
    }

    /// Resolves the call of `target` at `location`, made from code of
    /// dialect `dialect`: prefer the callee's live specialization at the
    /// caller's stage, fall back to the first other stage that has one, and
    /// otherwise hand back the function itself.
    pub fn resolve_cross_stage_call_target(
        &self,
        dialect: StageKind,
        location: Location,
        target: u64,
    ) -> (r: Result<ResolvedCallTarget, ToyError>)
        ensures
            r == self.spec_resolve_cross_stage(dialect, location, target),
    {
        let stage = location.stage;
        let info = match self.stage(stage) {
            Some(info) => info,
            None => return Err(ToyError::Core(InterpreterError::MissingStage(stage))),
        };
        if info.kind != dialect {
            return Err(ToyError::Core(InterpreterError::MissingStageInfo(stage)));
        }
        let function = match self.resolve_function(stage, target) {
            Some(f) => f,
            None => return Err(ToyError::Core(InterpreterError::MissingCallTarget { location, target })),
        };
        if let Some(found) = self.live_specialization_at_stage(stage, function) {
            return Ok(found);
        }
        let mut other: usize = 0;
        while other < self.stages.len()
            invariant
                0 <= other <= self.stages@.len(),
                stage == location.stage,
                stage < self.stages@.len(),
                self.stages@[stage as int].kind == dialect,
                self.spec_resolve_function(stage as int, target) == Some(function as int),
                self.spec_live_at(stage as int, function as int) is None,
                self.spec_first_live_other(stage as int, function as int, 0)
                    == self.spec_first_live_other(stage as int, function as int, other as int),
            decreases self.stages@.len() - other,
        {
            if other != stage {
                if let Some(found) = self.live_specialization_at_stage(other, function) {
                    return Ok(found);
                }
            }
            other = other + 1;
        }
        Ok(ResolvedCallTarget { stage, target: EntryTarget::Function(function) })
    }

    pub open spec fn spec_at(self, f: int, j: int, k: int) -> SpecializationModel {
        self.functions@[f].staged@[j].specializations@[k]
    }

    /// Where specialization `id` is defined at `stage`: the first
    /// (function, declaration, specialization) in pipeline order.
    pub open spec fn spec_find(self, stage: int, id: u64) -> Option<(int, int, int)> {
        find_in_functions(self.functions@, stage, id, 0)
    }

    /// The entry block of specialization `id` at `stage`, when the stage
    /// exists and the specialization is defined there with an entry block.
    pub open spec fn spec_entry_block(self, id: u64, stage: int) -> Option<u64> {
        if !(0 <= stage < self.stages@.len()) {
            None
        } else {
            match self.spec_find(stage, id) {
                Some((f, j, k)) => self.spec_at(f, j, k).entry_block,
                None => None,
            }
        }
    }

    /// The stage's IR, checked to be of dialect `dialect`.
    pub open spec fn spec_stage_info(self, stage: int, dialect: StageKind) -> Result<
        (),
        ToyError,
    > {
        if !(0 <= stage < self.stages@.len()) {
            Err(ToyError::Core(InterpreterError::MissingStage(stage as usize)))
        } else if self.stages@[stage].kind != dialect {
            Err(ToyError::Core(InterpreterError::MissingStageInfo(stage as usize)))
        } else {
            Ok(())
        }
    }

    /// The unique live specialization of `function` at `stage`, or why
    /// there is none.
    pub open spec fn spec_specialization_at(self, function: int, stage: int) -> Result<
        u64,
        InterpreterError,
    > {
        if !(0 <= function < self.functions@.len()) {
            Err(InterpreterError::MissingFunction(function as usize))
        } else {
            match self.spec_staged(function, stage) {
                None => Err(
                    InterpreterError::MissingStagedFunction {
                        function: function as usize,
                        stage: stage as usize,
                    },
                ),
                Some(j) => match spec_unique_live(
                    self.functions@[function].staged@[j].specializations@,
                ) {
                    Ok(id) => Ok(id),
                    Err(UniqueLiveSpecializationError::NoSpecialization) => Err(
                        InterpreterError::MissingSpecialization(
                            StagedRef { function: function as usize, declaration: j as usize },
                        ),
                    ),
                    Err(UniqueLiveSpecializationError::Ambiguous { count }) => Err(
                        InterpreterError::AmbiguousSpecialization {
                            function: StagedRef { function: function as usize, declaration: j as usize },
                            count,
                        },
                    ),
                },
            }
        }
    }

    /// The stage's IR, checked to be of dialect `dialect`.
    pub fn stage_info(&self, stage: usize, dialect: StageKind) -> (r: Result<&StageModel, ToyError>)
        ensures
            r matches Ok(info) ==> stage < self.stages@.len() && *info == self.stages@[stage as int],
            r is Ok <==> self.spec_stage_info(stage as int, dialect) is Ok,
            r matches Err(e) ==> self.spec_stage_info(stage as int, dialect) == Err::<(), ToyError>(
                e,
            ),
    {
        let info = match self.stage(stage) {
            Some(info) => info,
            None => return Err(ToyError::Core(InterpreterError::MissingStage(stage))),
        };
        if info.kind != dialect {
            return Err(ToyError::Core(InterpreterError::MissingStageInfo(stage)));
        }
        Ok(info)
    }

    /// The declaration of `function` at `stage`, or why there is none.
    pub fn staged_function(&self, stage: usize, function: usize) -> (r: Result<usize, ToyError>)
        ensures
            r matches Ok(j) ==> self.spec_staged(function as int, stage as int) == Some(j as int),
            r matches Err(e) ==> e == (if function >= self.functions@.len() {
                ToyError::Core(InterpreterError::MissingFunction(function))
            } else {
                ToyError::Core(InterpreterError::MissingStagedFunction { function, stage })
            }) && self.spec_staged(function as int, stage as int) is None,
    {
        if function >= self.functions.len() {
            return Err(ToyError::Core(InterpreterError::MissingFunction(function)));
        }
        match self.staged_index(function, stage) {
            Some(j) => Ok(j),
            None => Err(ToyError::Core(InterpreterError::MissingStagedFunction { function, stage })),
        }
    }

    /// The unique live specialization of `function` at `stage`, or why
    /// there is none.
    pub fn specialization_at(&self, function: usize, stage: usize) -> (r: Result<u64, InterpreterError>)
        ensures
            r == self.spec_specialization_at(function as int, stage as int),
    {
        if function >= self.functions.len() {
            return Err(InterpreterError::MissingFunction(function));
        }
        let j = match self.staged_index(function, stage) {
            Some(j) => j,
            None => return Err(InterpreterError::MissingStagedFunction { function, stage }),
        };
        proof {
            lemma_first_from_spec(
                self.functions@[function as int].staged@,
                declared_at(stage as int),
                0,
            );
        }
        match self.functions[function].staged[j].unique_live_specialization() {
            Ok(id) => Ok(id),
            Err(UniqueLiveSpecializationError::NoSpecialization) => Err(
                InterpreterError::MissingSpecialization(StagedRef { function, declaration: j }),
            ),
            Err(UniqueLiveSpecializationError::Ambiguous { count }) => Err(
                InterpreterError::AmbiguousSpecialization {
                    function: StagedRef { function, declaration: j },
                    count,
                },
            ),
        }
    }

    /// The specialization to run for declaration `staged` of `function` at
    /// `stage`: checks the stage, then asks for the unique live
    /// specialization.
    pub fn specialized_function(
        &self,
        stage: usize,
        dialect: StageKind,
        function: usize,
        staged: usize,
    ) -> (r: Result<u64, ToyError>)
        requires
            function < self.functions@.len(),
            staged < self.functions@[function as int].staged@.len(),
            self.functions@[function as int].staged@[staged as int].stage == stage,
        ensures
            r == (match self.spec_stage_info(stage as int, dialect) {
                Err(e) => Err(e),
                Ok(_) => match spec_unique_live(
                    self.functions@[function as int].staged@[staged as int].specializations@,
                ) {
                    Ok(id) => Ok(id),
                    Err(UniqueLiveSpecializationError::NoSpecialization) => Err(
                        ToyError::Core(
                            InterpreterError::MissingSpecialization(
                                StagedRef { function, declaration: staged },
                            ),
                        ),
                    ),
                    Err(UniqueLiveSpecializationError::Ambiguous { count }) => Err(
                        ToyError::Core(
                            InterpreterError::AmbiguousSpecialization {
                                function: StagedRef { function, declaration: staged },
                                count,
                            },
                        ),
                    ),
                },
            }),
    {
        match self.stage_info(stage, dialect) {
            Ok(_) => {},
            Err(e) => return Err(e),
        }
        match self.functions[function].staged[staged].unique_live_specialization() {
            Ok(id) => Ok(id),
            Err(UniqueLiveSpecializationError::NoSpecialization) => Err(
                ToyError::Core(
                            InterpreterError::MissingSpecialization(
                                StagedRef { function, declaration: staged },
                            ),
                        ),
            ),
            Err(UniqueLiveSpecializationError::Ambiguous { count }) => Err(
                ToyError::Core(
                    InterpreterError::AmbiguousSpecialization {
                        function: StagedRef { function, declaration: staged },
                        count,
                    },
                ),
            ),
        }
    }

    /// Where specialization `id` is defined at `stage`, as indices
    /// (function, declaration, specialization).
    pub fn find_specialization(&self, stage: usize, id: u64) -> (r: Option<(usize, usize, usize)>)
        ensures
            r matches Some((f, j, k)) ==> self.spec_find(stage as int, id) == Some(
                (f as int, j as int, k as int),
            ) && f < self.functions@.len() && j < self.functions@[f as int].staged@.len() && k
                < self.functions@[f as int].staged@[j as int].specializations@.len(),
            r is None ==> self.spec_find(stage as int, id) is None,
    {
        let mut f: usize = 0;
        while f < self.functions.len()
            invariant
                0 <= f <= self.functions@.len(),
                find_in_functions(self.functions@, stage as int, id, 0) == find_in_functions(
                    self.functions@,
                    stage as int,
                    id,
                    f as int,
                ),
            decreases self.functions@.len() - f,
        {
            let staged = &self.functions[f].staged;
            let mut j: usize = 0;
            while j < staged.len()
                invariant
                    0 <= f < self.functions@.len(),
                    staged@ == self.functions@[f as int].staged@,
                    0 <= j <= staged@.len(),
                    find_in_functions(self.functions@, stage as int, id, 0) == find_in_functions(
                        self.functions@,
                        stage as int,
                        id,
                        f as int,
                    ),
                    find_in_staged(staged@, stage as int, id, 0) == find_in_staged(
                        staged@,
                        stage as int,
                        id,
                        j as int,
                    ),
                decreases staged@.len() - j,
            {
                if staged[j].stage == stage {
                    let specs = &staged[j].specializations;
                    let ghost p = has_id(id);
                    let mut k: usize = 0;
                    while k < specs.len()
                        invariant
                            0 <= f < self.functions@.len(),
                            staged@ == self.functions@[f as int].staged@,
                            0 <= j < staged@.len(),
                            staged@[j as int].stage == stage,
                            find_in_functions(self.functions@, stage as int, id, 0)
                                == find_in_functions(self.functions@, stage as int, id, f as int),
                            find_in_staged(staged@, stage as int, id, 0) == find_in_staged(
                                staged@,
                                stage as int,
                                id,
                                j as int,
                            ),
                            specs@ == staged@[j as int].specializations@,
                            0 <= k <= specs@.len(),
                            p == has_id(id),
                            first_from(specs@, p, 0) == first_from(specs@, p, k as int),
                        decreases specs@.len() - k,
                    {
                        if specs[k].id == id {
                            proof {
                                lemma_first_from_found(specs@, p, k as int);
                            }
                            return Some((f, j, k));
                        }
                        k = k + 1;
                    }
                }
                j = j + 1;
            }
            f = f + 1;
        }
        None
    }

    /// The body of specialization `id` at `stage`.
    pub fn function_body(&self, stage: usize, dialect: StageKind, id: u64) -> (r: Result<
        u64,
        ToyError,
    >)
        ensures
            r == (match self.spec_stage_info(stage as int, dialect) {
                Err(e) => Err(e),
                Ok(_) => match self.spec_find(stage as int, id) {
                    Some((f, j, k)) => Ok(self.spec_at(f, j, k).body),
                    None => Err(
                        ToyError::Core(InterpreterError::MissingFunctionBody { function: id, stage }),
                    ),
                },
            }),
    {
        match self.stage_info(stage, dialect) {
            Ok(_) => {},
            Err(e) => return Err(e),
        }
        match self.find_specialization(stage, id) {
            Some((f, j, k)) => Ok(self.functions[f].staged[j].specializations[k].body),
            None => Err(ToyError::Core(InterpreterError::MissingFunctionBody { function: id, stage })),
        }
    }

    /// The entry block of specialization `callee` at `stage`; `MissingEntry`
    /// when the stage, the specialization or its entry block is missing.
    pub fn entry_block_for(&self, callee: u64, stage: usize) -> (r: Result<u64, InterpreterError>)
        ensures
            r == (match self.spec_entry_block(callee, stage as int) {
                Some(b) => Ok(b),
                None => Err(InterpreterError::MissingEntry),
            }),
    {
        if self.stage(stage).is_none() {
            return Err(InterpreterError::MissingEntry);
        }
        match self.find_specialization(stage, callee) {
            Some((f, j, k)) => match self.functions[f].staged[j].specializations[k].entry_block {
                Some(b) => Ok(b),
                None => Err(InterpreterError::MissingEntry),
            },
            None => Err(InterpreterError::MissingEntry),
        }
    }

    /// The stage and function a run starts from, looked up by name.
    pub fn resolve_entry(&self, stage_name: &str, function_name: &str) -> (r: Result<
        (usize, usize),
        ToyError,
    >)
        ensures
            r matches Ok((st, f)) ==> self.spec_stage_by_name(stage_name@) == Some(st as int)
                && self.spec_function_by_name(function_name@) == Some(f as int),
            self.spec_stage_by_name(stage_name@) is None ==> (r matches Err(
                ToyError::Core(InterpreterError::MissingStageName(n)),
            ) && n@ == stage_name@),
            self.spec_stage_by_name(stage_name@) is Some && self.spec_function_by_name(
                function_name@,
            ) is None ==> (r matches Err(ToyError::Core(InterpreterError::MissingFunctionName(n)))
                && n@ == function_name@),
    {
        let stage = match self.stage_by_name(stage_name) {
            Some(s) => s,
            None => return Err(ToyError::Core(InterpreterError::MissingStageName(stage_name.to_owned()))),
        };
        let function = match self.lookup_function_by_name(function_name) {
            Some(f) => f,
            None => return Err(
                ToyError::Core(InterpreterError::MissingFunctionName(function_name.to_owned())),
            ),
        };
        Ok((stage, function))
    }
}

proof fn lemma_first_live_other_found(p: PipelineModel, avoid: int, function: int, i: int, s: int)
    requires
        0 <= i <= s < p.stages@.len(),
        s != avoid,
        p.spec_live_at(s, function) is Some,
    ensures
        p.spec_first_live_other(avoid, function, i) matches Some(t) && t != avoid
            && p.spec_live_at(t, function) is Some,
    decreases s - i,
{
    if !(i != avoid && p.spec_live_at(i, function) is Some) {
        lemma_first_live_other_found(p, avoid, function, i + 1, s);
    }
}

/// Cross-stage resolution reaches a body whenever the called function has a
/// unique live specialization at some stage: the call resolves to a live
/// specialization, at the caller's stage whenever it has one there.
pub proof fn cross_stage_resolution_finds_body(
    p: PipelineModel,
    dialect: StageKind,
    location: Location,
    target: u64,
    function: int,
    other: int,
)
    requires
        p.stages@.len() <= usize::MAX,
        0 <= location.stage < p.stages@.len(),
        p.stages@[location.stage as int].kind == dialect,
        p.spec_resolve_function(location.stage as int, target) == Some(function),
        0 <= other < p.stages@.len(),
        p.spec_live_at(other, function) is Some,
    ensures
        p.spec_resolve_cross_stage(dialect, location, target) matches Ok(t)
            && t.target matches EntryTarget::SpecializedFunction(id) && p.spec_live_at(
            t.stage as int,
            function,
        ) == Some(id),
        p.spec_live_at(location.stage as int, function) is Some ==> p.spec_resolve_cross_stage(dialect, location, target) == Ok::<ResolvedCallTarget, ToyError>(
            ResolvedCallTarget {
                stage: location.stage,
                target: EntryTarget::SpecializedFunction(p.spec_live_at(location.stage as int, function).unwrap()),
            },
        ),
{
    if p.spec_live_at(location.stage as int, function) is None {
        lemma_first_live_other_found(p, location.stage as int, function, 0, other);
    }
}

} // verus!
