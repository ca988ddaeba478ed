//! Errors of the interpreters and of call resolution.

use vstd::prelude::*;

verus! {

/// A place in the IR: the stage and the statement the interpreter stands
/// at.
#[derive(Clone, Copy, Debug, PartialEq, Eq, Structural)]
pub struct Location {
    pub stage: usize,
    pub statement: u64,
}

/// A function's declaration at one stage: the function's index and the
/// declaration's position among that function's declarations.
#[derive(Clone, Copy, Debug, PartialEq, Eq, Structural)]
pub struct StagedRef {
    pub function: usize,
    pub declaration: usize,
}

/// Why an interpreter or a resolution step stopped. Stages and functions are
/// named by their index in the pipeline, specializations and symbols by
/// their id.
#[derive(Clone, Debug, PartialEq, Eq)]
pub enum InterpreterError {
    /// No stage has this index.
    MissingStage(usize),
    /// The stage holds IR of another dialect than the one asked for.
    MissingStageInfo(usize),
    /// No stage has this name.
    MissingStageName(String),
    /// No function has this name.
    MissingFunctionName(String),
    /// The symbol of the call at `location` names no function at that
    /// location's stage.
    MissingCallTarget { location: Location, target: u64 },
    /// The symbol does not resolve to a specialization to run at the stage.
    UnresolvedCall { stage: usize, target: u64 },
    /// No function has this index.
    MissingFunction(usize),
    /// The function is not declared at the stage.
    MissingStagedFunction { function: usize, stage: usize },
    /// The function has no live specialization at the stage.
    MissingSpecialization(StagedRef),
    /// The function has more than one live specialization at the stage.
    AmbiguousSpecialization { function: StagedRef, count: usize },
    /// The specialization is not defined at the stage.
    MissingFunctionBody { function: u64, stage: usize },
    /// A call target or entry block could not be found.
    MissingEntry,
    /// A frame was needed but the frame stack is empty.
    EmptyFrameStack,
    /// A return found no call frame.
    NoFrame,
    /// A call passes another number of arguments than an earlier call.
    ArityMismatch { expected: usize, got: usize },
    /// A concrete interpreter met a nondeterministic fork.
    UnhandledEffect(String),
    /// A concrete interpreter met a branch it cannot decide.
    IndeterminateBranch,
    /// The function asked for is not a control-flow-graph function.
    NotCfgFunction,
}

/// The error of the toy language's interpreters: an interpreter error, or
/// a literal that could not be converted to the value type.
#[derive(Clone, Debug, PartialEq, Eq)]
pub enum ToyError {
    Core(InterpreterError),
    ArithConversion,
}

impl From<InterpreterError> for ToyError {
    fn from(error: InterpreterError) -> (r: ToyError) {
        ToyError::Core(error)
    }
}

impl vstd::std_specs::convert::FromSpecImpl<InterpreterError> for ToyError {
    open spec fn obeys_from_spec() -> bool {
        true
    }

    open spec fn from_spec(v: InterpreterError) -> ToyError {
        ToyError::Core(v)
    }
}

} // verus!
