//! Routing of calls between the two stages: a call made from one stage runs
//! the callee's body at that stage when it has one there, and otherwise
//! crosses to the other stage; and the choice of cursor for a callee.

use vstd::prelude::*;
use crate::error::InterpreterError;
use crate::machine::Control;
use crate::pipeline::{PipelineModel, StageKind};

verus! {

/// How a call is entered: the dialect of the callee's stage, which selects
/// the kind of cursor, and the block the cursor starts at.
#[derive(Clone, Copy, Debug, PartialEq, Eq, Structural)]
pub struct CallEntry {
    pub kind: StageKind,
    pub entry_block: u64,
}

impl PipelineModel {
    /// The specialization that a call of `target` from `stage` runs at that
    /// same stage.
    pub open spec fn spec_resolve_for(self, target: u64, stage: int) -> Result<u64, InterpreterError> {
        match self.spec_resolve_function(stage, target) {
            None => Err(InterpreterError::UnresolvedCall { stage: stage as usize, target }),
            Some(function) => self.spec_specialization_at(function, stage),
        }
    }

    /// The specialization at stage `to` of the function that `target` names
    /// at stage `from`.
    pub open spec fn spec_resolve_cross(self, target: u64, from: int, to: int) -> Result<
        u64,
        InterpreterError,
    > {
        match self.spec_resolve_function(from, target) {
            None => Err(InterpreterError::UnresolvedCall { stage: from as usize, target }),
            Some(function) => self.spec_specialization_at(function, to),
        }
    }

    /// The stage a call crosses to from a stage of dialect `kind`.
    pub open spec fn spec_other_stage(self, kind: StageKind) -> Option<int> {
        match kind {
            StageKind::Source => self.spec_stage_by_name("lowered"@),
            StageKind::Lowered => self.spec_stage_by_name("source"@),
        }
    }

    /// Where a call of `target` from `caller_stage` goes: the callee's
    /// specialization at the caller's stage if it resolves there; otherwise
    /// its specialization at the other stage.
    pub open spec fn spec_dispatch(self, target: u64, caller_stage: int) -> Result<
        (u64, usize),
        InterpreterError,
    > {
        if !(0 <= caller_stage < self.stages@.len()) {
            Err(InterpreterError::MissingEntry)
        } else {
            match self.spec_resolve_for(target, caller_stage) {
                Ok(callee) => Ok((callee, caller_stage as usize)),
                Err(_) => match self.spec_other_stage(self.stages@[caller_stage].kind) {
                    None => Err(InterpreterError::MissingEntry),
                    Some(other) => match self.spec_resolve_cross(target, caller_stage, other) {
                        Ok(callee) => Ok((callee, other as usize)),
                        Err(e) => Err(e),
                    },
                },
            }
        }
    }

    /// Resolves `target` at `stage` to the specialization to run there.
    pub fn resolve_function_for(&self, target: u64, stage: usize) -> (r: Result<u64, InterpreterError>)
        ensures
            r == self.spec_resolve_for(target, stage as int),
    {
        match self.resolve_function(stage, target) {
            None => Err(InterpreterError::UnresolvedCall { stage, target }),
            Some(function) => self.specialization_at(function, stage),
        }
    }

    /// Resolves `target` as named at stage `from` to its specialization at
    /// stage `to`.
    pub fn resolve_function_cross_stage(&self, target: u64, from: usize, to: usize) -> (r: Result<
        u64,
        InterpreterError,
    >)
        ensures
            r == self.spec_resolve_cross(target, from as int, to as int),
    {
        match self.resolve_function(from, target) {
            None => Err(InterpreterError::UnresolvedCall { stage: from, target }),
            Some(function) => self.specialization_at(function, to),
        }
    }

    /// Turns a call of `target` from `caller_stage` into a call request:
    /// the same stage when the callee resolves there, else the other stage
    /// (`lowered` from a source stage, `source` from a lowered one).
    pub fn dispatch_call<V, C>(
        &self,
        target: u64,
        caller_stage: usize,
        args: Vec<V>,
        results: Vec<u64>,
    ) -> (r: Result<Control<V, C>, InterpreterError>)
        ensures
            match self.spec_dispatch(target, caller_stage as int) {
                Ok((callee, stage)) => r matches Ok(
                    Control::Call { callee: c2, stage: s2, args: a2, results: r2 },
                ) && c2 == callee && s2 == stage && a2 == args && r2 == results,
                Err(e) => r == Err::<Control<V, C>, InterpreterError>(e),
            },
    {
        let kind = match self.stage(caller_stage) {
            Some(info) => info.kind,
            None => return Err(InterpreterError::MissingEntry),
        };
        if let Ok(callee) = self.resolve_function_for(target, caller_stage) {
            return Ok(Control::Call { callee, stage: caller_stage, args, results });
        }
        let other = match kind {
            StageKind::Source => self.stage_by_name("lowered"),
            StageKind::Lowered => self.stage_by_name("source"),
        };
        let other = match other {
            Some(o) => o,
            None => return Err(InterpreterError::MissingEntry),
        };
        match self.resolve_function_cross_stage(target, caller_stage, other) {
            Ok(callee) => Ok(Control::Call { callee, stage: other, args, results }),
            Err(e) => Err(e),
        }
    }

    /// How to enter specialization `callee` at `stage`: the stage's dialect
    /// and the callee's entry block; `MissingEntry` when the stage or the
    /// entry block is missing.
    pub fn make_call_entry(&self, callee: u64, stage: usize) -> (r: Result<CallEntry, InterpreterError>)
        ensures
            r == (match self.spec_entry_block(callee, stage as int) {
                Some(b) => Ok(CallEntry { kind: self.stages@[stage as int].kind, entry_block: b }),
                None => Err(InterpreterError::MissingEntry),
            }),
    {
        let kind = match self.stage(stage) {
            Some(info) => info.kind,
            None => return Err(InterpreterError::MissingEntry),
        };
        match self.entry_block_for(callee, stage) {
            Ok(entry_block) => Ok(CallEntry { kind, entry_block }),
            Err(e) => Err(e),
        }
    }

    /// The dialect of the cursor that walks a block at `stage` in abstract
    /// execution: source-stage blocks get a source cursor, anything else a
    /// lowered one.
    pub fn abstract_cursor_kind(&self, stage: usize) -> (r: StageKind)
        ensures
            r == (if stage < self.stages@.len() && self.stages@[stage as int].kind
                == StageKind::Source {
                StageKind::Source
            } else {
                StageKind::Lowered
            }),
    {
        match self.stage(stage) {
            Some(info) => match info.kind {
                StageKind::Source => StageKind::Source,
                StageKind::Lowered => StageKind::Lowered,
            },
            None => StageKind::Lowered,
        }
    }

    /// Where a call of `target` made by a statement of dialect `dialect`
    /// running at `current` goes: the callee's specialization at `current`
    /// if it resolves there; otherwise its specialization at the stage the
    /// dialect crosses to.
    pub open spec fn spec_route(self, dialect: StageKind, target: u64, current: int) -> Result<
        (u64, usize),
        InterpreterError,
    > {
        match self.spec_resolve_for(target, current) {
            Ok(callee) => Ok((callee, current as usize)),
            Err(_) => match self.spec_other_stage(dialect) {
                None => Err(InterpreterError::MissingEntry),
                Some(other) => match self.spec_resolve_cross(target, current, other) {
                    Ok(callee) => Ok((callee, other as usize)),
                    Err(e) => Err(e),
                },
            },
        }
    }

    /// The call request of a call statement of dialect `dialect` at stage
    /// `current` with the argument values `args` already read: same stage
    /// when the callee resolves there, else the other stage.
    pub fn eval_call<V, C>(
        &self,
        dialect: StageKind,
        target: u64,
        current: usize,
        args: Vec<V>,
        results: Vec<u64>,
    ) -> (r: Result<Control<V, C>, InterpreterError>)
        ensures
            match self.spec_route(dialect, target, current as int) {
                Ok((callee, stage)) => r matches Ok(
                    Control::Call { callee: c2, stage: s2, args: a2, results: r2 },
                ) && c2 == callee && s2 == stage && a2 == args && r2 == results,
                Err(e) => r == Err::<Control<V, C>, InterpreterError>(e),
            },
    {
        if let Ok(callee) = self.resolve_function_for(target, current) {
            return Ok(Control::Call { callee, stage: current, args, results });
        }
        let other = match dialect {
            StageKind::Source => self.stage_by_name("lowered"),
            StageKind::Lowered => self.stage_by_name("source"),
        };
        let other = match other {
            Some(o) => o,
            None => return Err(InterpreterError::MissingEntry),
        };
        match self.resolve_function_cross_stage(target, current, other) {
            Ok(callee) => Ok(Control::Call { callee, stage: other, args, results }),
            Err(e) => Err(e),
        }
    }
}

/// A call dispatched from a stage is routed as a call statement of that
/// stage's dialect would be: from a source stage it may cross to the
/// `lowered` stage, from a lowered stage to the `source` stage.
pub proof fn dispatch_routes_by_stage_dialect(p: PipelineModel, target: u64, stage: int)
    requires
        0 <= stage < p.stages@.len(),
    ensures
        p.spec_dispatch(target, stage) == p.spec_route(p.stages@[stage].kind, target, stage),
{
}

/// A call stays at the caller's stage exactly when the callee resolves
/// there; otherwise it goes to the stage the caller's dialect crosses to.
pub proof fn calls_cross_only_when_needed(
    p: PipelineModel,
    dialect: StageKind,
    target: u64,
    current: int,
)
    ensures
        p.spec_resolve_for(target, current) matches Ok(callee) ==> p.spec_route(
            dialect,
            target,
            current,
        ) == Ok::<(u64, usize), InterpreterError>((callee, current as usize)),
        p.spec_resolve_for(target, current) is Err ==> (p.spec_route(dialect, target, current) matches Ok(
            (callee, stage),
        ) ==> (p.spec_other_stage(dialect) matches Some(o) && o as usize == stage)),
{
}

/// A call whose callee cannot be run at the caller's stage, whatever the
/// reason (the function is not declared there, or has no live
/// specialization there, or more than one), crosses to the stage the
/// caller's dialect crosses to, and runs the function's unique live
/// specialization there when it has one.
pub proof fn failed_resolution_crosses_stages(
    p: PipelineModel,
    dialect: StageKind,
    target: u64,
    current: int,
    function: int,
    other: int,
    callee: u64,
)
    requires
        p.spec_resolve_function(current, target) == Some(function),
        p.spec_specialization_at(function, current) is Err,
        p.spec_other_stage(dialect) == Some(other),
        p.spec_specialization_at(function, other) == Ok::<u64, InterpreterError>(callee),
    ensures
        p.spec_route(dialect, target, current) == Ok::<(u64, usize), InterpreterError>(
            (callee, other as usize),
        ),
        0 <= current < p.stages@.len() && p.stages@[current].kind == dialect ==> p.spec_dispatch(
            target,
            current,
        ) == Ok::<(u64, usize), InterpreterError>((callee, other as usize)),
{
}

} // verus!
