//! The stepping of the concrete interpreters.
//!
//! A cursor walks the statements of one block (or one structured construct)
//! and reports what it did as a `Control`; a `CursorMachine` keeps the stack
//! of live cursors and the call frames and decides, for each report, how the
//! stacks change and what work on the environment is left to do. A
//! `FrameMachine` does the same for the frame-based interpreter, whose
//! frames report a `FrameEffect`.

use vstd::prelude::*;
use crate::error::InterpreterError;

verus! {

/// What a cursor reports after executing one step.
#[derive(Clone, Debug)]
pub enum Control<V, C> {
    /// The cursor advanced within its block and wants to run again.
    Advance,
    /// Control moves to `block` with these block arguments.
    Jump(u64, Vec<V>),
    /// Control may move to any of these blocks (abstract execution).
    Fork(Vec<(u64, Vec<V>)>),
    /// A nested construct starts: run this cursor on top of the current one.
    Push(C),
    /// The cursor is finished and leaves the stack.
    Pop,
    /// The cursor is finished with a value for the cursor below it.
    Yield(V),
    /// The function returns this value.
    Return(V),
    /// A call of specialization `callee` at `stage`, whose results go to
    /// the SSA values `results`.
    Call { callee: u64, stage: usize, args: Vec<V>, results: Vec<u64> },
}

/// A cursor on the stack, with the value a finished child handed it.
#[derive(Clone, Debug)]
pub struct StackEntry<C, V> {
    pub cursor: C,
    pub inbox: Option<V>,
}

/// An active call: the callee and the SSA values its caller waits to have
/// written with the returned value.
#[derive(Clone, Debug)]
pub struct CallFrame {
    pub callee: u64,
    pub stage: usize,
    pub caller_results: Vec<u64>,
}

/// The work on the environment that a step leaves to its driver.
#[derive(Clone, Debug)]
pub enum StepAction<V> {
    /// Nothing more to do; step again.
    Continue,
    /// Write `value` to each of the caller's result values, then step again.
    WriteResults { results: Vec<u64>, value: V },
    /// Build the entry cursor of `callee` at `stage` for `args` and hand it
    /// to `push_call` with `results`.
    EnterCall { callee: u64, stage: usize, args: Vec<V>, results: Vec<u64> },
}

/// The stacks of a concrete cursor-based interpreter.
pub struct CursorMachine<C, V> {
    pub cursors: Vec<StackEntry<C, V>>,
    pub frames: Vec<CallFrame>,
    pub result: Option<V>,
}

impl<C, V> CursorMachine<C, V> {
    /// An interpreter with empty stacks and no result.
    pub fn new() -> (r: CursorMachine<C, V>)
        ensures
            r.cursors@.len() == 0,
            r.frames@.len() == 0,
            r.result is None,
    {
        CursorMachine { cursors: Vec::new(), frames: Vec::new(), result: None }
    }

    /// Starts running the function `callee` at `stage` with its entry
    /// cursor: an outermost frame with no caller results, and the cursor.
    pub fn begin(&mut self, cursor: C, callee: u64, stage: usize)
        ensures
            final(self).frames@.len() == old(self).frames@.len() + 1,
            final(self).frames@.drop_last() == old(self).frames@,
            final(self).frames@.last().callee == callee,
            final(self).frames@.last().stage == stage,
            final(self).frames@.last().caller_results@.len() == 0,
            final(self).cursors@ == old(self).cursors@.push(StackEntry { cursor, inbox: None }),
            final(self).result == old(self).result,
    {
        self.frames.push(CallFrame { callee, stage, caller_results: Vec::new() });
        self.cursors.push(StackEntry { cursor, inbox: None });
        proof {
            assert(self.frames@.drop_last() =~= old(self).frames@);
        }
    }

    /// Takes the top cursor off the stack with the value waiting in its
    /// inbox; `None` when no cursor is left, which ends the run.
    pub fn take_entry(&mut self) -> (r: Option<(StackEntry<C, V>, Option<V>)>)
        ensures
            old(self).cursors@.len() == 0 ==> r is None && final(self).cursors@ == old(self).cursors@,
            old(self).cursors@.len() > 0 ==> (r matches Some((entry, inbox)) && final(self).cursors@
                == old(self).cursors@.drop_last() && entry.cursor == old(self).cursors@.last().cursor
                && entry.inbox is None && inbox == old(self).cursors@.last().inbox),
            final(self).frames@ == old(self).frames@,
            final(self).result == old(self).result,
    {
        match self.cursors.pop() {
            None => None,
            Some(entry) => {
                let StackEntry { cursor, inbox } = entry;
                Some((StackEntry { cursor, inbox: None }, inbox))
            },
        }
    }

    /// Applies what the cursor `entry` reported:
    /// - `Advance`, `Jump`: the cursor stays on the stack;
    /// - `Push(c)`: the cursor stays and `c` runs on top of it;
    /// - `Pop`: the cursor leaves;
    /// - `Yield(v)`: the cursor leaves and `v` goes to the inbox of the cursor
    ///   below it, or becomes the result when there is none;
    /// - `Return(v)`: the cursor leaves and the innermost frame is popped
    ///   (`NoFrame` when there is none); `v` becomes the result when that was
    ///   the outermost frame, else it is written to the caller's results;
    /// - `Call`: the cursor stays and the callee is to be entered;
    /// - `Fork`: `UnhandledEffect`, with a message that the concrete
    ///   interpreter cannot branch both ways.
    pub fn apply_control(&mut self, entry: StackEntry<C, V>, effect: Control<V, C>) -> (r: Result<
        StepAction<V>,
        InterpreterError,
    >)
        ensures
            match effect {
                Control::Advance | Control::Jump(..) => r matches Ok(StepAction::Continue)
                    && final(self).cursors@ == old(self).cursors@.push(entry) && final(self).frames@ == old(self).frames@ && final(self).result == old(self).result,
                Control::Push(c) => r matches Ok(StepAction::Continue) && final(self).cursors@
                    == old(self).cursors@.push(entry).push(StackEntry { cursor: c, inbox: None })
                    && final(self).frames@ == old(self).frames@ && final(self).result == old(self).result,
                Control::Pop => r matches Ok(StepAction::Continue) && final(self).cursors@
                    == old(self).cursors@ && final(self).frames@ == old(self).frames@ && final(self).result == old(self).result,
                Control::Yield(v) => r matches Ok(StepAction::Continue) && final(self).frames@
                    == old(self).frames@ && if old(self).cursors@.len() > 0 {
                    final(self).cursors@ == old(self).cursors@.update(
                        old(self).cursors@.len() - 1,
                        StackEntry { cursor: old(self).cursors@.last().cursor, inbox: Some(v) },
                    ) && final(self).result == old(self).result
                } else {
                    final(self).cursors@ == old(self).cursors@ && final(self).result == Some(v)
                },
                Control::Return(v) => if old(self).frames@.len() == 0 {
                    r == Err::<StepAction<V>, InterpreterError>(InterpreterError::NoFrame)
                        && final(self).cursors@ == old(self).cursors@ && final(self).frames@
                        == old(self).frames@ && final(self).result == old(self).result
                } else if old(self).frames@.len() == 1 {
                    r matches Ok(StepAction::Continue) && final(self).cursors@ == old(self).cursors@ && final(self).frames@.len() == 0 && final(self).result == Some(v)
                } else {
                    r matches Ok(StepAction::WriteResults { results, value }) && results@ == old(self).frames@.last().caller_results@ && value == v && final(self).cursors@ == old(self).cursors@ && final(self).frames@ == old(self).frames@.drop_last() && final(self).result == old(self).result
                },
                Control::Call { callee, stage, args, results } => r matches Ok(
                    StepAction::EnterCall { callee: c2, stage: s2, args: a2, results: r2 },
                ) && c2 == callee && s2 == stage && a2 == args && r2 == results && final(self).cursors@ == old(self).cursors@.push(entry) && final(self).frames@ == old(self).frames@ && final(self).result == old(self).result,
                Control::Fork(..) => (r matches Err(InterpreterError::UnhandledEffect(msg))
                    && msg@ == "Control::Fork in concrete interpreter; use AbstractInterp for nondeterminism"@)
                    && final(self).cursors@ == old(self).cursors@ && final(self).frames@ == old(self).frames@ && final(self).result == old(self).result,
            },
    {
        match effect {
            Control::Advance => {
                self.cursors.push(entry);
                Ok(StepAction::Continue)
            },
            Control::Jump(..) => {
                self.cursors.push(entry);
                Ok(StepAction::Continue)
            },
            Control::Push(new_cursor) => {
                self.cursors.push(entry);
                self.cursors.push(StackEntry { cursor: new_cursor, inbox: None });
                Ok(StepAction::Continue)
            },
            Control::Pop => Ok(StepAction::Continue),
            Control::Yield(v) => {
                let n = self.cursors.len();
                if n > 0 {
                    let parent = self.cursors.pop().unwrap();
                    self.cursors.push(StackEntry { cursor: parent.cursor, inbox: Some(v) });
                    proof {
                        assert(self.cursors@ =~= old(self).cursors@.update(
                            n - 1,
                            StackEntry { cursor: old(self).cursors@.last().cursor, inbox: Some(v) },
                        ));
                    }
                } else {
                    self.result = Some(v);
                }
                Ok(StepAction::Continue)
            },
            Control::Return(v) => {
                let frame = match self.frames.pop() {
                    Some(frame) => frame,
                    None => return Err(InterpreterError::NoFrame),
                };
                if self.frames.len() == 0 {
                    self.result = Some(v);
                    Ok(StepAction::Continue)
                } else {
                    Ok(StepAction::WriteResults { results: frame.caller_results, value: v })
                }
            },
            Control::Call { callee, stage, args, results } => {
                self.cursors.push(entry);
                Ok(StepAction::EnterCall { callee, stage, args, results })
            },
            Control::Fork(..) => Err(
                InterpreterError::UnhandledEffect(
                    "Control::Fork in concrete interpreter; use AbstractInterp for nondeterminism".to_owned(),
                ),
            ),
        }
    }

    /// Enters a call: a frame for `callee` at `stage` that remembers the
    /// caller's `results`, and the callee's entry cursor on top.
    pub fn push_call(&mut self, cursor: C, callee: u64, stage: usize, results: Vec<u64>)
        ensures
            final(self).frames@.len() == old(self).frames@.len() + 1,
            final(self).frames@.drop_last() == old(self).frames@,
            final(self).frames@.last().callee == callee,
            final(self).frames@.last().stage == stage,
            final(self).frames@.last().caller_results@ == results@,
            final(self).cursors@ == old(self).cursors@.push(StackEntry { cursor, inbox: None }),
            final(self).result == old(self).result,
    {
        self.frames.push(CallFrame { callee, stage, caller_results: results });
        self.cursors.push(StackEntry { cursor, inbox: None });
        proof {
            assert(self.frames@.drop_last() =~= old(self).frames@);
        }
    }

    /// Takes the result of the run, leaving none behind.
    pub fn take_result(&mut self) -> (r: Option<V>)
        ensures
            r == old(self).result,
            final(self).result is None,
            final(self).cursors@ == old(self).cursors@,
            final(self).frames@ == old(self).frames@,
    {
        self.result.take()
    }
}

/// What a frame of the frame-based interpreter reports after a step.
#[derive(Clone, Debug)]
pub enum FrameEffect<F, C> {
    /// The frame goes on.
    Continue(F),
    /// The frame waits for `child`, which runs first.
    Push { parent: F, child: F },
    /// The frame is finished without a value.
    Done,
    /// The frame is finished with a completion.
    Complete(C),
}

/// Whether the run goes on or has completed.
#[derive(Clone, Debug)]
pub enum StepResult<C> {
    Running,
    Complete(C),
}

/// The outcome of applying an effect: either the step is over, or a parent
/// frame is to be resumed (by the driver) and its new effect applied.
#[derive(Clone, Debug)]
pub enum EffectOutcome<F, C> {
    Finished(StepResult<C>),
    /// Resume this frame after a child finished without a value.
    ResumeDone(F),
    /// Resume this frame with the child's completion.
    Resume(F, C),
}

/// The frame stack of a frame-based interpreter.
pub struct FrameMachine<F> {
    pub frames: Vec<F>,
}

impl<F> FrameMachine<F> {
    pub fn new() -> (r: FrameMachine<F>)
        ensures
            r.frames@.len() == 0,
    {
        FrameMachine { frames: Vec::new() }
    }

    pub fn push_frame(&mut self, frame: F)
        ensures
            final(self).frames@ == old(self).frames@.push(frame),
    {
        self.frames.push(frame);
    }

    /// The frame to step next; `EmptyFrameStack` when there is none.
    pub fn pop_frame(&mut self) -> (r: Result<F, InterpreterError>)
        ensures
            old(self).frames@.len() == 0 ==> r == Err::<F, InterpreterError>(
                InterpreterError::EmptyFrameStack,
            ) && final(self).frames@ == old(self).frames@,
            old(self).frames@.len() > 0 ==> r == Ok::<F, InterpreterError>(
                old(self).frames@.last(),
            ) && final(self).frames@ == old(self).frames@.drop_last(),
    {
        match self.frames.pop() {
            Some(frame) => Ok(frame),
            None => Err(InterpreterError::EmptyFrameStack),
        }
    }

    /// Applies a frame's effect:
    /// - `Continue(f)`: `f` goes back on the stack; the step is over;
    /// - `Push { parent, child }`: both go on the stack, child on top;
    /// - `Done`: the frame below is popped to be resumed without a value
    ///   (`EmptyFrameStack` when there is none);
    /// - `Complete(c)`: the frame below is popped to be resumed with `c`, or,
    ///   when there is none, the run completes with `c`.
    pub fn apply_effect<C>(&mut self, effect: FrameEffect<F, C>) -> (r: Result<
        EffectOutcome<F, C>,
        InterpreterError,
    >)
        ensures
            match effect {
                FrameEffect::Continue(f) => r matches Ok(
                    EffectOutcome::Finished(StepResult::Running),
                ) && final(self).frames@ == old(self).frames@.push(f),
                FrameEffect::Push { parent, child } => r matches Ok(
                    EffectOutcome::Finished(StepResult::Running),
                ) && final(self).frames@ == old(self).frames@.push(parent).push(child),
                FrameEffect::Done => if old(self).frames@.len() == 0 {
                    r == Err::<EffectOutcome<F, C>, InterpreterError>(
                        InterpreterError::EmptyFrameStack,
                    ) && final(self).frames@ == old(self).frames@
                } else {
                    r == Ok::<EffectOutcome<F, C>, InterpreterError>(
                        EffectOutcome::ResumeDone(old(self).frames@.last()),
                    ) && final(self).frames@ == old(self).frames@.drop_last()
                },
                FrameEffect::Complete(c) => if old(self).frames@.len() == 0 {
                    r == Ok::<EffectOutcome<F, C>, InterpreterError>(
                        EffectOutcome::Finished(StepResult::Complete(c)),
                    ) && final(self).frames@ == old(self).frames@
                } else {
                    r == Ok::<EffectOutcome<F, C>, InterpreterError>(
                        EffectOutcome::Resume(old(self).frames@.last(), c),
                    ) && final(self).frames@ == old(self).frames@.drop_last()
                },
            },
    {
        match effect {
            FrameEffect::Continue(frame) => {
                self.frames.push(frame);
                Ok(EffectOutcome::Finished(StepResult::Running))
            },
            FrameEffect::Push { parent, child } => {
                self.frames.push(parent);
                self.frames.push(child);
                Ok(EffectOutcome::Finished(StepResult::Running))
            },
            FrameEffect::Done => {
                match self.frames.pop() {
                    Some(parent) => Ok(EffectOutcome::ResumeDone(parent)),
                    None => Err(InterpreterError::EmptyFrameStack),
                }
            },
            FrameEffect::Complete(completion) => {
                match self.frames.pop() {
                    Some(parent) => Ok(EffectOutcome::Resume(parent, completion)),
                    None => Ok(EffectOutcome::Finished(StepResult::Complete(completion))),
                }
            },
        }
    }
}

} // verus!
