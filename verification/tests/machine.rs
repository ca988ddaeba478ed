use toy_lang::error::InterpreterError;
use toy_lang::machine::{
    Control, CursorMachine, EffectOutcome, FrameEffect, FrameMachine, StackEntry, StepAction,
    StepResult,
};

/// Cursors are named by a string in these tests.
type Machine = CursorMachine<&'static str, i64>;

fn entry(m: &mut Machine) -> StackEntry<&'static str, i64> {
    m.take_entry().expect("a cursor").0
}

#[test]
fn begin_and_take_entry() {
    let mut m: Machine = CursorMachine::new();
    assert!(m.take_entry().is_none());
    m.begin("main", 1, 0);
    assert_eq!(m.frames.len(), 1);
    assert_eq!(m.frames[0].callee, 1);
    assert!(m.frames[0].caller_results.is_empty());
    let (e, inbox) = m.take_entry().unwrap();
    assert_eq!(e.cursor, "main");
    assert_eq!(inbox, None);
    assert!(m.cursors.is_empty());
}

#[test]
fn advance_push_pop_and_yield() {
    let mut m: Machine = CursorMachine::new();
    m.begin("block", 1, 0);
    let e = entry(&mut m);
    assert!(matches!(m.apply_control(e, Control::Advance), Ok(StepAction::Continue)));
    let e = entry(&mut m);
    assert!(matches!(m.apply_control(e, Control::Push("if")), Ok(StepAction::Continue)));
    assert_eq!(m.cursors.len(), 2);
    assert_eq!(m.cursors[1].cursor, "if");
    let e = entry(&mut m);
    assert!(matches!(m.apply_control(e, Control::Yield(9)), Ok(StepAction::Continue)));
    assert_eq!(m.cursors.len(), 1);
    let (e, inbox) = m.take_entry().unwrap();
    assert_eq!(e.cursor, "block");
    assert_eq!(inbox, Some(9));
    assert!(matches!(m.apply_control(e, Control::Pop), Ok(StepAction::Continue)));
    assert!(m.cursors.is_empty());
    assert_eq!(m.result, None);
}

#[test]
fn yield_without_parent_is_the_result() {
    let mut m: Machine = CursorMachine::new();
    m.begin("block", 1, 0);
    let e = entry(&mut m);
    m.apply_control(e, Control::Yield(4)).unwrap();
    assert_eq!(m.take_result(), Some(4));
    assert_eq!(m.result, None);
}

/// A call pushes a frame that remembers where the results go; the callee's
/// return writes the value there and pops the frame.
#[test]
fn call_then_return_writes_caller_results() {
    let mut m: Machine = CursorMachine::new();
    m.begin("main", 1, 0);
    let e = entry(&mut m);
    let action = m
        .apply_control(e, Control::Call { callee: 2, stage: 1, args: vec![5], results: vec![30] })
        .unwrap();
    match action {
        StepAction::EnterCall { callee, stage, args, results } => {
            assert_eq!((callee, stage, args.clone()), (2, 1, vec![5]));
            m.push_call("double", callee, stage, results);
        }
        _ => panic!("expected a call"),
    }
    assert_eq!(m.frames.len(), 2);
    assert_eq!(m.cursors.len(), 2);
    let e = entry(&mut m);
    assert_eq!(e.cursor, "double");
    match m.apply_control(e, Control::Return(10)).unwrap() {
        StepAction::WriteResults { results, value } => {
            assert_eq!(results, vec![30]);
            assert_eq!(value, 10);
        }
        _ => panic!("expected results to write"),
    }
    assert_eq!(m.frames.len(), 1);
    assert_eq!(m.cursors.len(), 1);
    let e = entry(&mut m);
    m.apply_control(e, Control::Return(10)).unwrap();
    assert!(m.frames.is_empty());
    assert_eq!(m.take_result(), Some(10));
}

#[test]
fn return_without_frame_and_fork_are_errors() {
    let mut m: Machine = CursorMachine::new();
    assert!(matches!(m.apply_control(StackEntry { cursor: "x", inbox: None }, Control::Return(1)), Err(InterpreterError::NoFrame)));
    m.begin("block", 1, 0);
    let e = entry(&mut m);
    assert_eq!(
        m.apply_control(e, Control::Fork(vec![(1, vec![])])).err(),
        Some(InterpreterError::UnhandledEffect(
            "Control::Fork in concrete interpreter; use AbstractInterp for nondeterminism".to_string()
        ))
    );
    assert!(m.cursors.is_empty());
}

#[test]
fn jump_keeps_the_cursor() {
    let mut m: Machine = CursorMachine::new();
    m.begin("block", 1, 0);
    let e = entry(&mut m);
    m.apply_control(e, Control::Jump(3, vec![1, 2])).unwrap();
    assert_eq!(m.cursors.len(), 1);
}

#[test]
fn frame_machine_effects() {
    let mut fm: FrameMachine<&'static str> = FrameMachine::new();
    assert!(matches!(fm.pop_frame(), Err(InterpreterError::EmptyFrameStack)));
    fm.push_frame("function");
    let f = fm.pop_frame().unwrap();
    assert_eq!(f, "function");
    let r: Result<EffectOutcome<&str, i64>, _> = fm.apply_effect(FrameEffect::Push { parent: f, child: "block" });
    assert!(matches!(r, Ok(EffectOutcome::Finished(StepResult::Running))));
    assert_eq!(fm.frames, vec!["function", "block"]);
    let child = fm.pop_frame().unwrap();
    let r: Result<EffectOutcome<&str, i64>, _> = fm.apply_effect(FrameEffect::Continue(child));
    assert!(matches!(r, Ok(EffectOutcome::Finished(StepResult::Running))));
    let _ = fm.pop_frame().unwrap();
    match fm.apply_effect(FrameEffect::<&str, i64>::Complete(8)) {
        Ok(EffectOutcome::Resume(parent, c)) => {
            assert_eq!((parent, c), ("function", 8));
        }
        _ => panic!("expected the parent to resume"),
    }
    match fm.apply_effect(FrameEffect::<&str, i64>::Complete(8)) {
        Ok(EffectOutcome::Finished(StepResult::Complete(c))) => assert_eq!(c, 8),
        _ => panic!("expected completion"),
    }
    assert!(matches!(fm.apply_effect(FrameEffect::<&str, i64>::Done), Err(InterpreterError::EmptyFrameStack)));
    fm.push_frame("outer");
    match fm.apply_effect(FrameEffect::<&str, i64>::Done) {
        Ok(EffectOutcome::ResumeDone(p)) => assert_eq!(p, "outer"),
        _ => panic!("expected resume-done"),
    }
}
