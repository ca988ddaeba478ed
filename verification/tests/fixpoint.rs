use toy_lang::domains::ConstProp;
use toy_lang::error::InterpreterError;
use toy_lang::fixpoint::{AbstractAction, FixpointState, StagedKey};
use toy_lang::machine::Control;
use toy_lang::pipeline::{
    FunctionModel, PipelineModel, SpecializationModel, StageKind, StageModel, StagedModel,
    SymbolBinding,
};

fn pipeline() -> PipelineModel {
    let stages = vec![
        StageModel { name: "source".to_string(), kind: StageKind::Source },
        StageModel { name: "lowered".to_string(), kind: StageKind::Lowered },
    ];
    let functions = vec![
        FunctionModel {
            name: "main".to_string(),
            staged: vec![StagedModel {
                stage: 0,
                specializations: vec![SpecializationModel { id: 1, live: true, body: 10, entry_block: Some(100) }],
            }],
        },
        FunctionModel {
            name: "double".to_string(),
            staged: vec![StagedModel {
                stage: 1,
                specializations: vec![SpecializationModel { id: 2, live: true, body: 20, entry_block: Some(200) }],
            }],
        },
    ];
    let bindings = vec![
        SymbolBinding { stage: 0, symbol: 0, function: 0 },
        SymbolBinding { stage: 0, symbol: 1, function: 1 },
    ];
    PipelineModel { stages, functions, bindings }
}

const MAIN: StagedKey = StagedKey { function: 1, stage: 0 };
const DOUBLE: StagedKey = StagedKey { function: 2, stage: 1 };

fn join_merge(a: &ConstProp, b: &ConstProp, _visits: usize) -> ConstProp {
    a.join(b)
}

type State = FixpointState<&'static str, ConstProp>;

#[test]
fn seed_and_worklist() {
    let p = pipeline();
    let mut s: State = FixpointState::new();
    assert_eq!(s.seed(&p, MAIN, vec![ConstProp::Const(7)]), Ok(()));
    assert_eq!(s.summary_output(&MAIN), None);
    assert_eq!(s.seed(&p, StagedKey { function: 9, stage: 0 }, vec![]), Err(InterpreterError::MissingEntry));
    assert_eq!(s.next_function(), Some(MAIN));
    assert_eq!(s.next_function(), None);
}

#[test]
fn first_call_creates_summary_and_answers_bottom() {
    let p = pipeline();
    let mut s: State = FixpointState::new();
    let r = s.handle_abstract_call(&p, MAIN, DOUBLE, &vec![30], vec![ConstProp::Const(5)], &join_merge);
    assert_eq!(r, Ok(ConstProp::Bottom));
    assert_eq!(s.func_worklist, vec![DOUBLE]);
    let summary = s.summaries.get(&DOUBLE).unwrap();
    assert_eq!(summary.input, vec![ConstProp::Const(5)]);
    assert_eq!(summary.entry_block, 200);
    assert_eq!(s.call_graph.get(&DOUBLE).unwrap().len(), 1);
}

#[test]
fn call_with_unknown_callee_entry_fails() {
    let p = pipeline();
    let mut s: State = FixpointState::new();
    let r = s.handle_abstract_call(&p, MAIN, StagedKey { function: 2, stage: 0 }, &vec![], vec![], &join_merge);
    assert_eq!(r, Err(InterpreterError::MissingEntry));
    assert!(s.func_worklist.is_empty());
}

#[test]
fn repeated_call_grows_input_and_requeues() {
    let p = pipeline();
    let mut s: State = FixpointState::new();
    s.handle_abstract_call(&p, MAIN, DOUBLE, &vec![30], vec![ConstProp::Const(5)], &join_merge).unwrap();
    assert_eq!(s.next_function(), Some(DOUBLE));
    // Same argument: nothing grows, the callee is not queued again.
    s.handle_abstract_call(&p, MAIN, DOUBLE, &vec![30], vec![ConstProp::Const(5)], &join_merge).unwrap();
    assert!(s.func_worklist.is_empty());
    assert_eq!(s.visit_count(&DOUBLE), 0);
    assert_eq!(s.call_graph.get(&DOUBLE).unwrap().len(), 1);
    // Another constant: the input joins to Top and the callee is queued.
    s.handle_abstract_call(&p, MAIN, DOUBLE, &vec![31], vec![ConstProp::Const(6)], &join_merge).unwrap();
    assert_eq!(s.func_worklist, vec![DOUBLE]);
    assert_eq!(s.visit_count(&DOUBLE), 1);
    assert_eq!(s.summaries.get(&DOUBLE).unwrap().input, vec![ConstProp::Top]);
    assert_eq!(s.call_graph.get(&DOUBLE).unwrap().len(), 2);
}

#[test]
fn call_answers_recorded_output() {
    let p = pipeline();
    let mut s: State = FixpointState::new();
    s.seed(&p, DOUBLE, vec![ConstProp::Const(5)]).unwrap();
    let mut summary = s.summaries.replace(&DOUBLE, toy_lang::fixpoint::FuncSummary { input: vec![], output: None, entry_block: 0 }).unwrap();
    summary.output = Some(ConstProp::Const(10));
    s.summaries.insert(DOUBLE, summary);
    let r = s.handle_abstract_call(&p, MAIN, DOUBLE, &vec![30], vec![ConstProp::Const(5)], &join_merge);
    assert_eq!(r, Ok(ConstProp::Const(10)));
}

#[test]
fn arity_mismatch_is_refused() {
    let p = pipeline();
    let mut s: State = FixpointState::new();
    s.seed(&p, DOUBLE, vec![ConstProp::Const(5)]).unwrap();
    let r = s.handle_abstract_call(&p, MAIN, DOUBLE, &vec![], vec![ConstProp::Top, ConstProp::Top], &join_merge);
    assert_eq!(r, Err(InterpreterError::ArityMismatch { expected: 1, got: 2 }));
    assert_eq!(s.summaries.get(&DOUBLE).unwrap().input, vec![ConstProp::Const(5)]);
}

#[test]
fn function_blocks_are_visited_from_the_entry() {
    let p = pipeline();
    let mut s: State = FixpointState::new();
    assert_eq!(s.begin_function(MAIN), Err(InterpreterError::MissingEntry));
    s.seed(&p, MAIN, vec![ConstProp::Const(3)]).unwrap();
    assert_eq!(s.begin_function(MAIN), Ok(()));
    assert_eq!(s.current_key, Some(MAIN));
    assert_eq!(s.next_block(MAIN), Some((100, vec![ConstProp::Const(3)])));
    assert_eq!(s.next_block(MAIN), None);
    assert_eq!(s.next_block(DOUBLE), None);
    s.end_function();
    assert_eq!(s.current_key, None);
}

#[test]
fn abstract_controls() {
    let p = pipeline();
    let mut s: State = FixpointState::new();
    s.push_cursor("outer");
    s.push_cursor("inner");
    let (e, _) = s.take_abstract_entry().unwrap();
    assert!(matches!(s.apply_abstract_control(&p, MAIN, e, Control::Yield(ConstProp::Const(1)), &join_merge), Ok(AbstractAction::Continue)));
    let (e, inbox) = s.take_abstract_entry().unwrap();
    assert_eq!(inbox, Some(ConstProp::Const(1)));
    match s.apply_abstract_control(&p, MAIN, e, Control::Fork(vec![(4, vec![]), (5, vec![ConstProp::Top])]), &join_merge) {
        Ok(AbstractAction::Enqueue(targets)) => assert_eq!(targets.len(), 2),
        _ => panic!("expected blocks to queue"),
    }
    s.push_cursor("block");
    let (e, _) = s.take_abstract_entry().unwrap();
    match s.apply_abstract_control(&p, MAIN, e, Control::Jump(6, vec![ConstProp::Const(2)]), &join_merge) {
        Ok(AbstractAction::Enqueue(targets)) => assert_eq!(targets, vec![(6, vec![ConstProp::Const(2)])]),
        _ => panic!("expected a block to queue"),
    }
    s.push_cursor("a");
    s.push_cursor("b");
    let (e, _) = s.take_abstract_entry().unwrap();
    match s.apply_abstract_control(&p, MAIN, e, Control::Return(ConstProp::Const(8)), &join_merge) {
        Ok(AbstractAction::RecordReturn(v)) => assert_eq!(v, ConstProp::Const(8)),
        _ => panic!("expected a return"),
    }
    assert!(s.cursor_stack.is_empty());
    s.push_cursor("caller");
    let (e, _) = s.take_abstract_entry().unwrap();
    match s.apply_abstract_control(&p, MAIN, e, Control::Call { callee: 2, stage: 1, args: vec![ConstProp::Const(4)], results: vec![12] }, &join_merge) {
        Ok(AbstractAction::WriteResults { results, value }) => {
            assert_eq!(results, vec![12]);
            assert_eq!(value, ConstProp::Bottom);
        }
        _ => panic!("expected results to write"),
    }
    assert_eq!(s.cursor_stack.len(), 1);
    assert_eq!(s.func_worklist, vec![DOUBLE]);
}

#[test]
fn queued_functions_keep_their_summaries() {
    let p = pipeline();
    let mut s: State = FixpointState::new();
    assert_eq!(s.seed(&p, MAIN, vec![ConstProp::Const(1)]), Ok(()));
    let _ = s.handle_abstract_call(&p, MAIN, DOUBLE, &vec![30], vec![ConstProp::Const(5)], &join_merge);
    let _ = s.handle_abstract_call(&p, MAIN, DOUBLE, &vec![31], vec![ConstProp::Const(6)], &join_merge);
    let _ = s.handle_abstract_call(&p, MAIN, StagedKey { function: 2, stage: 0 }, &vec![], vec![], &join_merge);
    assert_eq!(s.func_worklist, vec![MAIN, DOUBLE, DOUBLE]);
    for k in s.func_worklist.iter() {
        assert!(s.summaries.get(k).is_some());
    }
    while let Some(k) = s.next_function() {
        assert!(s.summaries.get(&k).is_some());
    }
}
