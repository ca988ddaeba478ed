use toy_lang::error::{InterpreterError, Location, StagedRef, ToyError};
use toy_lang::machine::Control;
use toy_lang::pipeline::{
    EntryTarget, FunctionModel, PipelineModel, ResolvedCallTarget, SpecializationModel,
    StageKind, StageModel, StagedModel, SymbolBinding, UniqueLiveSpecializationError,
};
use toy_lang::dispatch::CallEntry;

const SOURCE: usize = 0;
const LOWERED: usize = 1;

/// The call statement the resolution tests stand at.
fn at(stage: usize) -> Location {
    Location { stage, statement: 77 }
}

fn spec(id: u64, live: bool) -> SpecializationModel {
    SpecializationModel { id, live, body: id * 10, entry_block: Some(id * 100) }
}

fn staged(stage: usize, specs: Vec<SpecializationModel>) -> StagedModel {
    StagedModel { stage, specializations: specs }
}

/// A two-stage pipeline whose function `i` is named by symbol `i` at every
/// stage.
fn pipeline(functions: Vec<(&str, Vec<StagedModel>)>) -> PipelineModel {
    let stages = vec![
        StageModel { name: "source".to_string(), kind: StageKind::Source },
        StageModel { name: "lowered".to_string(), kind: StageKind::Lowered },
    ];
    let mut bindings = Vec::new();
    for stage in 0..stages.len() {
        for f in 0..functions.len() {
            bindings.push(SymbolBinding { stage, symbol: f as u64, function: f });
        }
    }
    let functions = functions
        .into_iter()
        .map(|(name, staged)| FunctionModel { name: name.to_string(), staged })
        .collect();
    PipelineModel { stages, functions, bindings }
}

/// `@main` at the source stage calls `@double`, which has a body only at the
/// lowered stage.
fn cross_stage() -> PipelineModel {
    pipeline(vec![
        ("main", vec![staged(SOURCE, vec![spec(1, true)])]),
        ("double", vec![staged(LOWERED, vec![spec(2, true)])]),
    ])
}

fn call_of(r: Result<Control<i64, ()>, InterpreterError>) -> (u64, usize, Vec<i64>, Vec<u64>) {
    match r {
        Ok(Control::Call { callee, stage, args, results }) => (callee, stage, args, results),
        _ => panic!("expected a call"),
    }
}

#[test]
fn source_call_crosses_to_lowered_only_function() {
    let p = cross_stage();
    let (callee, stage, args, results) = call_of(p.dispatch_call(1, SOURCE, vec![7i64], vec![30]));
    assert_eq!((callee, stage), (2, LOWERED));
    assert_eq!(args, vec![7]);
    assert_eq!(results, vec![30]);
}

#[test]
fn same_stage_call_stays_at_stage() {
    let p = pipeline(vec![
        ("add", vec![staged(SOURCE, vec![spec(1, true)])]),
        ("wrapper", vec![staged(SOURCE, vec![spec(2, true)])]),
    ]);
    let (callee, stage, _, _) = call_of(p.dispatch_call(0, SOURCE, vec![2i64, 3], vec![5]));
    assert_eq!((callee, stage), (1, SOURCE));
}

#[test]
fn lowered_call_crosses_to_source_only_function() {
    let p = pipeline(vec![
        ("square", vec![staged(SOURCE, vec![spec(1, true)])]),
        ("lowered_main", vec![staged(LOWERED, vec![spec(2, true)])]),
    ]);
    let (callee, stage, _, _) = call_of(p.dispatch_call(0, LOWERED, vec![5i64], vec![9]));
    assert_eq!((callee, stage), (1, SOURCE));
}

#[test]
fn symmetric_function_runs_at_caller_stage() {
    let p = pipeline(vec![(
        "double",
        vec![staged(SOURCE, vec![spec(1, true)]), staged(LOWERED, vec![spec(2, true)])],
    )]);
    let (c1, s1, _, _) = call_of(p.dispatch_call(0, SOURCE, vec![7i64], vec![]));
    let (c2, s2, _, _) = call_of(p.dispatch_call(0, LOWERED, vec![7i64], vec![]));
    assert_eq!((c1, s1), (1, SOURCE));
    assert_eq!((c2, s2), (2, LOWERED));
}

#[test]
fn dispatch_errors() {
    let p = cross_stage();
    let missing_stage: Result<Control<i64, ()>, _> = p.dispatch_call(1, 5, vec![], vec![]);
    assert_eq!(missing_stage.err(), Some(InterpreterError::MissingEntry));
    let unknown: Result<Control<i64, ()>, _> = p.dispatch_call(9, SOURCE, vec![], vec![]);
    assert_eq!(unknown.err(), Some(InterpreterError::UnresolvedCall { stage: SOURCE, target: 9 }));
    // `@main` exists only at the source stage: a lowered call finds it there.
    let (callee, stage, _, _) = call_of(p.dispatch_call(0, LOWERED, vec![1i64], vec![]));
    assert_eq!((callee, stage), (1, SOURCE));
}

#[test]
fn eval_call_routes_by_dialect() {
    let p = cross_stage();
    let r: Result<Control<i64, ()>, _> = p.eval_call(StageKind::Source, 1, SOURCE, vec![4], vec![8]);
    let (callee, stage, args, results) = call_of(r);
    assert_eq!((callee, stage, args, results), (2, LOWERED, vec![4], vec![8]));
    // A lowered-dialect statement crosses to the source stage, where
    // `@double` has no body.
    let r2: Result<Control<i64, ()>, _> = p.eval_call(StageKind::Lowered, 1, SOURCE, vec![4], vec![8]);
    assert_eq!(
        r2.err(),
        Some(InterpreterError::MissingStagedFunction { function: 1, stage: SOURCE })
    );
}

#[test]
fn cross_stage_resolution_prefers_caller_stage() {
    let p = pipeline(vec![(
        "double",
        vec![staged(SOURCE, vec![spec(1, true)]), staged(LOWERED, vec![spec(2, true)])],
    )]);
    assert_eq!(
        p.resolve_cross_stage_call_target(StageKind::Lowered, at(LOWERED), 0),
        Ok(ResolvedCallTarget { stage: LOWERED, target: EntryTarget::SpecializedFunction(2) })
    );
}

#[test]
fn cross_stage_resolution_falls_back_to_other_stage() {
    let p = cross_stage();
    assert_eq!(
        p.resolve_cross_stage_call_target(StageKind::Source, at(SOURCE), 1),
        Ok(ResolvedCallTarget { stage: LOWERED, target: EntryTarget::SpecializedFunction(2) })
    );
}

#[test]
fn cross_stage_resolution_last_resort_is_the_function() {
    let p = pipeline(vec![(
        "twice",
        vec![staged(SOURCE, vec![spec(1, true), spec(3, true)]), staged(LOWERED, vec![spec(2, false)])],
    )]);
    assert_eq!(
        p.resolve_cross_stage_call_target(StageKind::Source, at(SOURCE), 0),
        Ok(ResolvedCallTarget { stage: SOURCE, target: EntryTarget::Function(0) })
    );
}

#[test]
fn cross_stage_resolution_errors() {
    let p = cross_stage();
    assert_eq!(
        p.resolve_cross_stage_call_target(StageKind::Source, at(7), 1),
        Err(ToyError::Core(InterpreterError::MissingStage(7)))
    );
    assert_eq!(
        p.resolve_cross_stage_call_target(StageKind::Lowered, at(SOURCE), 1),
        Err(ToyError::Core(InterpreterError::MissingStageInfo(SOURCE)))
    );
    assert_eq!(
        p.resolve_cross_stage_call_target(StageKind::Source, at(SOURCE), 42),
        Err(ToyError::Core(InterpreterError::MissingCallTarget { location: at(SOURCE), target: 42 }))
    );
}

#[test]
fn unique_live_specialization_cases() {
    assert_eq!(staged(0, vec![]).unique_live_specialization(), Err(UniqueLiveSpecializationError::NoSpecialization));
    assert_eq!(staged(0, vec![spec(4, false)]).unique_live_specialization(), Err(UniqueLiveSpecializationError::NoSpecialization));
    assert_eq!(staged(0, vec![spec(4, false), spec(5, true)]).unique_live_specialization(), Ok(5));
    assert_eq!(
        staged(0, vec![spec(4, true), spec(5, true), spec(6, true)]).unique_live_specialization(),
        Err(UniqueLiveSpecializationError::Ambiguous { count: 3 })
    );
}

#[test]
fn function_access_errors() {
    let p = pipeline(vec![
        ("one", vec![staged(SOURCE, vec![spec(1, true)])]),
        ("none", vec![staged(SOURCE, vec![spec(2, false)])]),
        ("two", vec![staged(SOURCE, vec![spec(3, true), spec(4, true)])]),
    ]);
    assert_eq!(p.staged_function(SOURCE, 0), Ok(0));
    assert_eq!(p.staged_function(SOURCE, 9), Err(ToyError::Core(InterpreterError::MissingFunction(9))));
    assert_eq!(
        p.staged_function(LOWERED, 0),
        Err(ToyError::Core(InterpreterError::MissingStagedFunction { function: 0, stage: LOWERED }))
    );
    assert_eq!(p.specialized_function(SOURCE, StageKind::Source, 0, 0), Ok(1));
    assert_eq!(
        p.specialized_function(SOURCE, StageKind::Source, 1, 0),
        Err(ToyError::Core(InterpreterError::MissingSpecialization(StagedRef { function: 1, declaration: 0 })))
    );
    assert_eq!(
        p.specialized_function(SOURCE, StageKind::Source, 2, 0),
        Err(ToyError::Core(InterpreterError::AmbiguousSpecialization { function: StagedRef { function: 2, declaration: 0 }, count: 2 }))
    );
    assert_eq!(
        p.specialized_function(SOURCE, StageKind::Lowered, 0, 0),
        Err(ToyError::Core(InterpreterError::MissingStageInfo(SOURCE)))
    );
    assert_eq!(p.specialization_at(0, SOURCE), Ok(1));
    assert_eq!(p.specialization_at(5, SOURCE), Err(InterpreterError::MissingFunction(5)));
}

#[test]
fn bodies_and_entry_blocks() {
    let mut p = cross_stage();
    assert_eq!(p.function_body(LOWERED, StageKind::Lowered, 2), Ok(20));
    assert_eq!(
        p.function_body(SOURCE, StageKind::Source, 2),
        Err(ToyError::Core(InterpreterError::MissingFunctionBody { function: 2, stage: SOURCE }))
    );
    assert_eq!(p.entry_block_for(1, SOURCE), Ok(100));
    assert_eq!(p.entry_block_for(1, LOWERED), Err(InterpreterError::MissingEntry));
    assert_eq!(p.entry_block_for(1, 4), Err(InterpreterError::MissingEntry));
    assert_eq!(p.make_call_entry(2, LOWERED), Ok(CallEntry { kind: StageKind::Lowered, entry_block: 200 }));
    assert_eq!(p.make_call_entry(2, SOURCE), Err(InterpreterError::MissingEntry));
    p.functions[1].staged[0].specializations[0].entry_block = None;
    assert_eq!(p.entry_block_for(2, LOWERED), Err(InterpreterError::MissingEntry));
    assert_eq!(p.abstract_cursor_kind(SOURCE), StageKind::Source);
    assert_eq!(p.abstract_cursor_kind(LOWERED), StageKind::Lowered);
    assert_eq!(p.abstract_cursor_kind(9), StageKind::Lowered);
}

#[test]
fn lookups_by_name() {
    let p = cross_stage();
    assert_eq!(p.stage_by_name("lowered"), Some(LOWERED));
    assert_eq!(p.stage_by_name("middle"), None);
    assert_eq!(p.lookup_function_by_name("double"), Some(1));
    assert_eq!(p.resolve_entry("source", "main"), Ok((SOURCE, 0)));
    assert_eq!(
        p.resolve_entry("middle", "main"),
        Err(ToyError::Core(InterpreterError::MissingStageName("middle".to_string())))
    );
    assert_eq!(
        p.resolve_entry("source", "triple"),
        Err(ToyError::Core(InterpreterError::MissingFunctionName("triple".to_string())))
    );
    assert_eq!(p.resolve_function(SOURCE, 1), Some(1));
    assert_eq!(p.resolve_function(SOURCE, 5), None);
    assert_eq!(
        p.live_specialization_at_stage(LOWERED, 1),
        Some(ResolvedCallTarget { stage: LOWERED, target: EntryTarget::SpecializedFunction(2) })
    );
    assert_eq!(p.live_specialization_at_stage(SOURCE, 1), None);
}

#[test]
fn error_conversion_wraps_core_errors() {
    let e: ToyError = InterpreterError::NoFrame.into();
    assert_eq!(e, ToyError::Core(InterpreterError::NoFrame));
}

#[test]
fn specialization_errors_name_the_declaration() {
    let p = pipeline(vec![(
        "f",
        vec![staged(LOWERED, vec![spec(1, true)]), staged(SOURCE, vec![spec(2, false)])],
    )]);
    assert_eq!(
        p.specialization_at(0, SOURCE),
        Err(InterpreterError::MissingSpecialization(StagedRef { function: 0, declaration: 1 }))
    );
    assert_eq!(p.specialization_at(0, LOWERED), Ok(1));
}
