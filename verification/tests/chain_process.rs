use smartengine::SmartEngine;
use smartengine::SmartModuleChainBuilder;
use smartengine::SmartModuleChainInstance;
use smartengine::SmartModuleChainMetrics;
use smartengine::SmartModuleConfig;
use smartengine::SmartModuleInput;
use smartengine::SmartModuleTransformError;
use smartengine::EngineError;
use smartengine::Record;
use smartengine::SmartModuleTransformErrorStatus;
use smartengine::codec::encode_output_batch;
use smartengine::guest::AnnounceOutcome;
use smartengine::guest::GuestCall;
use smartengine::guest::MarshalOutcome;
use smartengine::guest::StageGuest;
use smartengine::memory::RecordsMemory;

fn record(text: &str) -> Record {
    Record::new(text.as_bytes().to_vec())
}

fn one_stage_chain(engine: &mut SmartEngine) -> SmartModuleChainInstance {
    let mut builder = SmartModuleChainBuilder::default();
    builder.add_smart_module(SmartModuleConfig::builder().build(), Vec::new());
    let guests = vec![StageGuest {
        exports: Some(vec!["alloc".to_string(), "filter".to_string()]),
        init: pass_call(0),
    }];
    builder.initialize(&guests, engine).expect("failed to build chain")
}

fn pass_call(code: i32) -> GuestCall {
    GuestCall {
        marshal: MarshalOutcome::Written { ptr: 64 },
        code,
        announce: AnnounceOutcome::NotCalled,
    }
}

fn announcing_call(records: Vec<Record>, error_hint: Option<String>, version: i16) -> GuestCall {
    let bytes = encode_output_batch(&records, &error_hint, version).expect("encode output");
    let mem = RecordsMemory::new(128, bytes.len() as i32, bytes);
    GuestCall {
        marshal: MarshalOutcome::Written { ptr: 64 },
        code: 0,
        announce: AnnounceOutcome::Announced(mem),
    }
}

#[test]
fn test_empty_chain_identity() {
    let mut chain = SmartModuleChainInstance { instances: Vec::new() };
    let mut metric = SmartModuleChainMetrics::default();
    let mut engine = SmartEngine::new();
    let mut input = SmartModuleInput::from_records(vec![record("hello world"), record("x")]);
    input.set_base_offset(7);
    let output = chain.process(input, &Vec::new(), &mut metric, &mut engine).expect("process");
    assert_eq!(output.successes, vec![record("hello world"), record("x")]);
    assert!(output.error.is_none());
    assert_eq!(output.base_offset, 7);
    assert_eq!(metric.bytes_in, 12);
    assert_eq!(metric.records_out, 0);
    assert_eq!(metric.invocation_count, 1);
    assert_eq!(engine.guest_calls, 0);
}

#[test]
fn test_filter() {
    let mut engine = SmartEngine::new();
    let mut chain = one_stage_chain(&mut engine);
    assert_eq!(chain.instances().first().expect("first").transform().name(), "filter");
    let mut metric = SmartModuleChainMetrics::default();
    let input = SmartModuleInput::from_records(vec![record("hello world")]);
    let calls = vec![announcing_call(vec![record("hello world")], None, 17)];
    let output = chain.process(input, &calls, &mut metric, &mut engine).expect("process");
    assert_eq!(output.successes, vec![record("hello world")]);
    assert!(output.error.is_none());
    assert_eq!(metric.records_out, 1);
    assert_eq!(chain.instances()[0].calls(), 1);
    assert_eq!(engine.guest_calls, 1);
}

#[test]
fn test_filter_unknown_error() {
    let mut engine = SmartEngine::new();
    let mut chain = one_stage_chain(&mut engine);
    let mut metric = SmartModuleChainMetrics::default();
    let input = SmartModuleInput::from_records(vec![record("hello world")]);
    let calls = vec![pass_call(-1)];
    let output = chain.process(input, &calls, &mut metric, &mut engine).expect("process");
    assert!(output.successes.is_empty());
    assert_eq!(
        output.error,
        Some(SmartModuleTransformError::Status(SmartModuleTransformErrorStatus::UnknownError))
    );
}

#[test]
fn test_two_stage_error_short_circuit() {
    let mut engine = SmartEngine::new();
    let mut builder = SmartModuleChainBuilder::default();
    builder.add_smart_module(SmartModuleConfig::builder().build(), Vec::new());
    builder.add_smart_module(SmartModuleConfig::builder().build(), Vec::new());
    let guests = vec![
        StageGuest { exports: Some(vec!["filter".to_string()]), init: pass_call(0) },
        StageGuest { exports: Some(vec!["filter".to_string()]), init: pass_call(0) },
    ];
    let mut chain = builder.initialize(&guests, &mut engine).expect("failed to build chain");
    let mut metric = SmartModuleChainMetrics::default();
    let input = SmartModuleInput::from_records(vec![record("hello world")]);
    let calls = vec![announcing_call(vec![record("hello world")], None, 17), pass_call(-1)];
    let output = chain.process(input, &calls, &mut metric, &mut engine).expect("process");
    assert!(output.successes.is_empty());
    assert_eq!(
        output.error,
        Some(SmartModuleTransformError::Status(SmartModuleTransformErrorStatus::UnknownError))
    );
    // Each stage's exported function was called exactly once.
    assert_eq!(chain.instances()[0].calls(), 1);
    assert_eq!(chain.instances()[1].calls(), 1);
    assert_eq!(engine.guest_calls, 2);
    assert_eq!(metric.records_out, 0);
}

#[test]
fn test_error_stops_before_later_stages() {
    let mut engine = SmartEngine::new();
    let mut builder = SmartModuleChainBuilder::default();
    builder.add_smart_module(SmartModuleConfig::builder().build(), Vec::new());
    builder.add_smart_module(SmartModuleConfig::builder().build(), Vec::new());
    let guests = vec![
        StageGuest { exports: Some(vec!["filter".to_string()]), init: pass_call(0) },
        StageGuest { exports: Some(vec!["filter".to_string()]), init: pass_call(0) },
    ];
    let mut chain = builder.initialize(&guests, &mut engine).expect("failed to build chain");
    let mut metric = SmartModuleChainMetrics::default();
    let input = SmartModuleInput::from_records(vec![record("hello world")]);
    // Stage 1 errors; stage 2's call is never consumed.
    let calls = vec![pass_call(-1), pass_call(0)];
    let output = chain.process(input, &calls, &mut metric, &mut engine).expect("process");
    assert!(output.successes.is_empty());
    assert!(output.error.is_some());
    assert_eq!(chain.instances()[0].calls(), 1);
    assert_eq!(chain.instances()[1].calls(), 0);
    assert_eq!(engine.guest_calls, 1);
    assert_eq!(metric.records_out, 0);
}

#[test]
fn test_unannounced_output_is_empty() {
    let mut engine = SmartEngine::new();
    let mut chain = one_stage_chain(&mut engine);
    let mut metric = SmartModuleChainMetrics::default();
    let input = SmartModuleInput::from_records(vec![record("hello world")]);
    let calls = vec![pass_call(0)];
    let output = chain.process(input, &calls, &mut metric, &mut engine).expect("process");
    assert!(output.successes.is_empty());
    assert!(output.error.is_none());
}

#[test]
fn test_base_offset_invariant_across_stages() {
    let mut engine = SmartEngine::new();
    let mut builder = SmartModuleChainBuilder::default();
    builder.add_smart_module(SmartModuleConfig::builder().build(), Vec::new());
    builder.add_smart_module(SmartModuleConfig::builder().build(), Vec::new());
    let guests = vec![
        StageGuest { exports: Some(vec!["filter".to_string()]), init: pass_call(0) },
        StageGuest { exports: Some(vec!["filter".to_string()]), init: pass_call(0) },
    ];
    let mut chain = builder.initialize(&guests, &mut engine).expect("failed to build chain");
    let mut metric = SmartModuleChainMetrics::default();
    let mut input = SmartModuleInput::from_records(vec![record("a")]);
    input.set_base_offset(42);
    let calls = vec![
        announcing_call(vec![record("a")], None, 17),
        announcing_call(vec![record("a")], None, 17),
    ];
    let output = chain.process(input, &calls, &mut metric, &mut engine).expect("process");
    assert_eq!(output.base_offset, 42);
    assert!(output.error.is_none());
}

#[test]
fn test_guest_reported_runtime_error() {
    let mut engine = SmartEngine::new();
    let mut chain = one_stage_chain(&mut engine);
    let mut metric = SmartModuleChainMetrics::default();
    let input = SmartModuleInput::from_records(vec![record("hello world")]);
    let calls = vec![announcing_call(vec![], Some("boom".to_string()), 17)];
    let output = chain.process(input, &calls, &mut metric, &mut engine).expect("process");
    assert!(output.successes.is_empty());
    assert_eq!(output.error, Some(SmartModuleTransformError::Runtime("boom".to_string())));
    assert_eq!(metric.records_out, 0);
}

#[test]
fn test_errored_final_batch_not_counted() {
    let mut engine = SmartEngine::new();
    let mut chain = one_stage_chain(&mut engine);
    let mut metric = SmartModuleChainMetrics::default();
    let input = SmartModuleInput::from_records(vec![record("hello world")]);
    // The final stage hands back partial successes together with an error:
    // a failed partial result, so nothing is recorded at chain exit.
    let calls = vec![announcing_call(vec![record("kept")], Some("boom".to_string()), 17)];
    let output = chain.process(input, &calls, &mut metric, &mut engine).expect("process");
    assert_eq!(output.successes, vec![record("kept")]);
    assert_eq!(output.error, Some(SmartModuleTransformError::Runtime("boom".to_string())));
    assert_eq!(metric.records_out, 0);
}

#[test]
fn test_unreadable_announcement_fails_memory_read() {
    let mut engine = SmartEngine::new();
    let mut chain = one_stage_chain(&mut engine);
    let mut metric = SmartModuleChainMetrics::default();
    let input = SmartModuleInput::from_records(vec![record("a")]);
    let calls = vec![GuestCall {
        marshal: MarshalOutcome::Written { ptr: 64 },
        code: 0,
        announce: AnnounceOutcome::Announced(RecordsMemory::new_unreadable(1 << 30, 8)),
    }];
    let err = chain.process(input, &calls, &mut metric, &mut engine).expect_err("must fail");
    assert_eq!(err, EngineError::MemoryRead);
}

#[test]
fn test_missing_alloc_fails_allocation() {
    let mut engine = SmartEngine::new();
    let mut chain = one_stage_chain(&mut engine);
    let mut metric = SmartModuleChainMetrics::default();
    let input = SmartModuleInput::from_records(vec![record("a")]);
    let calls = vec![GuestCall {
        marshal: MarshalOutcome::MissingAlloc,
        code: 0,
        announce: AnnounceOutcome::NotCalled,
    }];
    let err = chain.process(input, &calls, &mut metric, &mut engine).expect_err("must fail");
    assert_eq!(err, EngineError::Allocation);
    // The write failed before the guest was reached.
    assert_eq!(chain.instances()[0].calls(), 0);
    assert_eq!(engine.guest_calls, 0);
}

#[test]
fn test_write_failure_fails_memory_write() {
    let mut engine = SmartEngine::new();
    let mut chain = one_stage_chain(&mut engine);
    let mut metric = SmartModuleChainMetrics::default();
    let input = SmartModuleInput::from_records(vec![record("a")]);
    let calls = vec![GuestCall {
        marshal: MarshalOutcome::WriteFailed,
        code: 0,
        announce: AnnounceOutcome::NotCalled,
    }];
    let err = chain.process(input, &calls, &mut metric, &mut engine).expect_err("must fail");
    assert_eq!(err, EngineError::MemoryWrite);
}

#[test]
fn test_garbage_announcement_fails_decode() {
    let mut engine = SmartEngine::new();
    let mut chain = one_stage_chain(&mut engine);
    let mut metric = SmartModuleChainMetrics::default();
    let input = SmartModuleInput::from_records(vec![record("a")]);
    let garbage = vec![0xFFu8; 3];
    let calls = vec![GuestCall {
        marshal: MarshalOutcome::Written { ptr: 64 },
        code: 0,
        announce: AnnounceOutcome::Announced(RecordsMemory::new(0, 3, garbage)),
    }];
    let err = chain.process(input, &calls, &mut metric, &mut engine).expect_err("must fail");
    assert_eq!(err, EngineError::OutputDecode);
}
