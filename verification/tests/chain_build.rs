use smartengine::EngineError;
use smartengine::SmartEngine;
use smartengine::SmartModuleChainBuilder;
use smartengine::SmartModuleConfig;
use smartengine::SmartModuleInitErrorStatus;
use smartengine::SmartModuleInitialData;
use smartengine::SmartModuleTransformErrorStatus;
use smartengine::config::DEFAULT_SMARTENGINE_VERSION;
use smartengine::error::init_status_from_code;
use smartengine::error::transform_status_from_code;
use smartengine::guest::AnnounceOutcome;
use smartengine::guest::GuestCall;
use smartengine::guest::MarshalOutcome;
use smartengine::guest::StageGuest;

fn call(code: i32) -> GuestCall {
    GuestCall {
        marshal: MarshalOutcome::Written { ptr: 64 },
        code,
        announce: AnnounceOutcome::NotCalled,
    }
}

#[test]
fn test_filter_with_init_invalid_param() {
    let mut engine = SmartEngine::new();
    let mut builder = SmartModuleChainBuilder::default();
    builder.add_smart_module(SmartModuleConfig::builder().build(), Vec::new());
    let guests = vec![StageGuest {
        exports: Some(vec!["filter".to_string(), "init".to_string()]),
        init: call(-2),
    }];
    let err = builder.initialize(&guests, &mut engine).expect_err("should return param error");
    assert_eq!(err, EngineError::Init(SmartModuleInitErrorStatus::ParamError));
}

#[test]
fn test_filter_with_init_ok() {
    let mut engine = SmartEngine::new();
    let mut builder = SmartModuleChainBuilder::default();
    let mut cfg = SmartModuleConfig::builder();
    cfg.param("key".to_string(), "a".to_string());
    builder.add_smart_module(cfg.build(), Vec::new());
    let guests = vec![StageGuest {
        exports: Some(vec!["filter".to_string(), "init".to_string()]),
        init: call(0),
    }];
    let chain = builder.initialize(&guests, &mut engine).expect("failed to build chain");
    let instance = chain.instances().first().expect("first");
    assert_eq!(instance.transform().name(), "filter");
    assert!(instance.get_init().is_some());
    // The init handshake reached the guest exactly once.
    assert_eq!(engine.guest_calls, 1);
}

#[test]
fn test_no_init_export_makes_no_call() {
    let mut engine = SmartEngine::new();
    let mut builder = SmartModuleChainBuilder::default();
    builder.add_smart_module(SmartModuleConfig::builder().build(), Vec::new());
    let guests = vec![StageGuest {
        exports: Some(vec!["filter".to_string()]),
        // Would fail if it were consulted; it must not be.
        init: call(-2),
    }];
    let chain = builder.initialize(&guests, &mut engine).expect("failed to build chain");
    assert!(chain.instances()[0].get_init().is_none());
    assert_eq!(engine.guest_calls, 0);
}

#[test]
fn test_unknown_transform_kind() {
    let mut engine = SmartEngine::new();
    let mut builder = SmartModuleChainBuilder::default();
    builder.add_smart_module(SmartModuleConfig::builder().build(), Vec::new());
    let guests = vec![StageGuest {
        exports: Some(vec!["map_entry".to_string(), "init".to_string()]),
        init: call(0),
    }];
    let err = builder.initialize(&guests, &mut engine).expect_err("must fail");
    assert_eq!(err, EngineError::UnknownSmartModule);
    // The recognized entry point is probed before init runs.
    assert_eq!(engine.guest_calls, 0);
}

#[test]
fn test_builder_from_pair() {
    let mut engine = SmartEngine::new();
    let builder =
        SmartModuleChainBuilder::from_pair(SmartModuleConfig::builder().build(), vec![0, 97, 115]);
    let guests = vec![StageGuest { exports: Some(vec!["filter".to_string()]), init: call(0) }];
    let chain = builder.initialize(&guests, &mut engine).expect("failed to build chain");
    assert_eq!(chain.instances().len(), 1);
}

#[test]
fn test_instantiation_failure() {
    let mut engine = SmartEngine::new();
    let mut builder = SmartModuleChainBuilder::default();
    builder.add_smart_module(SmartModuleConfig::builder().build(), Vec::new());
    let guests = vec![StageGuest { exports: None, init: call(0) }];
    let err = builder.initialize(&guests, &mut engine).expect_err("must fail");
    assert_eq!(err, EngineError::Instantiation);
}

#[test]
fn test_build_fails_fast_on_first_bad_stage() {
    let mut engine = SmartEngine::new();
    let mut builder = SmartModuleChainBuilder::default();
    builder.add_smart_module(SmartModuleConfig::builder().build(), Vec::new());
    builder.add_smart_module(SmartModuleConfig::builder().build(), Vec::new());
    let guests = vec![
        StageGuest { exports: None, init: call(0) },
        StageGuest { exports: Some(vec!["filter".to_string()]), init: call(0) },
    ];
    let err = builder.initialize(&guests, &mut engine).expect_err("must fail");
    assert_eq!(err, EngineError::Instantiation);
}

#[test]
fn test_init_status_codes() {
    assert_eq!(init_status_from_code(-1), SmartModuleInitErrorStatus::UnknownError);
    assert_eq!(init_status_from_code(-2), SmartModuleInitErrorStatus::ParamError);
    assert_eq!(init_status_from_code(-3), SmartModuleInitErrorStatus::InitError);
    assert_eq!(init_status_from_code(-99), SmartModuleInitErrorStatus::UnknownError);
}

#[test]
fn test_transform_status_codes() {
    assert_eq!(transform_status_from_code(-1), SmartModuleTransformErrorStatus::UnknownError);
    assert_eq!(transform_status_from_code(-11), SmartModuleTransformErrorStatus::DecodingBaseInput);
    assert_eq!(transform_status_from_code(-22), SmartModuleTransformErrorStatus::DecodingRecords);
    assert_eq!(transform_status_from_code(-33), SmartModuleTransformErrorStatus::EncodingOutput);
    assert_eq!(
        transform_status_from_code(-44),
        SmartModuleTransformErrorStatus::ParsingExtraParams
    );
    assert_eq!(
        transform_status_from_code(-55),
        SmartModuleTransformErrorStatus::UndefinedRightRecord
    );
    assert_eq!(transform_status_from_code(-2), SmartModuleTransformErrorStatus::UnknownError);
}

#[test]
fn test_config_version_default_and_override() {
    let config = SmartModuleConfig::builder().build();
    assert_eq!(config.version(), DEFAULT_SMARTENGINE_VERSION);
    assert_eq!(config.version(), 17);
    let mut b = SmartModuleConfig::builder();
    b.version(21);
    assert_eq!(b.build().version(), 21);
}

#[test]
fn test_config_builder_param_replaces_existing_key() {
    let mut b = SmartModuleConfig::builder();
    b.param("key".to_string(), "a".to_string());
    b.param("other".to_string(), "x".to_string());
    b.param("key".to_string(), "b".to_string());
    let config = b.build();
    assert_eq!(
        config.params.pairs,
        vec![("key".to_string(), "b".to_string()), ("other".to_string(), "x".to_string())]
    );
}

#[test]
fn test_builder_initial_data_setter() {
    let mut b = SmartModuleConfig::builder();
    b.initial_data(SmartModuleInitialData::with_aggregate(vec![9]));
    let config = b.build();
    assert_eq!(config.initial_data, SmartModuleInitialData::Aggregate { accumulator: vec![9] });
}

#[test]
fn test_initial_data() {
    assert_eq!(SmartModuleInitialData::default(), SmartModuleInitialData::Empty);
    assert_eq!(
        SmartModuleInitialData::with_aggregate(vec![1, 2, 3]),
        SmartModuleInitialData::Aggregate { accumulator: vec![1, 2, 3] }
    );
}
