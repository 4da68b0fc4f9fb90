use smartengine::Record;
use smartengine::SmartModuleExtraParams;
use smartengine::SmartModuleInput;
use smartengine::codec::decode_output_batch;
use smartengine::codec::encode_output_batch;
use smartengine::guest::MarshalOutcome;
use smartengine::instance::SmartModuleInstanceContext;
use smartengine::memory::RecordsCallBack;
use smartengine::memory::RecordsMemory;
use smartengine::metrics::SmartModuleChainMetrics;

fn record(text: &str) -> Record {
    Record::new(text.as_bytes().to_vec())
}

fn keyed(key: &str, value: &str) -> Record {
    Record::new_key_value(key.as_bytes().to_vec(), value.as_bytes().to_vec())
}

#[test]
fn test_output_round_trip_default_version() {
    let records = vec![record("hello world"), keyed("fruit", "apple")];
    let bytes = encode_output_batch(&records, &None, 17).expect("encode");
    let decoded = decode_output_batch(&bytes, 17).expect("decode");
    assert_eq!(decoded.successes, records);
    assert_eq!(decoded.error_hint, None);
}

#[test]
fn test_output_round_trip_every_supported_version() {
    let records = vec![keyed("k", "v"), record("plain")];
    let hint = Some("went wrong".to_string());
    for version in [11i16, 15, 16, 17, 18, 20, 21] {
        let bytes = encode_output_batch(&records, &hint, version).expect("encode");
        let decoded = decode_output_batch(&bytes, version).expect("decode");
        assert_eq!(decoded.successes, records, "version {version}");
        assert_eq!(decoded.error_hint, hint, "version {version}");
    }
}

#[test]
fn test_output_round_trip_empty_batch() {
    let bytes = encode_output_batch(&Vec::new(), &None, 17).expect("encode");
    let decoded = decode_output_batch(&bytes, 17).expect("decode");
    assert!(decoded.successes.is_empty());
    assert_eq!(decoded.error_hint, None);
}

#[test]
fn test_encoding_is_not_the_raw_value() {
    // The wire encoding frames the records; it is not the record value
    // handed back unchanged.
    let records = vec![record("hello world")];
    let bytes = encode_output_batch(&records, &None, 17).expect("encode");
    assert_ne!(bytes, "hello world".as_bytes().to_vec());
    assert!(bytes.len() > "hello world".len());
}

#[test]
fn test_write_input_encodes_and_forms_calling_triple() {
    let mut ctx = SmartModuleInstanceContext::instantiate(
        vec!["filter".to_string()],
        SmartModuleExtraParams::new(),
        17,
    );
    let input = SmartModuleInput::from_records(vec![record("hello world")]);
    let (ptr, len, version) = ctx
        .write_input(&input, &MarshalOutcome::Written { ptr: 2048 })
        .expect("write_input");
    assert_eq!(ptr, 2048);
    assert_eq!(version, 17);
    // The encoded batch frames the record: base offset, raw record bytes,
    // more than the value alone.
    assert!(len as usize > "hello world".len());
}

#[test]
fn test_write_input_clears_stale_announcement() {
    let mut ctx = SmartModuleInstanceContext::instantiate(
        vec!["filter".to_string()],
        SmartModuleExtraParams::new(),
        17,
    );
    // A stale announcement from an earlier call sits in the slot.
    let stale = encode_output_batch(&vec![record("stale")], &None, 17).expect("encode");
    ctx.records_cb.set(RecordsMemory::new(8, stale.len() as i32, stale));
    assert!(ctx.records_cb.get().is_some());
    // Writing the next input must clear it, so a guest that announces
    // nothing yields the empty batch, never the stale one.
    let input = SmartModuleInput::from_records(vec![record("fresh")]);
    ctx.write_input(&input, &MarshalOutcome::Written { ptr: 0 }).expect("write_input");
    assert!(ctx.records_cb.get().is_none());
    let output = ctx.read_output(5).expect("read_output");
    assert!(output.successes.is_empty());
    assert!(output.error.is_none());
    assert_eq!(output.base_offset, 5);
}

#[test]
fn test_write_init_input_twice_uses_latest_offset() {
    let mut ctx = SmartModuleInstanceContext::instantiate(
        vec!["filter".to_string(), "init".to_string()],
        SmartModuleExtraParams::new(),
        17,
    );
    // An init write followed by a transform write: the second triple
    // carries the offset of the second allocation, and no state of the
    // first write survives.
    let (first_ptr, _, _) = ctx
        .write_init_input(&MarshalOutcome::Written { ptr: 100 })
        .expect("write_init_input");
    assert_eq!(first_ptr, 100);
    let input = SmartModuleInput::from_records(vec![record("batch")]);
    let (second_ptr, _, _) = ctx
        .write_input(&input, &MarshalOutcome::Written { ptr: 900 })
        .expect("write_input");
    assert_eq!(second_ptr, 900);
    assert!(ctx.records_cb.get().is_none());
}

#[test]
fn test_records_memory_read() {
    let mem = RecordsMemory::new(4, 3, vec![1, 2, 3]);
    assert_eq!(mem.copy_memory_from().expect("readable"), vec![1, 2, 3]);
    let bad = RecordsMemory::new_unreadable(1 << 30, 100);
    assert!(bad.copy_memory_from().is_err());
}

#[test]
fn test_callback_slot_overwrite_and_clear() {
    let mut cb = RecordsCallBack::new();
    assert!(cb.get().is_none());
    cb.set(RecordsMemory::new(1, 1, vec![7]));
    cb.set(RecordsMemory::new(2, 2, vec![8, 9]));
    let m = cb.get().clone().expect("set");
    assert_eq!(m.ptr, 2);
    assert_eq!(m.region, Some(vec![8, 9]));
    cb.clear();
    assert!(cb.get().is_none());
}

#[test]
fn test_params_insert() {
    let mut params = SmartModuleExtraParams::new();
    params.insert("a".to_string(), "1".to_string());
    params.insert("b".to_string(), "2".to_string());
    params.insert("a".to_string(), "3".to_string());
    assert_eq!(
        params.pairs,
        vec![("a".to_string(), "3".to_string()), ("b".to_string(), "2".to_string())]
    );
}

#[test]
fn test_metrics_saturate() {
    let mut m = SmartModuleChainMetrics::default();
    m.add_bytes_in(u64::MAX - 1);
    m.add_bytes_in(5);
    assert_eq!(m.bytes_in, u64::MAX);
    m.add_records_out(3);
    m.add_records_out(4);
    assert_eq!(m.records_out, 7);
}
