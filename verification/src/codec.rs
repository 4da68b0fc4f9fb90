//! The versioned wire codec, reached through trusted declarations.
//!
//! Every batch that crosses the host/guest boundary is encoded and decoded
//! by the outside codec at the wire version the stage was configured with.
//! What the codec produces is a function of the encoded value and the
//! version alone; the contracts here give each such result a name and state
//! nothing else about it, so everything the engine proves holds for
//! whatever bytes the codec actually produces.

use vstd::prelude::*;
use std::io::Cursor;
use fluvio_protocol::Decoder;
use fluvio_protocol::Encoder;
use fluvio_smartmodule::dataplane::smartmodule::SmartModuleInitInput as WireInitInput;
use fluvio_smartmodule::dataplane::smartmodule::SmartModuleInput as WireInput;
use fluvio_smartmodule::dataplane::smartmodule::SmartModuleOutput as WireOutput;
use fluvio_smartmodule::dataplane::smartmodule::SmartModuleExtraParams as WireParams;
use fluvio_smartmodule::dataplane::smartmodule::SmartModuleTransformRuntimeError as WireRuntimeError;
use crate::records::Record;
use crate::records::RecordView;
use crate::records::records_view;
use crate::config::SmartModuleExtraParams;

verus! {

/// The bytes of an input batch — the given records at the given base
/// offset — encoded at a wire version; `None` when encoding fails.
pub uninterp spec fn input_encoding(
    records: Seq<RecordView>,
    base_offset: int,
    version: int,
) -> Option<Seq<u8>>;

/// The bytes of an init input carrying a parameter mapping, encoded at a
/// wire version; `None` when encoding fails.
pub uninterp spec fn init_input_encoding(
    params: Seq<(Seq<char>, Seq<char>)>,
    version: int,
) -> Option<Seq<u8>>;

/// The bytes of an output batch — successes plus an optional error hint —
/// encoded at a wire version; `None` when encoding fails.
pub uninterp spec fn output_encoding(
    successes: Seq<RecordView>,
    error_hint: Option<Seq<char>>,
    version: int,
) -> Option<Seq<u8>>;

/// What a byte string decodes to as an output batch at a wire version;
/// `None` when it is not a valid encoding.
pub uninterp spec fn output_decoding(bytes: Seq<u8>, version: int) -> Option<DecodedOutputView>;

/// Mathematical image of a [`DecodedOutput`].
pub struct DecodedOutputView {
    pub successes: Seq<RecordView>,
    pub error_hint: Option<Seq<char>>,
}

/// An output batch as decoded from guest memory: the produced records and
/// the hint text of the error the guest reported, if it reported one.
#[derive(Clone, Debug, PartialEq, Eq)]
pub struct DecodedOutput {
    pub successes: Vec<Record>,
    pub error_hint: Option<String>,
}

impl View for DecodedOutput {
    type V = DecodedOutputView;

    open spec fn view(&self) -> DecodedOutputView {
        DecodedOutputView {
            successes: records_view(self.successes@),
            error_hint: match self.error_hint {
                Some(h) => Some(h@),
                None => None,
            },
        }
    }
}

/// Relies on `SmartModuleInput::try_from_records` and the derived
/// `Encoder` of `SmartModuleInput` in the outside codec: the records are
/// encoded into the batch's raw bytes and the whole batch is encoded at
/// the given version. The result depends on the arguments alone.
#[verifier::external_body]
pub(crate) fn encode_input_call(records: &Vec<Record>, base_offset: i64, version: i16) -> (r:
    Option<Vec<u8>>)
    ensures
        match r {
            Some(b) => input_encoding(records_view(records@), base_offset as int, version as int)
                == Some(b@),
            None => input_encoding(records_view(records@), base_offset as int, version as int)
                is None,
        },
{
    let recs: Vec<fluvio_protocol::record::Record> = records.iter().map(|r| match &r.key {
        Some(k) => fluvio_protocol::record::Record::new_key_value(k.clone(), r.value.clone()),
        None => fluvio_protocol::record::Record::new(r.value.clone()),
    }).collect();
    let mut input = match WireInput::try_from_records(recs, version) {
        Ok(i) => i,
        Err(_) => return None,
    };
    input.set_base_offset(base_offset);
    let mut out: Vec<u8> = Vec::new();
    match input.encode(&mut out, version) {
        Ok(()) => Some(out),
        Err(_) => None,
    }
}

/// Relies on the derived `Encoder` of `SmartModuleInitInput` in the
/// outside codec: the parameter mapping is encoded at the given version.
/// The result depends on the arguments alone.
#[verifier::external_body]
pub(crate) fn encode_init_input_call(params: &SmartModuleExtraParams, version: i16) -> (r: Option<
    Vec<u8>>)
    ensures
        match r {
            Some(b) => init_input_encoding(params@, version as int) == Some(b@),
            None => init_input_encoding(params@, version as int) is None,
        },
{
    let mut map = std::collections::BTreeMap::new();
    for kv in params.pairs.iter() {
        map.insert(kv.0.clone(), kv.1.clone());
    }
    let input = WireInitInput { params: WireParams::from(map) };
    let mut out: Vec<u8> = Vec::new();
    match input.encode(&mut out, version) {
        Ok(()) => Some(out),
        Err(_) => None,
    }
}

/// Relies on the derived `Encoder` of `SmartModuleOutput` in the outside
/// codec: the successes, and the error hint wrapped in an otherwise empty
/// runtime error, are encoded at the given version. The result depends on
/// the arguments alone.
#[verifier::external_body]
pub(crate) fn encode_output_call(
    successes: &Vec<Record>,
    error_hint: &Option<String>,
    version: i16,
) -> (r: Option<Vec<u8>>)
    ensures
        match r {
            Some(b) => output_encoding(
                records_view(successes@),
                match *error_hint {
                    Some(h) => Some(h@),
                    None => None,
                },
                version as int,
            ) == Some(b@),
            None => output_encoding(
                records_view(successes@),
                match *error_hint {
                    Some(h) => Some(h@),
                    None => None,
                },
                version as int,
            ) is None,
        },
{
    let recs: Vec<fluvio_protocol::record::Record> = successes.iter().map(|r| match &r.key {
        Some(k) => fluvio_protocol::record::Record::new_key_value(k.clone(), r.value.clone()),
        None => fluvio_protocol::record::Record::new(r.value.clone()),
    }).collect();
    let error = error_hint.as_ref().map(|h| WireRuntimeError {
        hint: h.clone(),
        ..WireRuntimeError::default()
    });
    let output = WireOutput { successes: recs, error };
    let mut out: Vec<u8> = Vec::new();
    match output.encode(&mut out, version) {
        Ok(()) => Some(out),
        Err(_) => None,
    }
}

/// Relies on the derived `Decoder` of `SmartModuleOutput` in the outside
/// codec: the bytes decode to the produced records and the optional
/// reported error, whose hint is kept. The result depends on the arguments
/// alone.
#[verifier::external_body]
pub(crate) fn decode_output_call(bytes: &Vec<u8>, version: i16) -> (r: Option<DecodedOutput>)
    ensures
        match r {
            Some(d) => output_decoding(bytes@, version as int) == Some(d@),
            None => output_decoding(bytes@, version as int) is None,
        },
{
    let mut out = WireOutput::default();
    if out.decode(&mut Cursor::new(bytes.as_slice()), version).is_err() {
        return None;
    }
    let successes: Vec<Record> = out.successes.iter().map(|rec| Record {
        key: rec.key().map(|k| k.as_ref().to_vec()),
        value: rec.value().as_ref().to_vec(),
    }).collect();
    Some(DecodedOutput { successes, error_hint: out.error.map(|e| e.hint) })
}

/// Encodes an output batch — its successes and optional error hint — at a
/// wire version, as a guest produces it: the complement of the decoding
/// the engine performs on announced guest memory.
pub fn encode_output_batch(
    successes: &Vec<Record>,
    error_hint: &Option<String>,
    version: i16,
) -> (r: Option<Vec<u8>>)
    ensures
        match r {
            Some(b) => output_encoding(
                records_view(successes@),
                match *error_hint {
                    Some(h) => Some(h@),
                    None => None,
                },
                version as int,
            ) == Some(b@),
            None => output_encoding(
                records_view(successes@),
                match *error_hint {
                    Some(h) => Some(h@),
                    None => None,
                },
                version as int,
            ) is None,
        },
{
    encode_output_call(successes, error_hint, version)
}

/// Encodes an input batch at a wire version: the bytes the host writes
/// into guest memory before invoking a data-bearing export.
pub fn encode_input_batch(records: &Vec<Record>, base_offset: i64, version: i16) -> (r: Option<
    Vec<u8>>)
    ensures
        match r {
            Some(b) => input_encoding(records_view(records@), base_offset as int, version as int)
                == Some(b@),
            None => input_encoding(records_view(records@), base_offset as int, version as int)
                is None,
        },
{
    encode_input_call(records, base_offset, version)
}

/// Decodes a byte string as an output batch at a wire version.
pub fn decode_output_batch(bytes: &Vec<u8>, version: i16) -> (r: Option<DecodedOutput>)
    ensures
        match r {
            Some(d) => output_decoding(bytes@, version as int) == Some(d@),
            None => output_decoding(bytes@, version as int) is None,
        },
{
    decode_output_call(bytes, version)
}

} // verus!
