//! The error taxonomy.
//!
//! Every data-bearing guest export returns one `i32`: a non-negative value
//! means success, a negative value decodes to a member of a closed status
//! enum specific to the export kind. Unrecognized negative values are never
//! treated as success; they degrade to the `UnknownError` member, keeping
//! the sandbox boundary fail-closed.

use vstd::prelude::*;

verus! {

/// Status decoded from a negative return code of a guest `init` export.
#[derive(Clone, Copy, Debug, PartialEq, Eq, Structural)]
pub enum SmartModuleInitErrorStatus {
    /// An unrecognized negative return code.
    UnknownError,
    /// The configured parameters were rejected.
    ParamError,
    /// Initialization itself failed.
    InitError,
}

/// Status decoded from a negative return code of a guest transform export.
#[derive(Clone, Copy, Debug, PartialEq, Eq, Structural)]
pub enum SmartModuleTransformErrorStatus {
    /// An unrecognized negative return code.
    UnknownError,
    /// The guest failed to decode the base input.
    DecodingBaseInput,
    /// The guest failed to decode the record input.
    DecodingRecords,
    /// The guest failed to encode its output.
    EncodingOutput,
    /// The guest failed to parse the extra parameters.
    ParsingExtraParams,
    /// The right-hand record of a join was undefined.
    UndefinedRightRecord,
}

/// The host-side error taxonomy of chain construction and batch processing.
#[derive(Clone, Copy, Debug, PartialEq, Eq, Structural)]
pub enum EngineError {
    /// Module loading or import linking failed.
    Instantiation,
    /// The guest exposes no recognized transform entry point.
    UnknownSmartModule,
    /// The guest exports no allocator function.
    Allocation,
    /// Writing the input batch into guest memory failed, or the encoded
    /// batch does not fit the addressable range of the calling convention.
    MemoryWrite,
    /// The memory range the guest announced could not be read.
    MemoryRead,
    /// Encoding the input value at the stage's wire version failed.
    Encode,
    /// The bytes the guest announced did not decode as an output batch at
    /// the stage's wire version.
    OutputDecode,
    /// The guest reported failure from its `init` export.
    Init(SmartModuleInitErrorStatus),
}

/// The init status a given negative return code decodes to: `-2` is a
/// parameter error, `-3` an initialization failure, and every other
/// negative code is unknown.
pub open spec fn init_status_of_code(code: int) -> SmartModuleInitErrorStatus {
    if code == -2 {
        SmartModuleInitErrorStatus::ParamError
    } else if code == -3 {
        SmartModuleInitErrorStatus::InitError
    } else {
        SmartModuleInitErrorStatus::UnknownError
    }
}

/// Decodes a negative `init` return code to its status.
pub fn init_status_from_code(code: i32) -> (r: SmartModuleInitErrorStatus)
    requires
        code < 0,
    ensures
        r == init_status_of_code(code as int),
{
    if code == -2 {
        SmartModuleInitErrorStatus::ParamError
    } else if code == -3 {
        SmartModuleInitErrorStatus::InitError
    } else {
        SmartModuleInitErrorStatus::UnknownError
    }
}

/// The transform status a given negative return code decodes to. The codes
/// are the guest calling convention's: `-11` input decoding, `-22` record
/// decoding, `-33` output encoding, `-44` parameter parsing, `-55` a join
/// without a right record; every other negative code is unknown.
pub open spec fn transform_status_of_code(code: int) -> SmartModuleTransformErrorStatus {
    if code == -11 {
        SmartModuleTransformErrorStatus::DecodingBaseInput
    } else if code == -22 {
        SmartModuleTransformErrorStatus::DecodingRecords
    } else if code == -33 {
        SmartModuleTransformErrorStatus::EncodingOutput
    } else if code == -44 {
        SmartModuleTransformErrorStatus::ParsingExtraParams
    } else if code == -55 {
        SmartModuleTransformErrorStatus::UndefinedRightRecord
    } else {
        SmartModuleTransformErrorStatus::UnknownError
    }
}

/// Decodes a negative transform return code to its status.
pub fn transform_status_from_code(code: i32) -> (r: SmartModuleTransformErrorStatus)
    requires
        code < 0,
    ensures
        r == transform_status_of_code(code as int),
{
    if code == -11 {
        SmartModuleTransformErrorStatus::DecodingBaseInput
    } else if code == -22 {
        SmartModuleTransformErrorStatus::DecodingRecords
    } else if code == -33 {
        SmartModuleTransformErrorStatus::EncodingOutput
    } else if code == -44 {
        SmartModuleTransformErrorStatus::ParsingExtraParams
    } else if code == -55 {
        SmartModuleTransformErrorStatus::UndefinedRightRecord
    } else {
        SmartModuleTransformErrorStatus::UnknownError
    }
}

} // verus!
