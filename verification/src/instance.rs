//! One instantiated stage: its context, the host-to-guest input path and
//! the guest-to-host output path.
//!
//! A context owns the export names of its instantiated guest module, the
//! stage's output callback slot, the resolved parameter mapping and the
//! resolved wire version. A batch enters a stage only through
//! [`SmartModuleInstanceContext::write_input`], which clears the slot,
//! encodes the batch at the stage's wire version and yields the calling
//! triple; it leaves it only through
//! [`SmartModuleInstanceContext::read_output`], which reads from wherever
//! the slot points.

use vstd::prelude::*;
use crate::codec::init_input_encoding;
use crate::codec::input_encoding;
use crate::codec::output_decoding;
use crate::config::SmartModuleExtraParams;
use crate::error::EngineError;
use crate::error::transform_status_of_code;
use crate::guest::AnnounceOutcomeView;
use crate::guest::GuestCallView;
use crate::guest::MarshalOutcome;
use crate::memory::RecordsCallBack;
use crate::memory::RecordsMemoryView;
use crate::records::InputView;
use crate::records::OutputView;
use crate::records::SmartModuleInput;
use crate::records::SmartModuleOutput;
use crate::records::TransformErrorView;

verus! {

/// The calling triple handed to every data-bearing guest export: a guest
/// pointer, a byte length, and the wire version of the encoded batch.
pub type WasmSlice = (i32, i32, u32);

/// The mathematical image of a calling triple.
pub open spec fn wasm_slice_view(t: WasmSlice) -> (int, int, int) {
    (t.0 as int, t.1 as int, t.2 as int)
}

/// What writing an already-encoded value into guest memory yields: the
/// calling triple on success; `Encode` when the encoding itself failed
/// (`enc` is `None`); `MemoryWrite` when the encoded value cannot be
/// addressed by the calling convention or the write failed; `Allocation`
/// when the guest exports no allocator.
pub open spec fn spec_write_bytes(enc: Option<Seq<u8>>, version: i16, marshal: MarshalOutcome) -> Result<
    (int, int, int),
    EngineError,
> {
    match enc {
        Option::None => Err(EngineError::Encode),
        Option::Some(bytes) => if bytes.len() > i32::MAX as int {
            Err(EngineError::MemoryWrite)
        } else {
            match marshal {
                MarshalOutcome::Written { ptr } => Ok(
                    (ptr as int, bytes.len() as int, (version as u32) as int),
                ),
                MarshalOutcome::MissingAlloc => Err(EngineError::Allocation),
                MarshalOutcome::WriteFailed => Err(EngineError::MemoryWrite),
            }
        },
    }
}

/// [`spec_write_bytes`] for an input batch.
pub open spec fn spec_write_input(version: i16, input: InputView, marshal: MarshalOutcome) -> Result<
    (int, int, int),
    EngineError,
> {
    spec_write_bytes(input_encoding(input.records, input.base_offset, version as int), version, marshal)
}

/// [`spec_write_bytes`] for an init input carrying the parameter mapping.
pub open spec fn spec_write_init(
    version: i16,
    params: Seq<(Seq<char>, Seq<char>)>,
    marshal: MarshalOutcome,
) -> Result<(int, int, int), EngineError> {
    spec_write_bytes(init_input_encoding(params, version as int), version, marshal)
}

/// The slot content after a guest call whose input write succeeded: the
/// guest's announcement, or nothing.
pub open spec fn spec_slot_after(call: GuestCallView) -> Option<RecordsMemoryView> {
    match call.announce {
        AnnounceOutcomeView::NotCalled => Option::None,
        AnnounceOutcomeView::Announced(m) => Option::Some(m),
    }
}

/// What reading the output of a stage yields, from the slot content, the
/// stage's wire version and the base offset the host carries forward: an
/// empty batch when the guest never announced; `MemoryRead` when the
/// announced range is not readable; `OutputDecode` when its bytes are not
/// a valid encoding; else the decoded batch.
pub open spec fn spec_read_output(
    slot: Option<RecordsMemoryView>,
    version: i16,
    base_offset: int,
) -> Result<OutputView, EngineError> {
    match slot {
        Option::None => Ok(
            OutputView { base_offset, successes: Seq::empty(), error: Option::None },
        ),
        Option::Some(m) => match m.region {
            Option::None => Err(EngineError::MemoryRead),
            Option::Some(bytes) => match output_decoding(bytes, version as int) {
                Option::None => Err(EngineError::OutputDecode),
                Option::Some(d) => Ok(
                    OutputView {
                        base_offset,
                        successes: d.successes,
                        error: match d.error_hint {
                            Option::Some(h) => Option::Some(TransformErrorView::Runtime(h)),
                            Option::None => Option::None,
                        },
                    },
                ),
            },
        },
    }
}

/// Whether a stage invocation actually reached the guest export: it did
/// exactly when writing the input batch succeeded.
pub open spec fn spec_stage_invoked(version: i16, input: InputView, call: GuestCallView) -> bool {
    spec_write_input(version, input, call.marshal) is Ok
}

/// One full stage invocation: write the input batch, call the export,
/// interpret a negative return code as a status carried in the output
/// batch's error slot, and on a non-negative code read the output batch
/// from wherever the slot points. The base offset of the input is carried
/// into the output unchanged, whatever the guest did.
pub open spec fn spec_stage_process(version: i16, input: InputView, call: GuestCallView) -> Result<
    OutputView,
    EngineError,
> {
    match spec_write_input(version, input, call.marshal) {
        Err(e) => Err(e),
        Ok(_triple) => if call.code < 0 {
            Ok(
                OutputView {
                    base_offset: input.base_offset,
                    successes: Seq::empty(),
                    error: Option::Some(
                        TransformErrorView::Status(transform_status_of_code(call.code)),
                    ),
                },
            )
        } else {
            spec_read_output(spec_slot_after(call), version, input.base_offset)
        },
    }
}

/// The slot content a stage invocation leaves behind: the announcement if
/// the guest was reached, else nothing — the write path clears the slot
/// before anything else.
pub open spec fn spec_stage_final_slot(version: i16, input: InputView, call: GuestCallView) -> Option<
    RecordsMemoryView,
> {
    if spec_stage_invoked(version, input, call) {
        spec_slot_after(call)
    } else {
        Option::None
    }
}

/// The context of one instantiated stage.
#[derive(Clone, Debug)]
pub struct SmartModuleInstanceContext {
    /// The names of the functions the guest module exports.
    pub exports: Vec<String>,
    /// This stage's output callback slot.
    pub records_cb: RecordsCallBack,
    /// The resolved parameter mapping.
    pub params: SmartModuleExtraParams,
    /// The resolved wire version.
    pub version: i16,
}

/// A context with its slot cleared and everything else kept.
pub open spec fn spec_ctx_cleared(ctx: SmartModuleInstanceContext) -> SmartModuleInstanceContext {
    SmartModuleInstanceContext { records_cb: RecordsCallBack { slot: Option::None }, ..ctx }
}

impl SmartModuleInstanceContext {
    pub open spec fn wf(&self) -> bool {
        &&& self.records_cb.wf()
        &&& self.params.wf()
    }

    /// The view of the export names.
    pub open spec fn spec_exports(&self) -> Seq<Seq<char>> {
        self.exports@.map_values(|s: String| s@)
    }

    /// A freshly instantiated context: the given exports, parameters and
    /// wire version, and an empty slot.
    pub fn instantiate(exports: Vec<String>, params: SmartModuleExtraParams, version: i16) -> (r:
        Self)
        requires
            params.wf(),
        ensures
            r == (SmartModuleInstanceContext {
                exports,
                records_cb: RecordsCallBack { slot: None },
                params,
                version,
            }),
            r.wf(),
    {
        SmartModuleInstanceContext { exports, records_cb: RecordsCallBack::new(), params, version }
    }

    /// Whether the guest exports a function of this name.
    pub fn has_export(&self, name: &String) -> (r: bool)
        ensures
            r == self.spec_exports().contains(name@),
    {
        let n: usize = self.exports.len();
        let mut i: usize = 0;
        while i < n
            invariant
                n == self.exports.len(),
                0 <= i <= n,
                forall|j: int| 0 <= j < i ==> self.spec_exports()[j] != name@,
            decreases n - i,
        {
            if self.exports[i] == *name {
                proof {
                    assert(self.spec_exports()[i as int] == name@);
                }
                return true;
            }
            i += 1;
        }
        proof {
            assert(!self.spec_exports().contains(name@));
        }
        false
    }

    /// Clears the output callback slot, encodes the batch at this stage's
    /// wire version, and — the marshaling into guest memory done — returns
    /// the calling triple. This is the only way a batch enters a stage.
    pub fn write_input(&mut self, input: &SmartModuleInput, marshal: &MarshalOutcome) -> (r: Result<
        WasmSlice,
        EngineError,
    >)
        requires
            old(self).wf(),
        ensures
            *final(self) == spec_ctx_cleared(*old(self)),
            final(self).wf(),
            match r {
                Ok(t) => spec_write_input(old(self).version, input@, *marshal) == Ok::<
                    (int, int, int),
                    EngineError,
                >(wasm_slice_view(t)),
                Err(e) => spec_write_input(old(self).version, input@, *marshal) == Err::<
                    (int, int, int),
                    EngineError,
                >(e),
            },
    {
        self.records_cb.clear();
        let bytes = match crate::codec::encode_input_call(&input.records, input.base_offset, self.version) {
            Some(b) => b,
            None => {
                return Err(EngineError::Encode);
            },
        };
        let len: usize = bytes.len();
        if len > i32::MAX as usize {
            return Err(EngineError::MemoryWrite);
        }
        match marshal {
            MarshalOutcome::Written { ptr } => Ok((*ptr, len as i32, self.version as u32)),
            MarshalOutcome::MissingAlloc => Err(EngineError::Allocation),
            MarshalOutcome::WriteFailed => Err(EngineError::MemoryWrite),
        }
    }

    /// The write path of the one-shot init handshake: clears the slot,
    /// encodes the parameter mapping at this stage's wire version, and
    /// returns the calling triple.
    pub fn write_init_input(&mut self, marshal: &MarshalOutcome) -> (r: Result<
        WasmSlice,
        EngineError,
    >)
        requires
            old(self).wf(),
        ensures
            *final(self) == spec_ctx_cleared(*old(self)),
            final(self).wf(),
            match r {
                Ok(t) => spec_write_init(old(self).version, old(self).params@, *marshal) == Ok::<
                    (int, int, int),
                    EngineError,
                >(wasm_slice_view(t)),
                Err(e) => spec_write_init(old(self).version, old(self).params@, *marshal) == Err::<
                    (int, int, int),
                    EngineError,
                >(e),
            },
    {
        self.records_cb.clear();
        let bytes = match crate::codec::encode_init_input_call(&self.params, self.version) {
            Some(b) => b,
            None => {
                return Err(EngineError::Encode);
            },
        };
        let len: usize = bytes.len();
        if len > i32::MAX as usize {
            return Err(EngineError::MemoryWrite);
        }
        match marshal {
            MarshalOutcome::Written { ptr } => Ok((*ptr, len as i32, self.version as u32)),
            MarshalOutcome::MissingAlloc => Err(EngineError::Allocation),
            MarshalOutcome::WriteFailed => Err(EngineError::MemoryWrite),
        }
    }

    /// Reads the output batch from wherever the slot points: an empty
    /// batch when the guest never announced, else the announced range
    /// decoded at this stage's wire version. The given base offset is
    /// stamped onto the batch unchanged.
    pub fn read_output(&self, base_offset: i64) -> (r: Result<SmartModuleOutput, EngineError>)
        ensures
            match r {
                Ok(o) => spec_read_output(self.records_cb@, self.version, base_offset as int) == Ok::<
                    OutputView,
                    EngineError,
                >(o@),
                Err(e) => spec_read_output(self.records_cb@, self.version, base_offset as int)
                    == Err::<OutputView, EngineError>(e),
            },
    {
        let m = match self.records_cb.get() {
            Some(m) => m,
            None => {
                let empty_successes: Vec<crate::records::Record> = Vec::new();
                proof {
                    assert(crate::records::records_view(empty_successes@) =~= Seq::<
                        crate::records::RecordView,
                    >::empty());
                }
                return Ok(SmartModuleOutput::new(base_offset, empty_successes));
            },
        };
        let bytes = match m.copy_memory_from() {
            Ok(b) => b,
            Err(e) => {
                return Err(e);
            },
        };
        let decoded = match crate::codec::decode_output_call(&bytes, self.version) {
            Some(d) => d,
            None => {
                return Err(EngineError::OutputDecode);
            },
        };
        let error = match decoded.error_hint {
            Some(h) => Some(crate::records::SmartModuleTransformError::Runtime(h)),
            None => None,
        };
        Ok(SmartModuleOutput { base_offset, successes: decoded.successes, error })
    }
}

/// Once the slot has been cleared by the input write, a guest that
/// returns success without ever invoking the announce import produces
/// the empty output batch: no records and no error.
pub proof fn lemma_unannounced_output_empty(version: i16, input: InputView, call: GuestCallView)
    requires
        call.announce is NotCalled,
        call.code >= 0,
        spec_stage_invoked(version, input, call),
    ensures
        spec_stage_process(version, input, call) == Ok::<OutputView, EngineError>(
            OutputView {
                base_offset: input.base_offset,
                successes: Seq::empty(),
                error: Option::None,
            },
        ),
{
}

/// Whether the optional init handshake of an instance succeeds: a guest
/// without an `init` export is initialized with no call made.
pub open spec fn spec_instance_init(
    has_init: bool,
    version: i16,
    params: Seq<(Seq<char>, Seq<char>)>,
    call: GuestCallView,
) -> Result<(), EngineError> {
    if has_init {
        crate::init::spec_init_process(version, params, call)
    } else {
        Ok(())
    }
}

/// Whether the instance's init handshake reached a guest export.
pub open spec fn spec_instance_init_invoked(
    has_init: bool,
    version: i16,
    params: Seq<(Seq<char>, Seq<char>)>,
    call: GuestCallView,
) -> bool {
    has_init && crate::init::spec_init_invoked(version, params, call)
}

/// The slot content the instance's init handshake leaves behind.
pub open spec fn spec_instance_init_slot(
    has_init: bool,
    version: i16,
    params: Seq<(Seq<char>, Seq<char>)>,
    call: GuestCallView,
    old_slot: Option<RecordsMemoryView>,
) -> Option<RecordsMemoryView> {
    if has_init {
        crate::init::spec_init_final_slot(version, params, call)
    } else {
        old_slot
    }
}

/// One instantiated stage: its context, its optional init handle and its
/// transform, plus a probe counting how many times its transform entry
/// point was actually invoked.
#[derive(Debug)]
pub struct SmartModuleInstance {
    pub ctx: SmartModuleInstanceContext,
    pub init: Option<crate::init::SmartModuleInit>,
    pub transform: crate::transforms::SmartModuleTransform,
    pub calls: u64,
}

impl SmartModuleInstance {
    pub open spec fn wf(&self) -> bool {
        self.ctx.wf()
    }

    /// Assembles a stage; its transform has never been invoked.
    pub fn new(
        ctx: SmartModuleInstanceContext,
        init: Option<crate::init::SmartModuleInit>,
        transform: crate::transforms::SmartModuleTransform,
    ) -> (r: Self)
        requires
            ctx.wf(),
        ensures
            r == (SmartModuleInstance { ctx, init, transform, calls: 0u64 }),
            r.wf(),
    {
        SmartModuleInstance { ctx, init, transform, calls: 0 }
    }

    /// The stage's transform.
    pub fn transform(&self) -> (r: &crate::transforms::SmartModuleTransform)
        ensures
            *r == self.transform,
    {
        &self.transform
    }

    /// The stage's init handle, when its guest exports one.
    pub fn get_init(&self) -> (r: &Option<crate::init::SmartModuleInit>)
        ensures
            *r == self.init,
    {
        &self.init
    }

    /// How many times this stage's transform entry point was invoked.
    pub fn calls(&self) -> (r: u64)
        ensures
            r == self.calls,
    {
        self.calls
    }

    /// Runs the one-shot init handshake if the guest exports `init`, else
    /// does nothing.
    pub fn init(&mut self, call: &crate::guest::GuestCall, engine: &mut crate::engine::SmartEngine) -> (r:
        Result<(), EngineError>)
        requires
            old(self).wf(),
            call.wf(),
        ensures
            final(self).ctx.exports == old(self).ctx.exports,
            final(self).ctx.params == old(self).ctx.params,
            final(self).ctx.version == old(self).ctx.version,
            final(self).init == old(self).init,
            final(self).transform == old(self).transform,
            final(self).calls == old(self).calls,
            final(self).ctx.records_cb@ == spec_instance_init_slot(
                old(self).init is Some,
                old(self).ctx.version,
                old(self).ctx.params@,
                call@,
                old(self).ctx.records_cb@,
            ),
            final(self).wf(),
            match r {
                Ok(u) => spec_instance_init(
                    old(self).init is Some,
                    old(self).ctx.version,
                    old(self).ctx.params@,
                    call@,
                ) == Ok::<(), EngineError>(u),
                Err(e) => spec_instance_init(
                    old(self).init is Some,
                    old(self).ctx.version,
                    old(self).ctx.params@,
                    call@,
                ) == Err::<(), EngineError>(e),
            },
            final(engine).guest_calls as int == if spec_instance_init_invoked(
                old(self).init is Some,
                old(self).ctx.version,
                old(self).ctx.params@,
                call@,
            ) {
                crate::metrics::sat_add_u64(old(engine).guest_calls as int, 1)
            } else {
                old(engine).guest_calls as int
            },
    {
        match &self.init {
            Some(init) => init.initialize(&mut self.ctx, call, engine),
            None => Ok(()),
        }
    }

    /// Drives one input batch through this stage's transform, counting the
    /// invocation if the guest entry point was actually reached.
    pub fn process(
        &mut self,
        input: &SmartModuleInput,
        call: &crate::guest::GuestCall,
        engine: &mut crate::engine::SmartEngine,
    ) -> (r: Result<SmartModuleOutput, EngineError>)
        requires
            old(self).wf(),
            call.wf(),
        ensures
            final(self).ctx.exports == old(self).ctx.exports,
            final(self).ctx.params == old(self).ctx.params,
            final(self).ctx.version == old(self).ctx.version,
            final(self).init == old(self).init,
            final(self).transform == old(self).transform,
            final(self).ctx.records_cb@ == spec_stage_final_slot(
                old(self).ctx.version,
                input@,
                call@,
            ),
            final(self).wf(),
            match r {
                Ok(o) => spec_stage_process(old(self).ctx.version, input@, call@) == Ok::<
                    OutputView,
                    EngineError,
                >(o@),
                Err(e) => spec_stage_process(old(self).ctx.version, input@, call@) == Err::<
                    OutputView,
                    EngineError,
                >(e),
            },
            final(self).calls as int == if spec_stage_invoked(old(self).ctx.version, input@, call@) {
                crate::metrics::sat_add_u64(old(self).calls as int, 1)
            } else {
                old(self).calls as int
            },
            final(engine).guest_calls as int == if spec_stage_invoked(
                old(self).ctx.version,
                input@,
                call@,
            ) {
                crate::metrics::sat_add_u64(old(engine).guest_calls as int, 1)
            } else {
                old(engine).guest_calls as int
            },
    {
        let r = self.transform.process(input, &mut self.ctx, call, engine);
        let invoked = match &r {
            Err(EngineError::Allocation) => false,
            Err(EngineError::MemoryWrite) => false,
            Err(EngineError::Encode) => false,
            _ => true,
        };
        if invoked {
            if self.calls < u64::MAX {
                self.calls = self.calls + 1;
            }
        }
        r
    }
}

/// Clearing the slot is idempotent, and what a write returns does not
/// depend on anything an earlier write, or an earlier guest call, left in
/// the slot: of two writes in succession — an init write followed by a
/// transform write, say — only the second determines the calling triple,
/// and no stale announcement survives either write.
pub proof fn lemma_write_input_idempotent(
    ctx: SmartModuleInstanceContext,
    input: InputView,
    marshal: MarshalOutcome,
)
    ensures
        spec_ctx_cleared(spec_ctx_cleared(ctx)) == spec_ctx_cleared(ctx),
        spec_write_input(spec_ctx_cleared(ctx).version, input, marshal) == spec_write_input(
            ctx.version,
            input,
            marshal,
        ),
        spec_ctx_cleared(ctx).records_cb@ is None,
{
}

} // verus!
