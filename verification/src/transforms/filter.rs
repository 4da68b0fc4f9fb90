//! The filter transform: the stage variant whose guest exports a function
//! named `filter`.

use vstd::prelude::*;
use crate::engine::SmartEngine;
use crate::error::EngineError;
use crate::error::transform_status_from_code;
use crate::guest::AnnounceOutcome;
use crate::guest::GuestCall;
use crate::instance::SmartModuleInstanceContext;
use crate::instance::spec_stage_final_slot;
use crate::instance::spec_stage_invoked;
use crate::instance::spec_stage_process;
use crate::metrics::sat_add_u64;
use crate::records::SmartModuleInput;
use crate::records::SmartModuleOutput;
use crate::records::SmartModuleTransformError;

verus! {

/// Handle to a guest's `filter` entry point.
#[derive(Clone, Copy, Debug, PartialEq, Eq, Structural)]
pub struct SmartModuleFilter {}

impl SmartModuleFilter {
    /// Probes the instantiated guest for a `filter` export; absence is not
    /// an error, callers use it to pick the stage's transform variant.
    pub fn try_instantiate(ctx: &SmartModuleInstanceContext) -> (r: Option<Self>)
        ensures
            r is Some <==> ctx.spec_exports().contains("filter"@),
    {
        if ctx.has_export(&String::from_str("filter")) {
            Some(SmartModuleFilter {})
        } else {
            None
        }
    }

    /// The name of the export this transform invokes.
    pub fn name(&self) -> (r: &'static str)
        ensures
            r@ == "filter"@,
    {
        "filter"
    }

    /// One invocation of the `filter` export on an input batch: write the
    /// batch through the context, issue the guest call, interpret a
    /// negative return code as a status carried in the output batch's
    /// error slot, and on a non-negative code read the output batch from
    /// wherever the output callback slot points.
    pub fn process(
        &self,
        input: &SmartModuleInput,
        ctx: &mut SmartModuleInstanceContext,
        call: &GuestCall,
        engine: &mut SmartEngine,
    ) -> (r: Result<SmartModuleOutput, EngineError>)
        requires
            old(ctx).wf(),
            call.wf(),
        ensures
            final(ctx).exports == old(ctx).exports,
            final(ctx).params == old(ctx).params,
            final(ctx).version == old(ctx).version,
            final(ctx).records_cb@ == spec_stage_final_slot(old(ctx).version, input@, call@),
            final(ctx).wf(),
            match r {
                Ok(o) => spec_stage_process(old(ctx).version, input@, call@) == Ok::<
                    crate::records::OutputView,
                    EngineError,
                >(o@),
                Err(e) => spec_stage_process(old(ctx).version, input@, call@) == Err::<
                    crate::records::OutputView,
                    EngineError,
                >(e),
            },
            spec_stage_invoked(old(ctx).version, input@, call@) <==> !(r matches Err(e) && (
            e is Allocation || e is MemoryWrite || e is Encode)),
            final(engine).guest_calls as int == if spec_stage_invoked(
                old(ctx).version,
                input@,
                call@,
            ) {
                sat_add_u64(old(engine).guest_calls as int, 1)
            } else {
                old(engine).guest_calls as int
            },
    {
        // The calling triple is what the export receives; the call itself is
        // outside work, reported back in `call`.
        let _slice = match ctx.write_input(input, &call.marshal) {
            Ok(s) => s,
            Err(e) => {
                return Err(e);
            },
        };
        engine.note_guest_call();
        match &call.announce {
            AnnounceOutcome::Announced(m) => {
                let copy = m.duplicate();
                ctx.records_cb.set(copy);
            },
            AnnounceOutcome::NotCalled => {},
        }
        if call.code < 0 {
            let status = transform_status_from_code(call.code);
            let successes: Vec<crate::records::Record> = Vec::new();
            proof {
                assert(crate::records::records_view(successes@) =~= Seq::<
                    crate::records::RecordView,
                >::empty());
            }
            Ok(
                SmartModuleOutput {
                    base_offset: input.base_offset(),
                    successes,
                    error: Some(SmartModuleTransformError::Status(status)),
                },
            )
        } else {
            ctx.read_output(input.base_offset())
        }
    }
}

} // verus!
