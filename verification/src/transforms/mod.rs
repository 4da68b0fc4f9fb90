//! Transform discovery and dispatch.
//!
//! A transform is one of a closed set of variants, one per recognized
//! guest export name. Discovery probes the instantiated guest for each
//! known name in a fixed priority order, once, at chain-build time; a
//! configured stage that exposes no recognized entry point is a fatal
//! error.

pub mod filter;

use vstd::prelude::*;
use crate::config::SmartModuleInitialData;
use crate::engine::SmartEngine;
use crate::error::EngineError;
use crate::guest::GuestCall;
use crate::instance::SmartModuleInstanceContext;
use crate::instance::spec_stage_final_slot;
use crate::instance::spec_stage_invoked;
use crate::instance::spec_stage_process;
use crate::metrics::sat_add_u64;
use crate::records::SmartModuleInput;
use crate::records::SmartModuleOutput;
use crate::transforms::filter::SmartModuleFilter;

verus! {

/// The closed set of transform variants.
#[derive(Clone, Copy, Debug, PartialEq, Eq, Structural)]
pub enum SmartModuleTransform {
    Filter(SmartModuleFilter),
}

impl SmartModuleTransform {
    /// The name of the export this transform invokes.
    pub fn name(&self) -> (r: &'static str)
        ensures
            self is Filter ==> r@ == "filter"@,
    {
        match self {
            SmartModuleTransform::Filter(f) => f.name(),
        }
    }

    /// Dispatches one invocation to the variant's entry point. Every
    /// variant honours the same contract, stated over
    /// [`spec_stage_process`].
    pub fn process(
        &self,
        input: &SmartModuleInput,
        ctx: &mut SmartModuleInstanceContext,
        call: &GuestCall,
        engine: &mut SmartEngine,
    ) -> (r: Result<SmartModuleOutput, EngineError>)
        requires
            old(ctx).wf(),
            call.wf(),
        ensures
            final(ctx).exports == old(ctx).exports,
            final(ctx).params == old(ctx).params,
            final(ctx).version == old(ctx).version,
            final(ctx).records_cb@ == spec_stage_final_slot(old(ctx).version, input@, call@),
            final(ctx).wf(),
            match r {
                Ok(o) => spec_stage_process(old(ctx).version, input@, call@) == Ok::<
                    crate::records::OutputView,
                    EngineError,
                >(o@),
                Err(e) => spec_stage_process(old(ctx).version, input@, call@) == Err::<
                    crate::records::OutputView,
                    EngineError,
                >(e),
            },
            spec_stage_invoked(old(ctx).version, input@, call@) <==> !(r matches Err(e) && (
            e is Allocation || e is MemoryWrite || e is Encode)),
            final(engine).guest_calls as int == if spec_stage_invoked(
                old(ctx).version,
                input@,
                call@,
            ) {
                sat_add_u64(old(engine).guest_calls as int, 1)
            } else {
                old(engine).guest_calls as int
            },
    {
        match self {
            SmartModuleTransform::Filter(f) => f.process(input, ctx, call, engine),
        }
    }
}

/// Discovers the transform of an instantiated stage: the known export
/// names are probed in priority order and the first match decides the
/// variant; no match is a fatal [`EngineError::UnknownSmartModule`].
pub fn create_transform(
    ctx: &SmartModuleInstanceContext,
    _initial_data: SmartModuleInitialData,
) -> (r: Result<SmartModuleTransform, EngineError>)
    ensures
        ctx.spec_exports().contains("filter"@) ==> (r matches Ok(t) && t is Filter),
        !ctx.spec_exports().contains("filter"@) ==> (r matches Err(e) && e
            == EngineError::UnknownSmartModule),
{
    match SmartModuleFilter::try_instantiate(ctx) {
        Some(f) => Ok(SmartModuleTransform::Filter(f)),
        None => Err(EngineError::UnknownSmartModule),
    }
}

} // verus!
