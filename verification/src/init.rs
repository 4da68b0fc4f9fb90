//! The one-shot init handshake.
//!
//! A guest may export an `init` function. If it does, the chain builder
//! invokes it exactly once, at chain-build time, with the configured
//! parameter mapping; a negative return code fails chain construction
//! with the decoded init status. A guest exporting no `init` function is
//! initialized without any call being made.

use vstd::prelude::*;
use crate::engine::SmartEngine;
use crate::error::EngineError;
use crate::error::init_status_from_code;
use crate::error::init_status_of_code;
use crate::guest::AnnounceOutcome;
use crate::guest::GuestCall;
use crate::guest::GuestCallView;
use crate::instance::SmartModuleInstanceContext;
use crate::instance::spec_slot_after;
use crate::instance::spec_write_init;
use crate::memory::RecordsMemoryView;
use crate::metrics::sat_add_u64;

verus! {

/// What the one-shot init call yields: a write-path error, the decoded
/// init status of a negative return code, or success.
pub open spec fn spec_init_process(
    version: i16,
    params: Seq<(Seq<char>, Seq<char>)>,
    call: GuestCallView,
) -> Result<(), EngineError> {
    match spec_write_init(version, params, call.marshal) {
        Err(e) => Err(e),
        Ok(_triple) => if call.code < 0 {
            Err(EngineError::Init(init_status_of_code(call.code)))
        } else {
            Ok(())
        },
    }
}

/// Whether the init call actually reached the guest export.
pub open spec fn spec_init_invoked(
    version: i16,
    params: Seq<(Seq<char>, Seq<char>)>,
    call: GuestCallView,
) -> bool {
    spec_write_init(version, params, call.marshal) is Ok
}

/// The slot content the init call leaves behind.
pub open spec fn spec_init_final_slot(
    version: i16,
    params: Seq<(Seq<char>, Seq<char>)>,
    call: GuestCallView,
) -> Option<RecordsMemoryView> {
    if spec_init_invoked(version, params, call) {
        spec_slot_after(call)
    } else {
        Option::None
    }
}

/// Handle to a guest's `init` entry point.
#[derive(Clone, Copy, Debug, PartialEq, Eq, Structural)]
pub struct SmartModuleInit {}

impl SmartModuleInit {
    /// Probes the instantiated guest for an `init` export; absence is not
    /// an error, the handshake is optional.
    pub fn try_instantiate(ctx: &SmartModuleInstanceContext) -> (r: Option<Self>)
        ensures
            r is Some <==> ctx.spec_exports().contains("init"@),
    {
        if ctx.has_export(&String::from_str("init")) {
            Some(SmartModuleInit {})
        } else {
            None
        }
    }

    /// Runs the handshake once: writes the configured parameter mapping
    /// through the context, issues the guest call, and decodes a negative
    /// return code to its init status.
    pub fn initialize(
        &self,
        ctx: &mut SmartModuleInstanceContext,
        call: &GuestCall,
        engine: &mut SmartEngine,
    ) -> (r: Result<(), EngineError>)
        requires
            old(ctx).wf(),
            call.wf(),
        ensures
            final(ctx).exports == old(ctx).exports,
            final(ctx).params == old(ctx).params,
            final(ctx).version == old(ctx).version,
            final(ctx).records_cb@ == spec_init_final_slot(old(ctx).version, old(ctx).params@, call@),
            final(ctx).wf(),
            match r {
                Ok(u) => spec_init_process(old(ctx).version, old(ctx).params@, call@) == Ok::<
                    (),
                    EngineError,
                >(u),
                Err(e) => spec_init_process(old(ctx).version, old(ctx).params@, call@) == Err::<
                    (),
                    EngineError,
                >(e),
            },
            final(engine).guest_calls as int == if spec_init_invoked(
                old(ctx).version,
                old(ctx).params@,
                call@,
            ) {
                sat_add_u64(old(engine).guest_calls as int, 1)
            } else {
                old(engine).guest_calls as int
            },
    {
        let _slice = match ctx.write_init_input(&call.marshal) {
            Ok(s) => s,
            Err(e) => {
                return Err(e);
            },
        };
        engine.note_guest_call();
        match &call.announce {
            AnnounceOutcome::Announced(m) => {
                let copy = m.duplicate();
                ctx.records_cb.set(copy);
            },
            AnnounceOutcome::NotCalled => {},
        }
        if call.code < 0 {
            Err(EngineError::Init(init_status_from_code(call.code)))
        } else {
            Ok(())
        }
    }
}

} // verus!
