//! The engine handle and the chain: building an ordered sequence of stages
//! and driving a batch through them.
//!
//! A chain processes a batch by handing it to its first stage, feeding
//! each stage's successes — under the unchanged base offset — to the next
//! stage, and short-circuiting on the first stage that fails or reports an
//! error. A chain with zero stages is the identity transform.

use vstd::prelude::*;
use crate::config::SmartModuleConfig;
use crate::error::EngineError;
use crate::guest::GuestCall;
use crate::guest::StageGuest;
use crate::guest::StageGuestView;
use crate::init::SmartModuleInit;
use crate::instance::SmartModuleInstanceContext;
use crate::memory::RecordsMemoryView;
use crate::transforms::create_transform;
use crate::guest::GuestCallView;
use crate::guest::guest_calls_view;
use crate::instance::SmartModuleInstance;
use crate::instance::spec_slot_after;
use crate::instance::spec_stage_invoked;
use crate::instance::spec_stage_process;
use crate::metrics::SmartModuleChainMetrics;
use crate::metrics::sat_add_u64;
use crate::records::InputView;
use crate::records::OutputView;
use crate::records::SmartModuleInput;
use crate::records::SmartModuleOutput;
use crate::records::spec_payload_size;

verus! {

/// The process-wide handle to the sandbox execution facility. Every call
/// that executes guest code takes it by exclusive borrow: no two guest
/// calls can be in flight through the same engine. It counts the guest
/// entry-point invocations issued through it.
#[derive(Debug)]
pub struct SmartEngine {
    pub guest_calls: u64,
}

impl SmartEngine {
    /// A fresh engine with no calls issued.
    pub fn new() -> (r: Self)
        ensures
            r.guest_calls == 0,
    {
        SmartEngine { guest_calls: 0 }
    }

    /// Records one guest entry-point invocation.
    pub fn note_guest_call(&mut self)
        ensures
            final(self).guest_calls as int == sat_add_u64(old(self).guest_calls as int, 1),
    {
        if self.guest_calls < u64::MAX {
            self.guest_calls = self.guest_calls + 1;
        }
    }
}

/// The wire versions of a sequence of stages, in order.
pub open spec fn chain_versions(instances: Seq<SmartModuleInstance>) -> Seq<i16> {
    instances.map_values(|inst: SmartModuleInstance| inst.ctx.version)
}

/// The trace of driving one batch through a chain: the chain's result,
/// how many stages were consumed — reached at all — and how many of those
/// actually had their guest entry point invoked. The invoked stages are a
/// prefix of the consumed ones; only the last consumed stage can have
/// failed before its guest was reached.
pub struct ChainTrace {
    pub result: Result<OutputView, EngineError>,
    pub consumed: int,
    pub invoked: int,
}

/// Sequential composition of stages with short-circuit-on-error: a chain
/// with zero stages is the identity transform; otherwise the first stage
/// runs on the input, and unless it fails, reports an error, or is the
/// last, its successes — under the unchanged base offset — become the next
/// stage's input.
pub open spec fn spec_chain_process(
    versions: Seq<i16>,
    input: InputView,
    calls: Seq<GuestCallView>,
) -> ChainTrace
    decreases versions.len(),
{
    if versions.len() == 0 {
        ChainTrace {
            result: Ok(
                OutputView {
                    base_offset: input.base_offset,
                    successes: input.records,
                    error: Option::None,
                },
            ),
            consumed: 0,
            invoked: 0,
        }
    } else {
        let inv: int = if spec_stage_invoked(versions[0], input, calls[0]) {
            1
        } else {
            0
        };
        match spec_stage_process(versions[0], input, calls[0]) {
            Err(e) => ChainTrace { result: Err(e), consumed: 1, invoked: inv },
            Ok(out) => if versions.len() == 1 || out.error is Some {
                ChainTrace { result: Ok(out), consumed: 1, invoked: inv }
            } else {
                let rest = spec_chain_process(
                    versions.skip(1),
                    InputView { base_offset: input.base_offset, records: out.successes },
                    calls.skip(1),
                );
                ChainTrace {
                    result: rest.result,
                    consumed: 1 + rest.consumed,
                    invoked: inv + rest.invoked,
                }
            },
        }
    }
}

/// The record count the chain reports at its exit: the final output's
/// successes, counted only when every stage of a non-empty chain was
/// consumed and the final stage succeeded — an output batch whose error
/// is set is a failed partial result and is not counted.
pub open spec fn spec_records_out(n: int, t: ChainTrace) -> Option<int> {
    if n > 0 && t.consumed == n {
        match t.result {
            Ok(out) => if out.error is None {
                Option::Some(out.successes.len() as int)
            } else {
                Option::None
            },
            Err(_) => Option::None,
        }
    } else {
        Option::None
    }
}

/// An executable chain: the ordered stages a batch flows through.
#[derive(Debug)]
pub struct SmartModuleChainInstance {
    pub instances: Vec<SmartModuleInstance>,
}

impl SmartModuleChainInstance {
    pub open spec fn wf(&self) -> bool {
        forall|j: int| 0 <= j < self.instances@.len() ==> #[trigger] self.instances@[j].wf()
    }

    /// The chain's stages, in declaration order.
    pub fn instances(&self) -> (r: &Vec<SmartModuleInstance>)
        ensures
            r == &self.instances,
    {
        &self.instances
    }

    /// Drives one batch through all stages in order. For every stage but
    /// the last, on success the stage's output becomes the next stage's
    /// input, the base offset carried forward unchanged; a stage that
    /// reports an error ends processing with the partial output, and later
    /// stages are never invoked. The last stage's output is the chain's
    /// result. Metrics record the batch's payload once at entry and the
    /// output record count once at exit, only when the final stage
    /// succeeded.
    ///
    /// `calls` reports, for each stage, what its guest did when invoked;
    /// stages the chain never reaches consume no entry of it.
    pub fn process(
        &mut self,
        input: SmartModuleInput,
        calls: &Vec<GuestCall>,
        metric: &mut SmartModuleChainMetrics,
        engine: &mut SmartEngine,
    ) -> (r: Result<SmartModuleOutput, EngineError>)
        requires
            old(self).wf(),
            calls@.len() == old(self).instances@.len(),
            forall|j: int| 0 <= j < calls@.len() ==> #[trigger] calls@[j].wf(),
        ensures
            ({
                let t = spec_chain_process(
                    chain_versions(old(self).instances@),
                    input@,
                    guest_calls_view(calls@),
                );
                let n = old(self).instances@.len() as int;
                &&& match r {
                    Ok(o) => t.result == Ok::<OutputView, EngineError>(o@),
                    Err(e) => t.result == Err::<OutputView, EngineError>(e),
                }
                &&& final(self).instances@.len() == n
                &&& forall|j: int|
                    0 <= j < n ==> {
                        let oj = old(self).instances@[j];
                        let cj = #[trigger] final(self).instances@[j];
                        &&& cj.ctx.exports == oj.ctx.exports
                        &&& cj.ctx.params == oj.ctx.params
                        &&& cj.ctx.version == oj.ctx.version
                        &&& cj.init == oj.init
                        &&& cj.transform == oj.transform
                    }
                &&& forall|j: int|
                    0 <= j < t.invoked ==> #[trigger] final(self).instances@[j].ctx.records_cb@
                        == spec_slot_after(guest_calls_view(calls@)[j])
                &&& forall|j: int|
                    t.invoked <= j < t.consumed ==> (#[trigger] final(self).instances@[j]).ctx.records_cb@ is None
                &&& forall|j: int|
                    t.consumed <= j < n ==> #[trigger] final(self).instances@[j]
                        == old(self).instances@[j]
                &&& forall|j: int|
                    0 <= j < n ==> #[trigger] final(self).instances@[j].calls as int == if j
                        < t.invoked {
                        sat_add_u64(old(self).instances@[j].calls as int, 1)
                    } else {
                        old(self).instances@[j].calls as int
                    }
                &&& final(self).wf()
                &&& final(metric).bytes_in as int == sat_add_u64(
                    old(metric).bytes_in as int,
                    if spec_payload_size(input@.records) > u64::MAX as int {
                        u64::MAX as int
                    } else {
                        spec_payload_size(input@.records)
                    },
                )
                &&& final(metric).invocation_count as int == sat_add_u64(
                    old(metric).invocation_count as int,
                    1,
                )
                &&& final(metric).records_out as int == match spec_records_out(n, t) {
                    Option::Some(k) => sat_add_u64(old(metric).records_out as int, k),
                    Option::None => old(metric).records_out as int,
                }
                &&& final(engine).guest_calls as int == sat_add_u64(
                    old(engine).guest_calls as int,
                    t.invoked,
                )
            }),
    {
        let ghost vers = chain_versions(self.instances@);
        let ghost cviews = guest_calls_view(calls@);
        let ghost inp0 = input@;
        let ghost t = spec_chain_process(vers, inp0, cviews);

        metric.add_invocation();
        let payload: u64 = crate::records::compute_payload(&input.records);
        metric.add_bytes_in(payload);

        let base_offset: i64 = input.base_offset();
        let n: usize = self.instances.len();
        if n == 0 {
            let out = SmartModuleOutput::new(base_offset, input.records);
            return Ok(out);
        }

        let mut next_input = input;
        let mut i: usize = 0;
        proof {
            assert(vers.skip(0) =~= vers);
            assert(cviews.skip(0) =~= cviews);
        }
        loop
            invariant
                0 <= i < n,
                n == self.instances@.len(),
                n == old(self).instances@.len(),
                n == calls@.len(),
                n > 0,
                vers == chain_versions(old(self).instances@),
                cviews == guest_calls_view(calls@),
                inp0 == input@,
                t == spec_chain_process(vers, inp0, cviews),
                old(self).wf(),
                forall|j: int| 0 <= j < n ==> #[trigger] calls@[j].wf(),
                base_offset as int == inp0.base_offset,
                next_input@.base_offset == inp0.base_offset,
                metric.bytes_in as int == sat_add_u64(
                    old(metric).bytes_in as int,
                    if spec_payload_size(inp0.records) > u64::MAX as int {
                        u64::MAX as int
                    } else {
                        spec_payload_size(inp0.records)
                    },
                ),
                metric.invocation_count as int == sat_add_u64(
                    old(metric).invocation_count as int,
                    1,
                ),
                metric.records_out == old(metric).records_out,
                ({
                    let rest = spec_chain_process(
                        vers.skip(i as int),
                        next_input@,
                        cviews.skip(i as int),
                    );
                    &&& t.result == rest.result
                    &&& t.consumed == i + rest.consumed
                    &&& t.invoked == i + rest.invoked
                }),
                forall|j: int|
                    i <= j < n ==> #[trigger] self.instances@[j] == old(self).instances@[j],
                forall|j: int|
                    0 <= j < i ==> {
                        let oj = old(self).instances@[j];
                        let cj = #[trigger] self.instances@[j];
                        &&& cj.ctx.exports == oj.ctx.exports
                        &&& cj.ctx.params == oj.ctx.params
                        &&& cj.ctx.version == oj.ctx.version
                        &&& cj.init == oj.init
                        &&& cj.transform == oj.transform
                        &&& cj.ctx.records_cb@ == spec_slot_after(cviews[j])
                        &&& cj.calls as int == sat_add_u64(oj.calls as int, 1)
                        &&& cj.wf()
                    },
                engine.guest_calls as int == sat_add_u64(old(engine).guest_calls as int, i as int),
            decreases n - i,
        {
            let ghost cur = next_input@;
            proof {
                assert(vers.skip(i as int)[0] == vers[i as int]);
                assert(cviews.skip(i as int)[0] == cviews[i as int]);
                assert(vers[i as int] == old(self).instances@[i as int].ctx.version);
                assert(cviews[i as int] == calls@[i as int]@);
            }
            let inst = &mut self.instances[i];
            let step = inst.process(&next_input, &calls[i], engine);
            let ghost rest = spec_chain_process(
                vers.skip(i as int),
                cur,
                cviews.skip(i as int),
            );
            let ghost version_i = vers[i as int];
            let ghost inv_i: int = if spec_stage_invoked(version_i, cur, cviews[i as int]) {
                1
            } else {
                0
            };
            proof {
                assert(sat_add_u64(
                    sat_add_u64(old(engine).guest_calls as int, i as int),
                    1,
                ) == sat_add_u64(old(engine).guest_calls as int, i as int + 1));
            }
            match step {
                Err(e) => {
                    proof {
                        assert(rest.result == Err::<OutputView, EngineError>(e));
                        assert(rest.consumed == 1 && rest.invoked == inv_i);
                        assert(t.consumed == i + 1 && t.invoked == i + inv_i);
                    }
                    return Err(e);
                },
                Ok(out) => {
                    if i == n - 1 {
                        proof {
                            assert(vers.skip(i as int).len() == 1);
                            assert(rest.result == Ok::<OutputView, EngineError>(out@));
                            assert(rest.consumed == 1 && rest.invoked == inv_i);
                            assert(t.consumed == n as int && t.invoked == i + inv_i);
                            assert(out@.successes.len() == out.successes@.len());
                        }
                        if out.error.is_none() {
                            metric.add_records_out(out.successes.len() as u64);
                        }
                        return Ok(out);
                    } else if out.error.is_some() {
                        proof {
                            assert(rest.result == Ok::<OutputView, EngineError>(out@));
                            assert(rest.consumed == 1 && rest.invoked == inv_i);
                            assert(t.consumed == i + 1 && t.invoked == i + inv_i);
                        }
                        return Ok(out);
                    } else {
                        let mut ni = SmartModuleInput::from_records(out.successes);
                        ni.set_base_offset(base_offset);
                        proof {
                            assert(vers.skip(i as int).skip(1) =~= vers.skip(i as int + 1));
                            assert(cviews.skip(i as int).skip(1) =~= cviews.skip(i as int + 1));
                            assert(ni@ == (InputView {
                                base_offset: inp0.base_offset,
                                records: out@.successes,
                            }));
                            let next_rest = spec_chain_process(
                                vers.skip(i as int + 1),
                                ni@,
                                cviews.skip(i as int + 1),
                            );
                            assert(rest.result == next_rest.result);
                            assert(rest.consumed == 1 + next_rest.consumed);
                            assert(rest.invoked == inv_i + next_rest.invoked);
                        }
                        next_input = ni;
                        i += 1;
                    }
                },
            }
        }
    }
}

/// A chain with zero stages is the identity transform: the input batch
/// comes back unchanged as the output, no response is consumed and no
/// guest is invoked.
pub proof fn lemma_empty_chain_identity(input: InputView, calls: Seq<GuestCallView>)
    ensures
        spec_chain_process(Seq::<i16>::empty(), input, calls) == (ChainTrace {
            result: Ok::<OutputView, EngineError>(
                OutputView {
                    base_offset: input.base_offset,
                    successes: input.records,
                    error: Option::None,
                },
            ),
            consumed: 0,
            invoked: 0,
        }),
{
}

/// The base offset is invariant under chaining: whenever a chain of any
/// length produces an output batch, that batch's base offset is the
/// input batch's.
pub proof fn lemma_base_offset_invariant(
    versions: Seq<i16>,
    input: InputView,
    calls: Seq<GuestCallView>,
)
    ensures
        spec_chain_process(versions, input, calls).result matches Ok(out) ==> out.base_offset
            == input.base_offset,
    decreases versions.len(),
{
    if versions.len() > 0 {
        match spec_stage_process(versions[0], input, calls[0]) {
            Err(_e) => {},
            Ok(out) => {
                if !(versions.len() == 1 || out.error is Some) {
                    lemma_base_offset_invariant(
                        versions.skip(1),
                        InputView { base_offset: input.base_offset, records: out.successes },
                        calls.skip(1),
                    );
                }
            },
        }
    }
}

/// The input the chain presents to stage `k`, counted from zero: the
/// original batch for the first stage, and for each later stage the
/// previous stage's successes under the original base offset.
pub open spec fn spec_chain_input(
    versions: Seq<i16>,
    input: InputView,
    calls: Seq<GuestCallView>,
    k: int,
) -> InputView
    decreases k,
{
    if k <= 0 {
        input
    } else {
        let prev = spec_chain_input(versions, input, calls, k - 1);
        match spec_stage_process(versions[k - 1], prev, calls[k - 1]) {
            Ok(out) => InputView { base_offset: input.base_offset, records: out.successes },
            Err(_e) => prev,
        }
    }
}

/// The stage inputs of a suffix chain are the stage inputs of the whole
/// chain, shifted by one, once the first stage has succeeded.
proof fn lemma_chain_input_shift(
    versions: Seq<i16>,
    input: InputView,
    calls: Seq<GuestCallView>,
    j: int,
)
    requires
        0 <= j,
        j + 1 < versions.len(),
        versions.len() == calls.len(),
    ensures
        spec_chain_input(
            versions.skip(1),
            spec_chain_input(versions, input, calls, 1),
            calls.skip(1),
            j,
        ) == spec_chain_input(versions, input, calls, j + 1),
    decreases j,
{
    if j > 0 {
        lemma_chain_input_shift(versions, input, calls, j - 1);
        assert(versions.skip(1)[j - 1] == versions[j]);
        assert(calls.skip(1)[j - 1] == calls[j]);
        assert(spec_chain_input(versions, input, calls, 0) == input);
        assert(spec_chain_input(versions, input, calls, 1).base_offset == input.base_offset);
    }
}

/// Short-circuit on error: if every stage before stage `k` (counted from
/// zero) succeeds without reporting an error, and stage `k` reports one,
/// then the chain's output is exactly stage `k`'s output batch — its
/// partial successes and its error — and exactly `k + 1` responses are
/// consumed: the stages after `k` are never reached.
pub proof fn lemma_error_short_circuit(
    versions: Seq<i16>,
    input: InputView,
    calls: Seq<GuestCallView>,
    k: int,
)
    requires
        0 <= k < versions.len(),
        versions.len() == calls.len(),
        forall|j: int|
            0 <= j < k ==> ((#[trigger] spec_stage_process(
                versions[j],
                spec_chain_input(versions, input, calls, j),
                calls[j],
            )) matches Ok(o) && o.error is None),
        (spec_stage_process(
            versions[k],
            spec_chain_input(versions, input, calls, k),
            calls[k],
        ) matches Ok(o) && o.error is Some),
    ensures
        spec_chain_process(versions, input, calls).result == Ok::<OutputView, EngineError>(
            spec_stage_process(
                versions[k],
                spec_chain_input(versions, input, calls, k),
                calls[k],
            )->Ok_0,
        ),
        spec_chain_process(versions, input, calls).consumed == k + 1,
    decreases k,
{
    if k == 0 {
        assert(spec_chain_input(versions, input, calls, 0) == input);
    } else {
        let out0 = spec_stage_process(versions[0], input, calls[0])->Ok_0;
        let input1 = InputView { base_offset: input.base_offset, records: out0.successes };
        assert(spec_stage_process(versions[0], spec_chain_input(versions, input, calls, 0), calls[0])
            matches Ok(o) && o.error is None);
        assert(spec_chain_input(versions, input, calls, 1) == input1);
        assert forall|j: int| 0 <= j < k - 1 implies ((#[trigger] spec_stage_process(
            versions.skip(1)[j],
            spec_chain_input(versions.skip(1), input1, calls.skip(1), j),
            calls.skip(1)[j],
        )) matches Ok(o) && o.error is None) by {
            lemma_chain_input_shift(versions, input, calls, j);
            assert(versions.skip(1)[j] == versions[j + 1]);
            assert(calls.skip(1)[j] == calls[j + 1]);
            assert(spec_stage_process(
                versions[j + 1],
                spec_chain_input(versions, input, calls, j + 1),
                calls[j + 1],
            ) matches Ok(o) && o.error is None);
        }
        lemma_chain_input_shift(versions, input, calls, k - 1);
        assert(versions.skip(1)[k - 1] == versions[k]);
        assert(calls.skip(1)[k - 1] == calls[k]);
        lemma_error_short_circuit(versions.skip(1), input1, calls.skip(1), k - 1);
    }
}

/// What one configured stage contributes to chain construction, as
/// specifications see it: its resolved parameter mapping and wire version.
pub struct StageConfigView {
    pub params: Seq<(Seq<char>, Seq<char>)>,
    pub version: i16,
}

/// The per-stage configuration views of the builder's pending list.
pub open spec fn chain_configs(pairs: Seq<(SmartModuleConfig, Vec<u8>)>) -> Seq<StageConfigView> {
    pairs.map_values(
        |p: (SmartModuleConfig, Vec<u8>)| StageConfigView {
            params: p.0.params@,
            version: p.0.spec_version(),
        },
    )
}

/// Mathematical image of one built stage.
pub struct InstanceView {
    pub exports: Seq<Seq<char>>,
    pub slot: Option<RecordsMemoryView>,
    pub params: Seq<(Seq<char>, Seq<char>)>,
    pub version: i16,
    pub has_init: bool,
    pub calls: int,
}

/// The view of a built stage.
pub open spec fn instance_view(inst: SmartModuleInstance) -> InstanceView {
    InstanceView {
        exports: inst.ctx.spec_exports(),
        slot: inst.ctx.records_cb@,
        params: inst.ctx.params@,
        version: inst.ctx.version,
        has_init: inst.init is Some,
        calls: inst.calls as int,
    }
}

/// The views of a sequence of built stages.
pub open spec fn instance_views(instances: Seq<SmartModuleInstance>) -> Seq<InstanceView> {
    instances.map_values(|inst: SmartModuleInstance| instance_view(inst))
}

/// Building one stage: instantiation must have produced export names, a
/// recognized transform entry point must be among them, and when an
/// `init` export is present its one-shot handshake must succeed. The
/// built stage starts with the slot the init call left — empty when no
/// init ran — and a transform that has never been invoked.
pub open spec fn spec_build_stage(cfg: StageConfigView, guest: StageGuestView) -> Result<
    InstanceView,
    EngineError,
> {
    match guest.exports {
        Option::None => Err(EngineError::Instantiation),
        Option::Some(exps) => if !exps.contains("filter"@) {
            Err(EngineError::UnknownSmartModule)
        } else {
            let has_init = exps.contains("init"@);
            match crate::instance::spec_instance_init(has_init, cfg.version, cfg.params, guest.init) {
                Err(e) => Err(e),
                Ok(_u) => Ok(
                    InstanceView {
                        exports: exps,
                        slot: crate::instance::spec_instance_init_slot(
                            has_init,
                            cfg.version,
                            cfg.params,
                            guest.init,
                            Option::None,
                        ),
                        params: cfg.params,
                        version: cfg.version,
                        has_init,
                        calls: 0,
                    },
                ),
            }
        },
    }
}

/// Whether building a stage issues an init call that reaches the guest.
pub open spec fn spec_build_stage_init_calls(cfg: StageConfigView, guest: StageGuestView) -> int {
    match guest.exports {
        Option::None => 0,
        Option::Some(exps) => if exps.contains("filter"@) && crate::instance::spec_instance_init_invoked(
            exps.contains("init"@),
            cfg.version,
            cfg.params,
            guest.init,
        ) {
            1
        } else {
            0
        },
    }
}

/// The trace of chain construction: the built stages, or the first
/// stage's failure — no partial chain is ever produced — and how many
/// init calls reached a guest.
pub struct BuildTrace {
    pub result: Result<Seq<InstanceView>, EngineError>,
    pub init_calls: int,
}

/// Fail-fast sequential construction: stages are built in declaration
/// order, and the first failure aborts the whole build.
pub open spec fn spec_chain_build(cfgs: Seq<StageConfigView>, guests: Seq<StageGuestView>) -> BuildTrace
    decreases cfgs.len(),
{
    if cfgs.len() == 0 {
        BuildTrace { result: Ok(Seq::empty()), init_calls: 0 }
    } else {
        let inv = spec_build_stage_init_calls(cfgs[0], guests[0]);
        match spec_build_stage(cfgs[0], guests[0]) {
            Err(e) => BuildTrace { result: Err(e), init_calls: inv },
            Ok(iv) => {
                let rest = spec_chain_build(cfgs.skip(1), guests.skip(1));
                match rest.result {
                    Err(e) => BuildTrace { result: Err(e), init_calls: inv + rest.init_calls },
                    Ok(ivs) => BuildTrace {
                        result: Ok(seq![iv] + ivs),
                        init_calls: inv + rest.init_calls,
                    },
                }
            },
        }
    }
}

/// The ordered list of (configuration, bytecode) pairs a chain is built
/// from; write-only until [`SmartModuleChainBuilder::initialize`]
/// consumes it.
#[derive(Debug)]
pub struct SmartModuleChainBuilder {
    pub smart_module: Vec<(SmartModuleConfig, Vec<u8>)>,
}

impl Default for SmartModuleChainBuilder {
    fn default() -> (r: Self)
        ensures
            r.smart_module@.len() == 0,
    {
        SmartModuleChainBuilder { smart_module: Vec::new() }
    }
}

impl SmartModuleChainBuilder {
    pub open spec fn wf(&self) -> bool {
        forall|j: int|
            0 <= j < self.smart_module@.len() ==> (#[trigger] self.smart_module@[j]).0.wf()
    }

    /// A builder holding one (configuration, bytecode) pair.
    pub fn from_pair(config: SmartModuleConfig, bytes: Vec<u8>) -> (r: Self)
        ensures
            r.smart_module@ == Seq::<(SmartModuleConfig, Vec<u8>)>::empty().push((config, bytes)),
    {
        let mut r = SmartModuleChainBuilder { smart_module: Vec::new() };
        r.add_smart_module(config, bytes);
        r
    }

    /// Appends one stage to the pending list; nothing is validated until
    /// the chain is initialized.
    pub fn add_smart_module(&mut self, config: SmartModuleConfig, bytes: Vec<u8>)
        ensures
            final(self).smart_module@ == old(self).smart_module@.push((config, bytes)),
    {
        self.smart_module.push((config, bytes));
    }

    /// Consumes the builder and constructs the chain: for each pending
    /// pair in declaration order, the instantiated guest's exports are
    /// probed for the optional init handshake and the transform, and the
    /// init handshake is run if present. Construction fails fast on the
    /// first stage that fails to instantiate, exposes no recognized
    /// transform, or fails init — no partial chain is returned.
    ///
    /// `guests` reports, for each pending stage, what its guest module
    /// did at build time.
    pub fn initialize(self, guests: &Vec<StageGuest>, engine: &mut SmartEngine) -> (r: Result<
        SmartModuleChainInstance,
        EngineError,
    >)
        requires
            self.wf(),
            guests@.len() == self.smart_module@.len(),
            forall|j: int| 0 <= j < guests@.len() ==> (#[trigger] guests@[j]).wf(),
        ensures
            ({
                let bt = spec_chain_build(
                    chain_configs(self.smart_module@),
                    crate::guest::stage_guests_view(guests@),
                );
                &&& match r {
                    Ok(chain) => {
                        &&& bt.result == Ok::<Seq<InstanceView>, EngineError>(
                            instance_views(chain.instances@),
                        )
                        &&& chain.wf()
                        &&& chain.instances@.len() == self.smart_module@.len()
                    },
                    Err(e) => bt.result == Err::<Seq<InstanceView>, EngineError>(e),
                }
                &&& final(engine).guest_calls as int == sat_add_u64(
                    old(engine).guest_calls as int,
                    bt.init_calls,
                )
            }),
    {
        let ghost pairs0 = self.smart_module@;
        let ghost cfgs = chain_configs(pairs0);
        let ghost gviews = crate::guest::stage_guests_view(guests@);
        let ghost bt = spec_chain_build(cfgs, gviews);

        let n: usize = self.smart_module.len();
        let mut pending = self.smart_module;
        let mut instances: Vec<SmartModuleInstance> = Vec::new();
        let mut i: usize = 0;
        let ghost mut done: int = 0;
        proof {
            assert(cfgs.skip(0) =~= cfgs);
            assert(gviews.skip(0) =~= gviews);
            assert(pairs0.skip(0) =~= pairs0);
            assert(instance_views(instances@) =~= Seq::<InstanceView>::empty());
        }
        while i < n
            invariant
                0 <= i <= n,
                n == pairs0.len(),
                n == guests@.len(),
                pairs0 == self.smart_module@,
                cfgs == chain_configs(pairs0),
                gviews == crate::guest::stage_guests_view(guests@),
                bt == spec_chain_build(cfgs, gviews),
                forall|j: int| 0 <= j < n ==> (#[trigger] pairs0[j]).0.wf(),
                forall|j: int| 0 <= j < n ==> (#[trigger] guests@[j]).wf(),
                pending@ == pairs0.skip(i as int),
                instances@.len() == i,
                forall|j: int| 0 <= j < i ==> (#[trigger] instances@[j]).wf(),
                forall|j: int| 0 <= j < i ==> (#[trigger] instances@[j]).calls == 0,
                ({
                    let rest = spec_chain_build(cfgs.skip(i as int), gviews.skip(i as int));
                    &&& bt.result == match rest.result {
                        Ok(ivs) => Ok::<Seq<InstanceView>, EngineError>(
                            instance_views(instances@) + ivs,
                        ),
                        Err(e) => Err::<Seq<InstanceView>, EngineError>(e),
                    }
                    &&& bt.init_calls == done + rest.init_calls
                }),
                done >= 0,
                engine.guest_calls as int == sat_add_u64(old(engine).guest_calls as int, done),
            decreases n - i,
        {
            proof {
                assert(cfgs.skip(i as int)[0] == cfgs[i as int]);
                assert(gviews.skip(i as int)[0] == gviews[i as int]);
                assert(pairs0.skip(i as int)[0] == pairs0[i as int]);
                assert(cfgs[i as int] == (StageConfigView {
                    params: pairs0[i as int].0.params@,
                    version: pairs0[i as int].0.spec_version(),
                }));
                assert(gviews[i as int] == guests@[i as int]@);
            }
            let pair = pending.remove(0);
            proof {
                assert(pending@ =~= pairs0.skip(i as int + 1));
            }
            let config = pair.0;
            let version: i16 = config.version();
            let exports: Vec<String> = match &guests[i].exports {
                Some(e) => crate::guest::clone_strings(e),
                None => {
                    proof {
                        let rest = spec_chain_build(cfgs.skip(i as int), gviews.skip(i as int));
                        assert(gviews[i as int].exports is None);
                        assert(spec_build_stage(cfgs[i as int], gviews[i as int]) == Err::<
                            InstanceView,
                            EngineError,
                        >(EngineError::Instantiation));
                        assert(rest.result == Err::<Seq<InstanceView>, EngineError>(
                            EngineError::Instantiation,
                        ));
                        assert(rest.init_calls == 0);
                    }
                    return Err(EngineError::Instantiation);
                },
            };
            let ctx = SmartModuleInstanceContext::instantiate(exports, config.params, version);
            let init = SmartModuleInit::try_instantiate(&ctx);
            let transform = match create_transform(&ctx, config.initial_data) {
                Ok(t) => t,
                Err(e) => {
                    proof {
                        let rest = spec_chain_build(cfgs.skip(i as int), gviews.skip(i as int));
                        let exps = gviews[i as int].exports->0;
                        assert(ctx.spec_exports() =~= exps);
                        assert(!exps.contains("filter"@));
                        assert(spec_build_stage(cfgs[i as int], gviews[i as int]) == Err::<
                            InstanceView,
                            EngineError,
                        >(EngineError::UnknownSmartModule));
                        assert(rest.result == Err::<Seq<InstanceView>, EngineError>(
                            EngineError::UnknownSmartModule,
                        ));
                        assert(rest.init_calls == 0);
                    }
                    return Err(e);
                },
            };
            let mut instance = crate::instance::SmartModuleInstance::new(ctx, init, transform);
            let ghost inv_i = spec_build_stage_init_calls(cfgs[i as int], gviews[i as int]);
            proof {
                assert(sat_add_u64(
                    sat_add_u64(old(engine).guest_calls as int, done),
                    1,
                ) == sat_add_u64(old(engine).guest_calls as int, done + 1));
            }
            match instance.init(&guests[i].init, engine) {
                Ok(_u) => {},
                Err(e) => {
                    proof {
                        done = done + inv_i;
                    }
                    return Err(e);
                },
            }
            let ghost insts_before = instances@;
            instances.push(instance);
            proof {
                done = done + inv_i;
                assert(cfgs.skip(i as int).skip(1) =~= cfgs.skip(i as int + 1));
                assert(gviews.skip(i as int).skip(1) =~= gviews.skip(i as int + 1));
                assert(instances@ == insts_before.push(instance));
                let iv = instance_view(instance);
                let rest_next = spec_chain_build(cfgs.skip(i as int + 1), gviews.skip(i as int + 1));
                match rest_next.result {
                    Ok(ivs) => {
                        assert(instance_views(instances@) + ivs =~= instance_views(insts_before)
                            + (seq![iv] + ivs));
                    },
                    Err(_e) => {},
                }
            }
            i += 1;
        }
        proof {
            assert(cfgs.skip(n as int).len() == 0);
            assert(instance_views(instances@) + Seq::<InstanceView>::empty() =~= instance_views(
                instances@,
            ));
        }
        Ok(SmartModuleChainInstance { instances })
    }
}

} // verus!
