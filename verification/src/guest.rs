//! What the host observes of the sandbox at its boundary.
//!
//! Guest execution itself happens outside this library, in the sandbox
//! runtime. Each interaction is reported back as one of the plain-data
//! outcomes here: what happened when the host marshaled the input batch into
//! guest memory, what the invoked export returned, and what the guest
//! announced through the host import. The engine's decisions over these
//! outcomes are verified for every possible value of them.

use vstd::prelude::*;
use crate::memory::RecordsMemory;
use crate::memory::RecordsMemoryView;

verus! {

/// The outcome of marshaling the encoded input batch into guest memory:
/// the guest allocator returned an offset and the write succeeded, or the
/// guest exports no allocator, or the write failed.
#[derive(Clone, Copy, Debug, PartialEq, Eq, Structural)]
pub enum MarshalOutcome {
    Written { ptr: i32 },
    MissingAlloc,
    WriteFailed,
}

/// Mathematical image of an [`AnnounceOutcome`].
pub enum AnnounceOutcomeView {
    NotCalled,
    Announced(RecordsMemoryView),
}

/// What the guest did with the announce import during one invocation:
/// never called it, or called it with a pointer/length pair.
#[derive(Clone, Debug, PartialEq, Eq)]
pub enum AnnounceOutcome {
    NotCalled,
    Announced(RecordsMemory),
}

impl View for AnnounceOutcome {
    type V = AnnounceOutcomeView;

    open spec fn view(&self) -> AnnounceOutcomeView {
        match self {
            AnnounceOutcome::NotCalled => AnnounceOutcomeView::NotCalled,
            AnnounceOutcome::Announced(m) => AnnounceOutcomeView::Announced(m@),
        }
    }
}

impl AnnounceOutcome {
    pub open spec fn wf(&self) -> bool {
        match self {
            AnnounceOutcome::NotCalled => true,
            AnnounceOutcome::Announced(m) => m.wf(),
        }
    }
}

/// Mathematical image of a [`GuestCall`].
pub struct GuestCallView {
    pub marshal: MarshalOutcome,
    pub code: int,
    pub announce: AnnounceOutcomeView,
}

/// One invocation of a guest export, as the host observes it.
#[derive(Clone, Debug, PartialEq, Eq)]
pub struct GuestCall {
    /// What happened when the host wrote the encoded input into guest
    /// memory.
    pub marshal: MarshalOutcome,
    /// The `i32` the export returned.
    pub code: i32,
    /// What the guest announced through the host import while it ran.
    pub announce: AnnounceOutcome,
}

impl View for GuestCall {
    type V = GuestCallView;

    open spec fn view(&self) -> GuestCallView {
        GuestCallView { marshal: self.marshal, code: self.code as int, announce: self.announce@ }
    }
}

impl GuestCall {
    pub open spec fn wf(&self) -> bool {
        self.announce.wf()
    }
}

/// The view of a sequence of guest calls.
pub open spec fn guest_calls_view(calls: Seq<GuestCall>) -> Seq<GuestCallView> {
    calls.map_values(|c: GuestCall| c@)
}

/// Mathematical image of a [`StageGuest`].
pub struct StageGuestView {
    pub exports: Option<Seq<Seq<char>>>,
    pub init: GuestCallView,
}

/// What one configured stage's guest module did at chain-build time:
/// the export names of the instantiated module (`None` when module loading
/// or import linking failed), and, consulted only when an `init` export is
/// present, the outcome of the one-shot init call.
#[derive(Clone, Debug, PartialEq, Eq)]
pub struct StageGuest {
    pub exports: Option<Vec<String>>,
    pub init: GuestCall,
}

impl View for StageGuest {
    type V = StageGuestView;

    open spec fn view(&self) -> StageGuestView {
        StageGuestView {
            exports: match &self.exports {
                Some(names) => Some(names@.map_values(|s: String| s@)),
                None => None,
            },
            init: self.init@,
        }
    }
}

impl StageGuest {
    pub open spec fn wf(&self) -> bool {
        self.init.wf()
    }
}

/// The view of a sequence of stage guests.
pub open spec fn stage_guests_view(guests: Seq<StageGuest>) -> Seq<StageGuestView> {
    guests.map_values(|g: StageGuest| g@)
}

/// An element-by-element copy of a list of export names.
pub fn clone_strings(v: &Vec<String>) -> (r: Vec<String>)
    ensures
        r@ == v@,
{
    let mut r: Vec<String> = Vec::new();
    let n: usize = v.len();
    let mut i: usize = 0;
    while i < n
        invariant
            n == v.len(),
            0 <= i <= n,
            r@ == v@.take(i as int),
        decreases n - i,
    {
        r.push(v[i].clone());
        proof {
            assert(r@ =~= v@.take(i + 1));
        }
        i += 1;
    }
    proof {
        assert(r@ =~= v@);
    }
    r
}

} // verus!
