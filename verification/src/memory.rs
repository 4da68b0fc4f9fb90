//! The output callback slot.
//!
//! Each stage installs one host import; when the guest invokes it, the host
//! stores the announced `(pointer, length)` pair, together with the readable
//! content of that range of the guest's linear memory, into a single-slot,
//! overwrite-on-set register. The slot is cleared immediately before every
//! host-to-guest input write, so a stale announcement from a previous call
//! can never be misread as the current call's output.

use vstd::prelude::*;
use crate::error::EngineError;

verus! {

/// Mathematical image of a [`RecordsMemory`].
pub struct RecordsMemoryView {
    pub ptr: int,
    pub len: int,
    pub region: Option<Seq<u8>>,
}

/// One announced output range: the guest's pointer and length, and the
/// content of that range of guest memory — `None` when the range lies
/// outside the guest's addressable memory, so that reading it fails.
#[derive(Clone, Debug, PartialEq, Eq)]
pub struct RecordsMemory {
    pub ptr: i32,
    pub len: i32,
    pub region: Option<Vec<u8>>,
}

impl View for RecordsMemory {
    type V = RecordsMemoryView;

    open spec fn view(&self) -> RecordsMemoryView {
        RecordsMemoryView {
            ptr: self.ptr as int,
            len: self.len as int,
            region: match self.region {
                Some(b) => Some(b@),
                None => None,
            },
        }
    }
}

impl RecordsMemory {
    /// A readable range holds exactly as many bytes as were announced.
    pub open spec fn wf(&self) -> bool {
        &&& self.len >= 0
        &&& match self@.region {
            Some(b) => b.len() == self@.len,
            None => true,
        }
    }

    /// An announced range over readable memory.
    pub fn new(ptr: i32, len: i32, region: Vec<u8>) -> (r: Self)
        requires
            len >= 0,
            region@.len() == len as int,
        ensures
            r@ == (RecordsMemoryView { ptr: ptr as int, len: len as int, region: Some(region@) }),
            r.wf(),
    {
        RecordsMemory { ptr, len, region: Some(region) }
    }

    /// An announced range that cannot be read back.
    pub fn new_unreadable(ptr: i32, len: i32) -> (r: Self)
        requires
            len >= 0,
        ensures
            r@ == (RecordsMemoryView { ptr: ptr as int, len: len as int, region: None }),
            r.wf(),
    {
        RecordsMemory { ptr, len, region: None }
    }

    /// A copy of this announcement with the same view.
    pub fn duplicate(&self) -> (r: Self)
        ensures
            r@ == self@,
            self.wf() ==> r.wf(),
    {
        let region = match &self.region {
            Some(b) => Some(crate::memory::copy_bytes(b)),
            None => None,
        };
        RecordsMemory { ptr: self.ptr, len: self.len, region }
    }

    /// The bounded read of the announced range: its content, or
    /// [`EngineError::MemoryRead`] when the range is out of bounds.
    pub fn copy_memory_from(&self) -> (r: Result<Vec<u8>, EngineError>)
        ensures
            match self@.region {
                Some(b) => r matches Ok(v) && v@ == b,
                None => r matches Err(e) && e == EngineError::MemoryRead,
            },
    {
        match &self.region {
            Some(b) => Ok(crate::memory::copy_bytes(b)),
            None => Err(EngineError::MemoryRead),
        }
    }
}

/// Byte-for-byte copy of a buffer.
pub fn copy_bytes(v: &Vec<u8>) -> (r: Vec<u8>)
    ensures
        r@ == v@,
{
    let mut r: Vec<u8> = Vec::new();
    let n: usize = v.len();
    let mut i: usize = 0;
    while i < n
        invariant
            n == v.len(),
            0 <= i <= n,
            r@ == v@.take(i as int),
        decreases n - i,
    {
        r.push(v[i]);
        proof {
            assert(r@ =~= v@.take(i + 1));
        }
        i += 1;
    }
    proof {
        assert(r@ =~= v@);
    }
    r
}

/// The single-slot, overwrite-on-set output callback register.
#[derive(Clone, Debug, PartialEq, Eq)]
pub struct RecordsCallBack {
    pub slot: Option<RecordsMemory>,
}

impl View for RecordsCallBack {
    type V = Option<RecordsMemoryView>;

    open spec fn view(&self) -> Option<RecordsMemoryView> {
        match self.slot {
            Some(m) => Some(m@),
            None => None,
        }
    }
}

impl RecordsCallBack {
    /// A slot holds nothing, or one well-formed announcement.
    pub open spec fn wf(&self) -> bool {
        match self.slot {
            Some(m) => m.wf(),
            None => true,
        }
    }

    /// An empty slot.
    pub fn new() -> (r: Self)
        ensures
            r@ is None,
            r.wf(),
    {
        RecordsCallBack { slot: None }
    }

    /// Stores an announcement, unconditionally overwriting any prior value.
    pub fn set(&mut self, records: RecordsMemory)
        requires
            records.wf(),
        ensures
            final(self)@ == Some(records@),
            final(self).wf(),
    {
        self.slot = Some(records);
    }

    /// Empties the slot.
    pub fn clear(&mut self)
        ensures
            final(self)@ is None,
            final(self).wf(),
    {
        self.slot = None;
    }

    /// The current announcement, if any.
    pub fn get(&self) -> (r: &Option<RecordsMemory>)
        ensures
            match r {
                Some(m) => self@ == Some(m@),
                None => self@ is None,
            },
    {
        &self.slot
    }
}

} // verus!
