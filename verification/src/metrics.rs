//! Per-chain metrics: input bytes are recorded once at chain entry, output
//! records once at chain exit, and every guest entry-point invocation is
//! counted. All counters saturate instead of wrapping.

use vstd::prelude::*;

verus! {

/// Saturating addition on the counter domain.
pub open spec fn sat_add_u64(a: int, b: int) -> int {
    if a + b > u64::MAX {
        u64::MAX as int
    } else {
        a + b
    }
}

/// Saturating addition of two counters.
pub fn sat_add(a: u64, b: u64) -> (r: u64)
    ensures
        r as int == sat_add_u64(a as int, b as int),
{
    if b > u64::MAX - a {
        u64::MAX
    } else {
        a + b
    }
}

/// Counters of one chain instance.
#[derive(Clone, Copy, Debug, PartialEq, Eq, Structural)]
pub struct SmartModuleChainMetrics {
    pub bytes_in: u64,
    pub records_out: u64,
    pub invocation_count: u64,
}

impl Default for SmartModuleChainMetrics {
    fn default() -> (r: Self)
        ensures
            r.bytes_in == 0,
            r.records_out == 0,
            r.invocation_count == 0,
    {
        SmartModuleChainMetrics { bytes_in: 0, records_out: 0, invocation_count: 0 }
    }
}

impl SmartModuleChainMetrics {
    /// Records bytes entering the chain.
    pub fn add_bytes_in(&mut self, value: u64)
        ensures
            *final(self) == (SmartModuleChainMetrics {
                bytes_in: sat_add_u64(old(self).bytes_in as int, value as int) as u64,
                ..*old(self)
            }),
    {
        if value > u64::MAX - self.bytes_in {
            self.bytes_in = u64::MAX;
        } else {
            self.bytes_in = self.bytes_in + value;
        }
    }

    /// Records records leaving the chain.
    pub fn add_records_out(&mut self, value: u64)
        ensures
            *final(self) == (SmartModuleChainMetrics {
                records_out: sat_add_u64(old(self).records_out as int, value as int) as u64,
                ..*old(self)
            }),
    {
        if value > u64::MAX - self.records_out {
            self.records_out = u64::MAX;
        } else {
            self.records_out = self.records_out + value;
        }
    }

    /// Records one batch entering the chain.
    pub fn add_invocation(&mut self)
        ensures
            *final(self) == (SmartModuleChainMetrics {
                invocation_count: sat_add_u64(old(self).invocation_count as int, 1) as u64,
                ..*old(self)
            }),
    {
        if self.invocation_count < u64::MAX {
            self.invocation_count = self.invocation_count + 1;
        }
    }
}

} // verus!
