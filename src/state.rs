use vstd::prelude::*;
use crate::history::{HistoryBuffer, pushed, uniform};
use crate::metrics::{lemma_memory_share_bounded, memory_percent, memory_share};

verus! {

/// How many samples each series keeps.
pub const HISTORY_LEN: usize = 200;

/// The value every entry holds before the first sample, so that the first
/// frame shows full-scale charts rather than empty ones.
pub const SEED_VALUE: u64 = 100;

/// The two series on display: CPU use and memory use, both in percent, each
/// always `HISTORY_LEN` entries long.
pub struct App {
    cpu: HistoryBuffer,
    memory: HistoryBuffer,
}

impl App {
    #[verifier::type_invariant]
    spec fn full_length(&self) -> bool {
        self.cpu@.len() == HISTORY_LEN && self.memory@.len() == HISTORY_LEN
    }

    /// The CPU series, most recent first.
    pub closed spec fn cpu_series(&self) -> Seq<u64> {
        self.cpu@
    }

    /// The memory series, most recent first.
    pub closed spec fn memory_series(&self) -> Seq<u64> {
        self.memory@
    }

    /// Both series at full length, every entry holding the seed value.
    pub fn new() -> (r: App)
        ensures
            r.cpu_series() == uniform(HISTORY_LEN as nat, SEED_VALUE),
            r.memory_series() == uniform(HISTORY_LEN as nat, SEED_VALUE),
    {
        App {
            cpu: HistoryBuffer::filled(HISTORY_LEN, SEED_VALUE),
            memory: HistoryBuffer::filled(HISTORY_LEN, SEED_VALUE),
        }
    }

    /// The CPU series.
    pub fn cpu(&self) -> (r: &HistoryBuffer)
        ensures
            r@ == self.cpu_series(),
            r@.len() == HISTORY_LEN,
    {
        proof {
            use_type_invariant(self);
        }
        &self.cpu
    }

    /// The memory series.
    pub fn memory(&self) -> (r: &HistoryBuffer)
        ensures
            r@ == self.memory_series(),
            r@.len() == HISTORY_LEN,
    {
        proof {
            use_type_invariant(self);
        }
        &self.memory
    }

    /// Records a CPU use sample, in whole percent.
    pub fn next_cpu(&mut self, usage: u64)
        ensures
            final(self).cpu_series() == pushed(old(self).cpu_series(), usage),
            final(self).cpu_series().len() == HISTORY_LEN,
            final(self).cpu_series()[0] == usage,
            final(self).memory_series() == old(self).memory_series(),
    {
        proof {
            use_type_invariant(&*self);
        }
        self.cpu.push(usage);
    }

    /// Records a memory sample, given bytes in use and bytes in all. With no
    /// more in use than in all the new entry lies within 0 and 100, and it is
    /// 100 when all of at least one whole megabyte is in use.
    pub fn next_memory(&mut self, used_bytes: u64, total_bytes: u64)
        ensures
            final(self).memory_series() == pushed(
                old(self).memory_series(),
                memory_share(used_bytes as nat, total_bytes as nat) as u64,
            ),
            final(self).memory_series().len() == HISTORY_LEN,
            final(self).memory_series()[0] == memory_share(used_bytes as nat, total_bytes as nat),
            used_bytes <= total_bytes ==> final(self).memory_series()[0] <= 100,
            used_bytes == total_bytes && total_bytes >= 1024 * 1024
                ==> final(self).memory_series()[0] == 100,
            final(self).cpu_series() == old(self).cpu_series(),
    {
        proof {
            use_type_invariant(&*self);
            if used_bytes <= total_bytes {
                lemma_memory_share_bounded(used_bytes as nat, total_bytes as nat);
            }
        }
        let value = memory_percent(used_bytes, total_bytes);
        self.memory.push(value);
    }
}

} // verus!
