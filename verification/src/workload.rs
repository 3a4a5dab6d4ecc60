//! The rules of the workload that tests the DA layer.

use crate::outside::random_byte;
use vstd::prelude::*;

verus! {

/// When a run ends, and how it is paced.
#[derive(Debug, Clone, Copy, PartialEq, Eq, Structural)]
pub struct RunOptions {
    /// Whether to end after one block.
    pub stop: bool,
    /// Seconds after which no further block is begun.
    pub run_for_secs: u32,
    /// Seconds that a block takes at least, together with the pause after it.
    pub sleep_for_secs: u32,
}

/// What follows a block.
#[derive(Debug, Clone, Copy, PartialEq, Eq, Structural)]
pub enum AfterBlock {
    /// The run ends: it was to end after one block.
    Stop,
    /// The run ends: its time is over.
    TimeOver,
    /// The next block follows after a pause of so many seconds.
    Next {
        pause_secs: u64,
    },
}

impl RunOptions {
    /// What follows a block that took `block_secs` whole seconds, in a run that has gone on for
    /// `run_nanos` nanoseconds.
    pub open spec fn spec_after_block(self, run_nanos: nat, block_secs: nat) -> AfterBlock {
        if self.stop {
            AfterBlock::Stop
        } else if run_nanos > self.run_for_secs * 1_000_000_000 {
            AfterBlock::TimeOver
        } else if self.sleep_for_secs > block_secs {
            AfterBlock::Next { pause_secs: (self.sleep_for_secs - block_secs) as u64 }
        } else {
            AfterBlock::Next { pause_secs: 0 }
        }
    }

    /// What follows a block that took `block_secs` whole seconds, in a run that has gone on for
    /// `run_nanos` nanoseconds.
    pub fn after_block(&self, run_nanos: u128, block_secs: u64) -> (after: AfterBlock)
        ensures
            after == self.spec_after_block(run_nanos as nat, block_secs as nat),
    {
        let sleep_for_secs: u64 = self.sleep_for_secs as u64;
        if self.stop {
            AfterBlock::Stop
        } else if run_nanos > (self.run_for_secs as u128) * 1_000_000_000 {
            AfterBlock::TimeOver
        } else if sleep_for_secs > block_secs {
            AfterBlock::Next { pause_secs: sleep_for_secs - block_secs }
        } else {
            AfterBlock::Next { pause_secs: 0 }
        }
    }
}

/// A block of random bytes.
pub fn random_block(size: usize) -> (data: Vec<u8>)
    ensures
        data@.len() == size,
{
    let mut data: Vec<u8> = Vec::new();
    while data.len() < size
        invariant
            data@.len() <= size,
        decreases size - data@.len(),
    {
        data.push(random_byte());
    }
    data
}

/// Whether byte `i` of the block did not come back as it was.
pub open spec fn differs_at(data: Seq<u8>, retrieved: Seq<u8>, i: int) -> bool {
    i >= retrieved.len() || data[i] != retrieved[i]
}

/// Whether the first `n` bytes of the block came back as they were.
pub open spec fn same_before(data: Seq<u8>, retrieved: Seq<u8>, n: int) -> bool {
    forall|i: int| 0 <= i < n ==> !#[trigger] differs_at(data, retrieved, i)
}

/// The first byte of a block that did not come back as it was. Bytes that came back past the
/// end of the block do not count.
pub fn first_difference(data: &[u8], retrieved: &[u8]) -> (at: Option<usize>)
    ensures
        match at {
            Some(at) => {
                &&& at < data@.len()
                &&& differs_at(data@, retrieved@, at as int)
                &&& same_before(data@, retrieved@, at as int)
            },
            None => same_before(data@, retrieved@, data@.len() as int),
        },
{
    let mut i: usize = 0;
    while i < data.len()
        invariant
            i <= data@.len(),
            same_before(data@, retrieved@, i as int),
        decreases data@.len() - i,
    {
        if i >= retrieved.len() || data[i] != retrieved[i] {
            return Some(i);
        }
        i += 1;
    }
    None
}

/// Nothing differs exactly when what came back begins with the block.
pub proof fn law_no_difference(data: Seq<u8>, retrieved: Seq<u8>)
    ensures
        same_before(data, retrieved, data.len() as int) <==> data.is_prefix_of(retrieved),
{
    if same_before(data, retrieved, data.len() as int) {
        assert(data.len() <= retrieved.len()) by {
            if data.len() > retrieved.len() {
                assert(!differs_at(data, retrieved, retrieved.len() as int));
            }
        }
        assert forall|i: int| 0 <= i < data.len() implies data[i] == retrieved[i] by {
            assert(!differs_at(data, retrieved, i));
        }
        assert(data =~= retrieved.subrange(0, data.len() as int));
    }
    if data.is_prefix_of(retrieved) {
        assert forall|i: int| 0 <= i < data.len() implies !differs_at(data, retrieved, i) by {
            assert(data[i] == retrieved.subrange(0, data.len() as int)[i]);
        }
    }
}

} // verus!
