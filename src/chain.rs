//! The ledger: a non-empty sequence of blocks, each linked to its predecessor
//! by digest, grown only at its end.

use vstd::prelude::*;

use crate::block::{first_solution_from, no_solution_in, Block, DIFFICULTY};

verus! {

/// Why a block could not be appended.
#[derive(Debug, Clone, Copy, PartialEq, Eq, Structural)]
pub enum AppendError {
    /// The last block already carries the largest index.
    IndexOverflow,
    /// No nonce gives the new block a digest that meets the difficulty.
    NonceExhausted,
}

#[derive(Debug)]
pub struct Blockchain {
    pub chain: Vec<Block>,
}

impl Blockchain {
    /// What verification checks: every block after the first stores the
    /// digest of its own fields and the digest of its predecessor.
    pub open spec fn valid(&self) -> bool {
        forall|i: int|
            1 <= i < self.chain@.len() ==> {
                &&& (#[trigger] self.chain@[i]).hash@ == self.chain@[i].digest_of()
                &&& self.chain@[i].prev_hash@ == self.chain@[i - 1].hash@
            }
    }

    /// Every block after the first stores its predecessor's digest.
    pub open spec fn linked(&self) -> bool {
        forall|i: int|
            1 <= i < self.chain@.len() ==> (#[trigger] self.chain@[i]).prev_hash@
                == self.chain@[i - 1].hash@
    }

    /// The shape of every chain built by `new` and `add_block`: a genesis
    /// block at index zero with no predecessor digest, indices counting up by
    /// one, every block mined, and every block linked to its predecessor.
    pub open spec fn wf(&self) -> bool {
        &&& self.chain@.len() >= 1
        &&& self.chain@[0].index == 0
        &&& self.chain@[0].prev_hash@.len() == 0
        &&& forall|i: int|
            0 <= i < self.chain@.len() ==> (#[trigger] self.chain@[i]).is_mined(
                DIFFICULTY as nat,
            )
        &&& forall|i: int|
            1 <= i < self.chain@.len() ==> (#[trigger] self.chain@[i]).index == self.chain@[i
                - 1].index + 1
        &&& self.linked()
    }

    /// Creates a chain holding only the genesis block: index 0, timestamp 0,
    /// payload "Genesis Block", no predecessor digest, mined at `DIFFICULTY`
    /// from nonce zero. `None` when no nonce works.
    pub fn new() -> (r: Option<Blockchain>)
        ensures
            r is None <==> no_solution_in(
                0,
                0,
                "Genesis Block"@,
                Seq::empty(),
                DIFFICULTY as nat,
                0,
                u64::MAX as int + 1,
            ),
            r matches Some(c) ==> {
                &&& c.wf()
                &&& c.chain@.len() == 1
                &&& c.chain@[0].timestamp == 0
                &&& c.chain@[0].data@ == "Genesis Block"@
                &&& first_solution_from(
                    0,
                    0,
                    "Genesis Block"@,
                    Seq::empty(),
                    DIFFICULTY as nat,
                    0,
                    c.chain@[0].nonce,
                )
            },
    {
        let mut genesis_block = Block {
            index: 0,
            timestamp: 0,
            data: String::from_str("Genesis Block"),
            prev_hash: String::new(),
            hash: String::new(),
            nonce: 0,
        };
        if !genesis_block.mine_block(DIFFICULTY) {
            return None;
        }
        let chain = vec![genesis_block];
        Some(Blockchain { chain })
    }

    /// The block at the end of the chain.
    pub fn latest_block(&self) -> (r: &Block)
        requires
            self.chain@.len() > 0,
        ensures
            *r == self.chain@.last(),
    {
        &self.chain[self.chain.len() - 1]
    }

    /// Mines a block for `data` that follows the last one (next index, its
    /// digest as predecessor, the current time) and appends it. On an error
    /// the chain is left as it was.
    pub fn add_block(&mut self, data: String) -> (r: Result<(), AppendError>)
        requires
            old(self).chain@.len() > 0,
        ensures
            r == Err::<(), AppendError>(AppendError::IndexOverflow) <==> old(self).chain@.last().index
                == u32::MAX,
            r is Err ==> final(self).chain@ == old(self).chain@,
            r == Err::<(), AppendError>(AppendError::NonceExhausted) ==> exists|t: i64|
                #[trigger] no_solution_in(
                    (old(self).chain@.last().index + 1) as u32,
                    t,
                    data@,
                    old(self).chain@.last().hash@,
                    DIFFICULTY as nat,
                    0,
                    u64::MAX as int + 1,
                ),
            r is Ok ==> {
                let last = old(self).chain@.last();
                let b = final(self).chain@.last();
                &&& final(self).chain@ == old(self).chain@.push(b)
                &&& b.index == last.index + 1
                &&& b.data@ == data@
                &&& b.prev_hash@ == last.hash@
                &&& b.is_mined(DIFFICULTY as nat)
                &&& first_solution_from(
                    b.index,
                    b.timestamp,
                    data@,
                    last.hash@,
                    DIFFICULTY as nat,
                    0,
                    b.nonce,
                )
            },
            old(self).wf() && r is Ok ==> final(self).wf(),
    {
        let latest = self.latest_block();
        if latest.index == u32::MAX {
            return Err(AppendError::IndexOverflow);
        }
        let index = latest.index + 1;
        let prev_hash = latest.hash.clone();
        match Block::new(index, data, prev_hash) {
            Some(new_block) => {
                self.chain.push(new_block);
                Ok(())
            },
            None => Err(AppendError::NonceExhausted),
        }
    }

    /// Checks every block after the first: its stored digest must be the
    /// digest of its fields, and its predecessor digest must be the previous
    /// block's stored digest.
    pub fn is_valid_chain(&self) -> (r: bool)
        ensures
            r == self.valid(),
    {
        let mut i: usize = 1;
        while i < self.chain.len()
            invariant
                1 <= i,
                forall|j: int|
                    1 <= j < i && j < self.chain@.len() ==> {
                        &&& (#[trigger] self.chain@[j]).hash@ == self.chain@[j].digest_of()
                        &&& self.chain@[j].prev_hash@ == self.chain@[j - 1].hash@
                    },
            decreases self.chain.len() - i,
        {
            let current = &self.chain[i];
            let previous = &self.chain[i - 1];
            let recomputed = current.calculate_hash();
            if !(current.hash == recomputed) {
                return false;
            }
            if !(current.prev_hash == previous.hash) {
                return false;
            }
            i += 1;
        }
        true
    }
}

} // verus!
