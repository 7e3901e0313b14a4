//! A block of the ledger, and the proof-of-work search that fixes its nonce.

use vstd::prelude::*;

use crate::encoding::{block_content, block_input};
use crate::services::{is_lower_hex_digest, sha256_hex, sha256_hex_of, unix_timestamp_now};

verus! {

/// Number of leading zero hex characters every block's digest must have.
pub const DIFFICULTY: usize = 4;

/// Digest of a block's five content fields.
pub open spec fn block_digest(
    index: u32,
    timestamp: i64,
    data: Seq<char>,
    prev_hash: Seq<char>,
    nonce: u64,
) -> Seq<char> {
    sha256_hex(block_input(index, timestamp, data, prev_hash, nonce))
}

/// The proof-of-work predicate: the first `difficulty` characters are `'0'`.
pub open spec fn meets_difficulty(hash: Seq<char>, difficulty: nat) -> bool {
    &&& difficulty <= hash.len()
    &&& forall|i: int| 0 <= i < difficulty ==> hash[i] == '0'
}

/// No nonce in `[from, to)` gives a digest that meets the difficulty.
pub open spec fn no_solution_in(
    index: u32,
    timestamp: i64,
    data: Seq<char>,
    prev_hash: Seq<char>,
    difficulty: nat,
    from: int,
    to: int,
) -> bool {
    forall|n: u64|
        from <= n < to ==> !meets_difficulty(
            #[trigger] block_digest(index, timestamp, data, prev_hash, n),
            difficulty,
        )
}

/// `nonce` is the first nonce from `from` on whose digest meets the difficulty.
pub open spec fn first_solution_from(
    index: u32,
    timestamp: i64,
    data: Seq<char>,
    prev_hash: Seq<char>,
    difficulty: nat,
    from: u64,
    nonce: u64,
) -> bool {
    &&& from <= nonce
    &&& meets_difficulty(block_digest(index, timestamp, data, prev_hash, nonce), difficulty)
    &&& no_solution_in(index, timestamp, data, prev_hash, difficulty, from as int, nonce as int)
}

/// Tells whether the first `difficulty` characters of `hash` are all `'0'`.
pub fn has_difficulty_prefix(hash: &str, difficulty: usize) -> (r: bool)
    ensures
        r == meets_difficulty(hash@, difficulty as nat),
{
    if hash.unicode_len() < difficulty {
        return false;
    }
    let mut i: usize = 0;
    while i < difficulty
        invariant
            difficulty <= hash@.len(),
            i <= difficulty,
            forall|j: int| 0 <= j < i ==> hash@[j] == '0',
        decreases difficulty - i,
    {
        if hash.get_char(i) != '0' {
            return false;
        }
        i += 1;
    }
    true
}

#[derive(Debug, Clone)]
pub struct Block {
    pub index: u32,
    pub timestamp: i64,
    pub data: String,
    pub prev_hash: String,
    pub hash: String,
    pub nonce: u64,
}

impl Block {
    /// Digest of this block's stored content fields.
    pub open spec fn digest_of(&self) -> Seq<char> {
        block_digest(self.index, self.timestamp, self.data@, self.prev_hash@, self.nonce)
    }

    /// The stored digest is the digest of the stored fields and meets the
    /// difficulty.
    pub open spec fn is_mined(&self, difficulty: nat) -> bool {
        &&& self.hash@ == self.digest_of()
        &&& meets_difficulty(self.hash@, difficulty)
    }

    /// Same content fields, whatever the digest and nonce.
    pub open spec fn same_content(&self, other: &Block) -> bool {
        &&& self.index == other.index
        &&& self.timestamp == other.timestamp
        &&& self.data@ == other.data@
        &&& self.prev_hash@ == other.prev_hash@
    }

    /// Recomputes the digest of the block's five content fields.
    pub fn calculate_hash(&self) -> (r: String)
        ensures
            r@ == self.digest_of(),
            is_lower_hex_digest(r@),
    {
        let content = block_content(
            self.index,
            self.timestamp,
            self.data.as_str(),
            self.prev_hash.as_str(),
            self.nonce,
        );
        sha256_hex_of(content.as_str())
    }

    /// Searches nonces upward from the current one for the first whose digest
    /// meets `difficulty`, and stores that nonce and digest. Returns `false`,
    /// leaving the nonce at its largest value with its digest, when no
    /// remaining nonce works.
    pub fn mine_block(&mut self, difficulty: usize) -> (found: bool)
        ensures
            final(self).same_content(old(self)),
            found ==> final(self).is_mined(difficulty as nat),
            found ==> first_solution_from(
                old(self).index,
                old(self).timestamp,
                old(self).data@,
                old(self).prev_hash@,
                difficulty as nat,
                old(self).nonce,
                final(self).nonce,
            ),
            !found ==> no_solution_in(
                old(self).index,
                old(self).timestamp,
                old(self).data@,
                old(self).prev_hash@,
                difficulty as nat,
                old(self).nonce as int,
                u64::MAX as int + 1,
            ),
            !found ==> final(self).nonce == u64::MAX && final(self).hash@ == final(self).digest_of(),
    {
        let ghost start = self.nonce;
        self.hash = self.calculate_hash();
        while !has_difficulty_prefix(self.hash.as_str(), difficulty)
            invariant
                self.same_content(old(self)),
                start == old(self).nonce,
                start <= self.nonce,
                self.hash@ == self.digest_of(),
                no_solution_in(
                    self.index,
                    self.timestamp,
                    self.data@,
                    self.prev_hash@,
                    difficulty as nat,
                    start as int,
                    self.nonce as int,
                ),
            decreases u64::MAX - self.nonce,
        {
            if self.nonce == u64::MAX {
                return false;
            }
            self.nonce = self.nonce + 1;
            self.hash = self.calculate_hash();
        }
        true
    }

    /// Builds and mines a block at `DIFFICULTY` with the given timestamp,
    /// searching nonces from zero. `None` when no nonce works.
    pub fn mined_at(index: u32, timestamp: i64, data: String, prev_hash: String) -> (r: Option<
        Block,
    >)
        ensures
            r is None <==> no_solution_in(
                index,
                timestamp,
                data@,
                prev_hash@,
                DIFFICULTY as nat,
                0,
                u64::MAX as int + 1,
            ),
            r matches Some(b) ==> {
                &&& b.index == index
                &&& b.timestamp == timestamp
                &&& b.data@ == data@
                &&& b.prev_hash@ == prev_hash@
                &&& b.is_mined(DIFFICULTY as nat)
                &&& first_solution_from(
                    index,
                    timestamp,
                    data@,
                    prev_hash@,
                    DIFFICULTY as nat,
                    0,
                    b.nonce,
                )
            },
    {
        let mut block = Block { index, timestamp, data, prev_hash, hash: String::new(), nonce: 0 };
        if block.mine_block(DIFFICULTY) {
            Some(block)
        } else {
            None
        }
    }

    /// Builds and mines a block stamped with the current time.
    pub fn new(index: u32, data: String, prev_hash: String) -> (r: Option<Block>)
        ensures
            r matches Some(b) ==> {
                &&& b.index == index
                &&& b.data@ == data@
                &&& b.prev_hash@ == prev_hash@
                &&& b.is_mined(DIFFICULTY as nat)
                &&& first_solution_from(
                    index,
                    b.timestamp,
                    data@,
                    prev_hash@,
                    DIFFICULTY as nat,
                    0,
                    b.nonce,
                )
            },
            r is None ==> exists|t: i64|
                #[trigger] no_solution_in(
                    index,
                    t,
                    data@,
                    prev_hash@,
                    DIFFICULTY as nat,
                    0,
                    u64::MAX as int + 1,
                ),
    {
        let timestamp = unix_timestamp_now();
        Block::mined_at(index, timestamp, data, prev_hash)
    }
}

} // verus!
