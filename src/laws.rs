//! Properties of chains built by `Blockchain::new` and `Blockchain::add_block`,
//! which keep `Blockchain::wf`.

use vstd::prelude::*;

use crate::block::{meets_difficulty, Block, DIFFICULTY};
use crate::chain::Blockchain;
use crate::encoding::{block_input, dec_int, dec_nat};
use crate::services::sha256_hex;

verus! {

/// Every block of a built chain has a digest whose first `DIFFICULTY` hex
/// characters are `'0'`.
pub proof fn lemma_every_block_meets_difficulty(c: &Blockchain)
    requires
        c.wf(),
    ensures
        forall|i: int|
            0 <= i < c.chain@.len() ==> meets_difficulty(
                (#[trigger] c.chain@[i]).hash@,
                DIFFICULTY as nat,
            ),
{
    assert forall|i: int| 0 <= i < c.chain@.len() implies meets_difficulty(
        (#[trigger] c.chain@[i]).hash@,
        DIFFICULTY as nat,
    ) by {
        assert(c.chain@[i].is_mined(DIFFICULTY as nat));
    }
}

/// Recomputing the digest of any block of a built chain from its stored
/// fields gives its stored digest.
pub proof fn lemma_stored_digest_recomputes(c: &Blockchain)
    requires
        c.wf(),
    ensures
        forall|i: int|
            0 <= i < c.chain@.len() ==> (#[trigger] c.chain@[i]).hash@ == c.chain@[i].digest_of(),
{
    assert forall|i: int| 0 <= i < c.chain@.len() implies (#[trigger] c.chain@[i]).hash@
        == c.chain@[i].digest_of() by {
        assert(c.chain@[i].is_mined(DIFFICULTY as nat));
    }
}

/// In a built chain every block after the first stores its predecessor's
/// digest.
pub proof fn lemma_linkage(c: &Blockchain)
    requires
        c.wf(),
    ensures
        forall|i: int|
            1 <= i < c.chain@.len() ==> (#[trigger] c.chain@[i]).prev_hash@ == c.chain@[i
                - 1].hash@,
{
}

/// A built chain passes verification.
pub proof fn lemma_built_chain_is_valid(c: &Blockchain)
    requires
        c.wf(),
    ensures
        c.valid(),
{
    lemma_stored_digest_recomputes(c);
}

/// Replacing the payload of the second block of a valid chain makes the
/// chain fail verification, provided SHA-256 does not map the block's old and
/// new texts to the same digest.
pub proof fn lemma_tamper_detected(c: &Blockchain, data: String, tampered: &Blockchain)
    requires
        c.valid(),
        c.chain@.len() >= 2,
        data@ != c.chain@[1].data@,
        tampered.chain@ == c.chain@.update(1, (Block { data: data, ..c.chain@[1] })),
        ({
            let b = c.chain@[1];
            let before = block_input(b.index, b.timestamp, b.data@, b.prev_hash@, b.nonce);
            let after = block_input(b.index, b.timestamp, data@, b.prev_hash@, b.nonce);
            before != after ==> sha256_hex(before) != sha256_hex(after)
        }),
    ensures
        !tampered.valid(),
{
    let b = c.chain@[1];
    lemma_payload_changes_text(b.index, b.timestamp, b.data@, data@, b.prev_hash@, b.nonce);
    assert(tampered.chain@[1].hash@ == b.hash@);
    assert(tampered.chain@[1].digest_of() != b.digest_of());
}

/// Block texts that differ only in the payload are different texts.
pub proof fn lemma_payload_changes_text(
    index: u32,
    timestamp: i64,
    data: Seq<char>,
    other: Seq<char>,
    prev_hash: Seq<char>,
    nonce: u64,
)
    requires
        data != other,
    ensures
        block_input(index, timestamp, data, prev_hash, nonce) != block_input(
            index,
            timestamp,
            other,
            prev_hash,
            nonce,
        ),
{
    let head = dec_nat(index as nat) + dec_int(timestamp as int);
    let tail = prev_hash + dec_nat(nonce as nat);
    let x = block_input(index, timestamp, data, prev_hash, nonce);
    let y = block_input(index, timestamp, other, prev_hash, nonce);
    assert(x =~= head + data + tail);
    assert(y =~= head + other + tail);
    if x == y {
        assert(data.len() == other.len());
        assert forall|i: int| 0 <= i < data.len() implies data[i] == other[i] by {
            assert(x[head.len() + i] == data[i]);
            assert(y[head.len() + i] == other[i]);
        }
        assert(data =~= other);
    }
}

/// Verification reads the chain and nothing else: on the same chain it gives
/// the same answer every time.
pub proof fn lemma_validity_is_repeatable(c: &Blockchain, again: &Blockchain)
    requires
        c == again,
    ensures
        c.valid() == again.valid(),
{
}

} // verus!
