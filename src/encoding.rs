//! Canonical text that a block's digest is computed over: its index,
//! timestamp, payload, predecessor digest and nonce, written one after the
//! other with integers in decimal.

use vstd::prelude::*;

verus! {

/// The decimal digit character for a value below ten.
pub open spec fn digit_char(d: nat) -> char {
    seq!['0', '1', '2', '3', '4', '5', '6', '7', '8', '9'][d as int]
}

/// Decimal notation of a natural number, without leading zeros.
pub open spec fn dec_nat(n: nat) -> Seq<char>
    decreases n,
{
    if n < 10 {
        seq![digit_char(n)]
    } else {
        dec_nat(n / 10).push(digit_char(n % 10))
    }
}

/// Decimal notation of an integer, with a leading minus sign when negative.
pub open spec fn dec_int(i: int) -> Seq<char> {
    if i < 0 {
        seq!['-'] + dec_nat((-i) as nat)
    } else {
        dec_nat(i as nat)
    }
}

/// The text hashed for a block: the five fields concatenated in order.
/// No separators are written, so distinct field tuples can share a text
/// (index 1 with timestamp 23, and index 12 with timestamp 3); digests of
/// existing chains depend on this exact layout.
pub open spec fn block_input(
    index: u32,
    timestamp: i64,
    data: Seq<char>,
    prev_hash: Seq<char>,
    nonce: u64,
) -> Seq<char> {
    dec_nat(index as nat) + dec_int(timestamp as int) + data + prev_hash + dec_nat(nonce as nat)
}

fn digit_str(d: u64) -> (r: &'static str)
    requires
        d < 10,
    ensures
        r@ == seq![digit_char(d as nat)],
{
    let digits = "0123456789";
    proof {
        reveal_strlit("0123456789");
    }
    let r = digits.substring_char(d as usize, d as usize + 1);
    assert(r@ =~= seq![digit_char(d as nat)]);
    r
}

/// Appends the decimal notation of `n` to `s`.
pub fn push_decimal(s: &mut String, n: u64)
    ensures
        final(s)@ == old(s)@ + dec_nat(n as nat),
    decreases n,
{
    if n >= 10 {
        push_decimal(s, n / 10);
    }
    let d = digit_str(n % 10);
    s.append(d);
    assert(final(s)@ =~= old(s)@ + dec_nat(n as nat));
}

/// Appends the decimal notation of `i` to `s`, with a minus sign when negative.
pub fn push_signed_decimal(s: &mut String, i: i64)
    ensures
        final(s)@ == old(s)@ + dec_int(i as int),
{
    if i < 0 {
        s.append("-");
        proof {
            reveal_strlit("-");
        }
        let magnitude: u64 = (-(i + 1)) as u64 + 1;
        push_decimal(s, magnitude);
        assert(final(s)@ =~= old(s)@ + dec_int(i as int));
    } else {
        push_decimal(s, i as u64);
    }
}

/// Builds the text hashed for a block from its five fields.
pub fn block_content(index: u32, timestamp: i64, data: &str, prev_hash: &str, nonce: u64) -> (r:
    String)
    ensures
        r@ == block_input(index, timestamp, data@, prev_hash@, nonce),
{
    let mut s = String::new();
    push_decimal(&mut s, index as u64);
    push_signed_decimal(&mut s, timestamp);
    s.append(data);
    s.append(prev_hash);
    push_decimal(&mut s, nonce);
    assert(s@ =~= block_input(index, timestamp, data@, prev_hash@, nonce));
    s
}

} // verus!
