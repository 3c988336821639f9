//! The commitment that binds a reveal transaction to a name: the sixteen
//! bytes of the name, least significant first.

use vstd::prelude::*;

verus! {

/// The number of bytes in a commitment.
pub const COMMITMENT_LEN: usize = 16;

/// The number of blocks that must confirm a commit before its reveal.
pub const COMMIT_CONFIRMATIONS: u32 = 6;

/// The `k` low bytes of `n`, least significant first.
pub open spec fn le_bytes(n: nat, k: nat) -> Seq<u8>
    decreases k,
{
    if k == 0 {
        Seq::empty()
    } else {
        seq![(n % 256) as u8] + le_bytes(n / 256, (k - 1) as nat)
    }
}

/// What is left of `n` once its `k` low bytes are dropped.
pub open spec fn drop_bytes(n: nat, k: nat) -> nat
    decreases k,
{
    if k == 0 {
        n
    } else {
        drop_bytes(n / 256, (k - 1) as nat)
    }
}

/// The commitment to a name.
pub open spec fn commitment_spec(name: u128) -> Seq<u8> {
    le_bytes(name as nat, COMMITMENT_LEN as nat)
}

/// The `k` low bytes of a number are `k` bytes.
pub proof fn lemma_le_bytes_len(n: nat, k: nat)
    ensures
        le_bytes(n, k).len() == k,
    decreases k,
{
    if k > 0 {
        lemma_le_bytes_len(n / 256, (k - 1) as nat);
    }
}

/// Numbers with the same low bytes and the same remainder above them are equal.
pub proof fn lemma_le_bytes_injective(a: nat, b: nat, k: nat)
    requires
        le_bytes(a, k) == le_bytes(b, k),
        drop_bytes(a, k) == drop_bytes(b, k),
    ensures
        a == b,
    decreases k,
{
    if k > 0 {
        let sa = le_bytes(a, k);
        let sb = le_bytes(b, k);
        assert(sa[0] == (a % 256) as u8);
        assert(sb[0] == (b % 256) as u8);
        assert(sa.skip(1) =~= le_bytes(a / 256, (k - 1) as nat));
        assert(sb.skip(1) =~= le_bytes(b / 256, (k - 1) as nat));
        lemma_le_bytes_injective(a / 256, b / 256, (k - 1) as nat);
    }
}

/// A commitment has sixteen bytes, and distinct names have distinct commitments.
pub proof fn lemma_commitment_binds(a: u128, b: u128)
    ensures
        commitment_spec(a).len() == COMMITMENT_LEN,
        commitment_spec(a) == commitment_spec(b) <==> a == b,
{
    lemma_le_bytes_len(a as nat, 16);
    if commitment_spec(a) == commitment_spec(b) {
        assert(drop_bytes(a as nat, 16) == 0) by {
            reveal_with_fuel(drop_bytes, 17);
        }
        assert(drop_bytes(b as nat, 16) == 0) by {
            reveal_with_fuel(drop_bytes, 17);
        }
        lemma_le_bytes_injective(a as nat, b as nat, 16);
    }
}

/// Derives the commitment to `name`.
pub fn commitment(name: u128) -> (r: Vec<u8>)
    ensures
        r@ == commitment_spec(name),
        r@.len() == COMMITMENT_LEN,
{
    let mut out: Vec<u8> = Vec::new();
    let mut rem: u128 = name;
    let mut i: usize = 0;
    while i < COMMITMENT_LEN
        invariant
            i <= COMMITMENT_LEN,
            out@.len() == i,
            out@ + le_bytes(rem as nat, (COMMITMENT_LEN - i) as nat) == commitment_spec(name),
        decreases COMMITMENT_LEN - i,
    {
        let b: u8 = (rem % 256) as u8;
        proof {
            assert(out@.push(b) + le_bytes((rem / 256) as nat, (COMMITMENT_LEN - i - 1) as nat)
                =~= out@ + le_bytes(rem as nat, (COMMITMENT_LEN - i) as nat));
        }
        out.push(b);
        rem = rem / 256;
        i += 1;
    }
    assert(out@ + le_bytes(rem as nat, 0) =~= out@);
    out
}

/// The number of confirmations a commit needs before the reveal may refer to it.
pub fn confirmations_required() -> (r: u32)
    ensures
        r == COMMIT_CONFIRMATIONS,
{
    COMMIT_CONFIRMATIONS
}

/// Whether a commit observed with `confirmations` confirmations may be revealed.
pub fn reveal_permitted(confirmations: u32) -> (r: bool)
    ensures
        r == (confirmations >= COMMIT_CONFIRMATIONS),
{
    confirmations >= COMMIT_CONFIRMATIONS
}

} // verus!
