//! Variable-length integers: seven payload bits per byte, least significant
//! group first, the high bit set on every byte but the last.

use vstd::prelude::*;

verus! {

/// The bytes that stand for `n`.
pub open spec fn varint(n: nat) -> Seq<u8>
    decreases n,
{
    if n < 128 {
        seq![n as u8]
    } else {
        seq![(n % 128 + 128) as u8] + varint(n / 128)
    }
}

/// Reads one integer from the front of `s`: its value and how many bytes it took.
pub open spec fn parse_varint(s: Seq<u8>) -> Option<(nat, nat)>
    decreases s.len(),
{
    if s.len() == 0 {
        None
    } else if s[0] < 128 {
        Some((s[0] as nat, 1nat))
    } else {
        match parse_varint(s.skip(1)) {
            None => None,
            Some((v, k)) => Some((((s[0] - 128) + 128 * v) as nat, k + 1)),
        }
    }
}

/// Reading what was written gives the value back and leaves what followed.
pub proof fn lemma_parse_varint(n: nat, rest: Seq<u8>)
    ensures
        parse_varint(varint(n) + rest) == Some((n, varint(n).len())),
        (varint(n) + rest).skip(varint(n).len() as int) == rest,
        1 <= varint(n).len(),
    decreases n,
{
    let s = varint(n) + rest;
    if n < 128 {
        assert(s[0] == n as u8);
        assert(s.skip(1) =~= rest);
    } else {
        lemma_parse_varint(n / 128, rest);
        let t = varint(n / 128) + rest;
        assert(s[0] == (n % 128 + 128) as u8);
        assert(s.skip(1) =~= t);
        assert(s.skip(varint(n).len() as int) =~= t.skip(varint(n / 128).len() as int));
    }
}

/// Appends the bytes of `n` to `out`.
pub fn push_varint(out: &mut Vec<u8>, n: u128)
    ensures
        final(out)@ == old(out)@ + varint(n as nat),
{
    let mut rem: u128 = n;
    while rem >= 128
        invariant
            out@ + varint(rem as nat) == old(out)@ + varint(n as nat),
        decreases rem,
    {
        let b: u8 = (rem % 128 + 128) as u8;
        proof {
            assert(out@.push(b) + varint((rem / 128) as nat) =~= out@ + varint(rem as nat));
        }
        out.push(b);
        rem = rem / 128;
    }
    proof {
        assert(out@.push(rem as u8) =~= out@ + varint(rem as nat));
    }
    out.push(rem as u8);
}

/// What a reader that starts at `pos` reports: the value, if it fits in 128
/// bits, and the position just behind it.
pub open spec fn read_at(s: Seq<u8>, pos: int) -> Option<(u128, usize)> {
    match parse_varint(s.skip(pos)) {
        Some((v, k)) => if v <= u128::MAX {
            Some((v as u128, (pos + k) as usize))
        } else {
            None
        },
        None => None,
    }
}

/// An integer that was read took at least one byte and no more than there were.
pub proof fn lemma_parse_varint_len(s: Seq<u8>)
    ensures
        parse_varint(s) matches Some((_, k)) ==> 1 <= k <= s.len(),
    decreases s.len(),
{
    if s.len() > 0 && s[0] >= 128 {
        lemma_parse_varint_len(s.skip(1));
    }
}

/// How the integer that starts where reading began relates to what is still
/// to be read: `acc` holds the groups read so far, and the rest counts
/// `scale` times its value.
pub open spec fn carries_on(
    whole: Option<(nat, nat)>,
    acc: nat,
    scale: nat,
    rest: Option<(nat, nat)>,
    read: nat,
) -> bool {
    whole == match rest {
        None => None,
        Some((v, k)) => Some((acc + scale * v, k + read)),
    }
}

/// Reads the integer that starts at `pos`.
pub fn read_varint(s: &[u8], pos: usize) -> (r: Option<(u128, usize)>)
    requires
        pos <= s@.len(),
    ensures
        r == read_at(s@, pos as int),
        r matches Some((_, end)) ==> pos < end <= s@.len(),
{
    let ghost whole = parse_varint(s@.skip(pos as int));
    let ghost mut m: nat = 1;
    let mut acc: u128 = 0;
    let mut scale: u128 = 1;
    let mut high: bool = false;
    let mut i: usize = pos;
    proof {
        lemma_parse_varint_len(s@.skip(pos as int));
        assert(carries_on(whole, 0, 1, whole, 0)) by {
            match whole {
                Some((v, k)) => {
                    assert(1 * v == v) by (nonlinear_arith);
                },
                None => {},
            }
        }
    }
    while i < s.len()
        invariant
            pos <= i <= s@.len(),
            whole == parse_varint(s@.skip(pos as int)),
            m >= 1,
            high ==> m > u128::MAX,
            !high ==> m == scale,
            carries_on(
                whole,
                acc as nat,
                m,
                parse_varint(s@.skip(i as int)),
                (i - pos) as nat,
            ),
        decreases s@.len() - i,
    {
        let b: u8 = s[i];
        let ghost here = s@.skip(i as int);
        let ghost next = parse_varint(s@.skip(i + 1));
        proof {
            assert(here[0] == b);
            assert(here.skip(1) =~= s@.skip(i + 1));
            lemma_parse_varint_len(s@.skip(i + 1));
        }
        if b < 128 {
            assert(whole == Some(((acc + m * b) as nat, (i + 1 - pos) as nat)));
            if high {
                if b != 0 {
                    assert(m * b > u128::MAX) by (nonlinear_arith)
                        requires
                            m > u128::MAX,
                            b >= 1,
                    ;
                    return None;
                }
                assert(m * 0 == 0) by (nonlinear_arith);
                return Some((acc, i + 1));
            }
            return match scale.checked_mul(b as u128) {
                None => None,
                Some(part) => match acc.checked_add(part) {
                    None => None,
                    Some(v) => Some((v, i + 1)),
                },
            };
        }
        let low: u128 = (b - 128) as u128;
        proof {
            match next {
                Some((v, k)) => {
                    assert(m * (low + 128 * v) == m * low + (m * 128) * v) by (nonlinear_arith);
                    assert(m * low + (m * 128) * v >= m * low) by (nonlinear_arith)
                        requires
                            m >= 1,
                            v >= 0,
                    ;
                },
                None => {},
            }
        }
        if high {
            if low != 0 {
                assert(m * low > u128::MAX) by (nonlinear_arith)
                    requires
                        m > u128::MAX,
                        low >= 1,
                ;
                return None;
            }
            assert(m * 0 == 0) by (nonlinear_arith);
        } else {
            let part: u128 = match scale.checked_mul(low) {
                None => return None,
                Some(part) => part,
            };
            acc = match acc.checked_add(part) {
                None => return None,
                Some(v) => v,
            };
            match scale.checked_mul(128) {
                None => {
                    high = true;
                },
                Some(bigger) => {
                    scale = bigger;
                },
            }
        }
        proof {
            m = m * 128;
        }
        i += 1;
    }
    None
}

} // verus!
