//! The etching message: a version byte followed by tagged fields, each a tag
//! byte and a variable-length integer, in ascending order of tag. A field that
//! is absent from the directive is left out of the message.

use crate::directive::{Edict, EncodingError, EtchingDirective, EtchingTerms};
use crate::varint::{
    lemma_parse_varint, lemma_parse_varint_len, parse_varint, push_varint, read_varint, varint,
};
use vstd::prelude::*;

verus! {

/// The first byte of every message.
pub const VERSION: u8 = 1;

/// The longest message that a reveal transaction may carry.
pub const MAX_MESSAGE_LEN: usize = 82;

/// The number of tags. The tag of a field is its place among the fields.
pub const FIELD_COUNT: usize = 14;

/// The flags of an etching without terms: the etching bit alone.
pub const FLAGS_PLAIN: u128 = 1;

/// The flags of an etching with terms: the etching bit and the terms bit.
pub const FLAGS_WITH_TERMS: u128 = 3;

/// The tags of the fields, in the order in which a message holds them.
pub const TAG_FLAGS: usize = 0;

pub const TAG_NAME: usize = 1;

pub const TAG_DIVISIBILITY: usize = 2;

pub const TAG_PREMINE: usize = 3;

pub const TAG_SYMBOL: usize = 4;

pub const TAG_SPACERS: usize = 5;

pub const TAG_AMOUNT: usize = 6;

pub const TAG_CAP: usize = 7;

pub const TAG_HEIGHT_START: usize = 8;

pub const TAG_HEIGHT_END: usize = 9;

pub const TAG_OFFSET_START: usize = 10;

pub const TAG_OFFSET_END: usize = 11;

pub const TAG_EDICT_OUTPUT: usize = 12;

pub const TAG_EDICT_AMOUNT: usize = 13;

/// A bound of a window as a field's value.
pub open spec fn widen(v: Option<u64>) -> Option<u128> {
    match v {
        Some(x) => Some(x as u128),
        None => None,
    }
}

/// The flags of a directive: the etching bit, and the terms bit where it has terms.
pub open spec fn flags_of(d: EtchingDirective) -> u128 {
    if d.terms is Some {
        FLAGS_WITH_TERMS
    } else {
        FLAGS_PLAIN
    }
}

/// The fields of a directive in the order of their tags: flags, name,
/// divisibility, premine, symbol, spacers, the six fields of the terms, and
/// the edict's output and amount.
pub open spec fn slots_of(d: EtchingDirective) -> Seq<Option<u128>> {
    let (amount, cap, hs, he, os, oe) = match d.terms {
        Some(t) => (
            Some(t.amount),
            Some(t.cap),
            widen(t.height_start),
            widen(t.height_end),
            widen(t.offset_start),
            widen(t.offset_end),
        ),
        None => (None, None, None, None, None, None),
    };
    seq![
        Some(flags_of(d)),
        Some(d.name),
        Some(d.divisibility as u128),
        Some(d.premine),
        Some(d.symbol as u128),
        Some(d.spacers as u128),
        amount,
        cap,
        hs,
        he,
        os,
        oe,
        Some(d.edict.output as u128),
        Some(d.edict.amount),
    ]
}

/// The bytes of the fields from tag `i` on.
pub open spec fn encode_from(slots: Seq<Option<u128>>, i: nat) -> Seq<u8>
    decreases slots.len() - i,
{
    if i >= slots.len() {
        Seq::empty()
    } else {
        match slots[i as int] {
            None => encode_from(slots, i + 1),
            Some(v) => seq![i as u8] + varint(v as nat) + encode_from(slots, i + 1),
        }
    }
}

/// The message that stands for a directive.
pub open spec fn message(d: EtchingDirective) -> Seq<u8> {
    seq![VERSION] + encode_from(slots_of(d), 0)
}

/// What `encode` returns: the message, unless it is longer than the limit.
pub open spec fn encode_spec(d: EtchingDirective) -> Result<Seq<u8>, EncodingError> {
    if message(d).len() <= MAX_MESSAGE_LEN {
        Ok(message(d))
    } else {
        Err(
            EncodingError::MessageTooLarge {
                length: message(d).len() as usize,
                limit: MAX_MESSAGE_LEN,
            },
        )
    }
}

/// `b` is the message of the valid directive `d`, and within the limit.
pub open spec fn encodes(d: EtchingDirective, b: Seq<u8>) -> bool {
    d.valid() && message(d) == b && b.len() <= MAX_MESSAGE_LEN
}

/// What `decode` returns: the valid directive whose message `b` is, if there is one.
pub open spec fn decode_spec(b: Seq<u8>) -> Option<EtchingDirective> {
    if exists|d: EtchingDirective| encodes(d, b) {
        Some(choose|d: EtchingDirective| encodes(d, b))
    } else {
        None
    }
}

/// Fourteen absent fields.
pub open spec fn no_slots() -> Seq<Option<u128>> {
    Seq::new(FIELD_COUNT as nat, |i: int| None::<u128>)
}

/// Reads tagged fields until the bytes end, recording each under its tag.
pub open spec fn parse_fields(s: Seq<u8>, acc: Seq<Option<u128>>) -> Option<Seq<Option<u128>>>
    decreases s.len(),
{
    if s.len() == 0 {
        Some(acc)
    } else if s[0] >= FIELD_COUNT {
        None
    } else {
        match parse_varint(s.skip(1)) {
            None => None,
            Some((v, k)) => if v <= u128::MAX && 1 + k <= s.len() {
                parse_fields(s.skip((1 + k) as int), acc.update(s[0] as int, Some(v as u128)))
            } else {
                None
            },
        }
    }
}

/// Whether a field's value, where there is one, can be a bound of a window.
pub open spec fn fits_u64(v: Option<u128>) -> bool {
    match v {
        Some(x) => x <= u64::MAX,
        None => true,
    }
}

/// A field's value as a bound of a window.
pub open spec fn narrow(v: Option<u128>) -> Option<u64> {
    match v {
        Some(x) => Some(x as u64),
        None => None,
    }
}

/// Whether `v` is the scalar value of a character.
pub open spec fn is_scalar(v: u128) -> bool {
    v <= 0xD7FF || (0xE000 <= v && v <= 0x10FFFF)
}

/// Whether fields read from a message make up a directive: the fields that
/// every directive has are there and in range, and the fields of the terms are
/// there as the flags say.
pub open spec fn slots_complete(s: Seq<Option<u128>>) -> bool {
    &&& s.len() == FIELD_COUNT
    &&& s[TAG_FLAGS as int] is Some
    &&& s[TAG_NAME as int] is Some
    &&& s[TAG_DIVISIBILITY as int] is Some
    &&& s[TAG_PREMINE as int] is Some
    &&& s[TAG_SYMBOL as int] is Some
    &&& s[TAG_SPACERS as int] is Some
    &&& s[TAG_EDICT_OUTPUT as int] is Some
    &&& s[TAG_EDICT_AMOUNT as int] is Some
    &&& (s[TAG_FLAGS as int]->0 == FLAGS_PLAIN || s[TAG_FLAGS as int]->0 == FLAGS_WITH_TERMS)
    &&& s[TAG_DIVISIBILITY as int]->0 <= u8::MAX
    &&& is_scalar(s[TAG_SYMBOL as int]->0)
    &&& s[TAG_SPACERS as int]->0 <= u32::MAX
    &&& s[TAG_EDICT_OUTPUT as int]->0 <= u32::MAX
    &&& fits_u64(s[TAG_HEIGHT_START as int])
    &&& fits_u64(s[TAG_HEIGHT_END as int])
    &&& fits_u64(s[TAG_OFFSET_START as int])
    &&& fits_u64(s[TAG_OFFSET_END as int])
    &&& (s[TAG_FLAGS as int]->0 == FLAGS_WITH_TERMS ==> s[TAG_AMOUNT as int] is Some
        && s[TAG_CAP as int] is Some)
    &&& (s[TAG_FLAGS as int]->0 == FLAGS_PLAIN ==> s[TAG_AMOUNT as int] is None
        && s[TAG_CAP as int] is None && s[TAG_HEIGHT_START as int] is None
        && s[TAG_HEIGHT_END as int] is None && s[TAG_OFFSET_START as int] is None
        && s[TAG_OFFSET_END as int] is None)
}

/// The directive that a complete set of fields stands for.
pub open spec fn directive_of(s: Seq<Option<u128>>) -> Option<EtchingDirective> {
    if slots_complete(s) {
        Some(
            EtchingDirective {
                name: s[TAG_NAME as int]->0,
                divisibility: s[TAG_DIVISIBILITY as int]->0 as u8,
                premine: s[TAG_PREMINE as int]->0,
                terms: if s[TAG_FLAGS as int]->0 == FLAGS_WITH_TERMS {
                    Some(
                        EtchingTerms {
                            amount: s[TAG_AMOUNT as int]->0,
                            cap: s[TAG_CAP as int]->0,
                            height_start: narrow(s[TAG_HEIGHT_START as int]),
                            height_end: narrow(s[TAG_HEIGHT_END as int]),
                            offset_start: narrow(s[TAG_OFFSET_START as int]),
                            offset_end: narrow(s[TAG_OFFSET_END as int]),
                        },
                    )
                } else {
                    None
                },
                symbol: s[TAG_SYMBOL as int]->0 as char,
                spacers: s[TAG_SPACERS as int]->0 as u32,
                edict: Edict {
                    output: s[TAG_EDICT_OUTPUT as int]->0 as u32,
                    amount: s[TAG_EDICT_AMOUNT as int]->0,
                },
            },
        )
    } else {
        None
    }
}

/// The directive that a message's bytes parse to.
pub open spec fn parse_message(b: Seq<u8>) -> Option<EtchingDirective> {
    if b.len() == 0 || b[0] != VERSION {
        None
    } else {
        match parse_fields(b.skip(1), no_slots()) {
            None => None,
            Some(s) => directive_of(s),
        }
    }
}

/// Parsing the bytes of the fields from tag `i` on fills in exactly those fields.
pub proof fn lemma_parse_fields(slots: Seq<Option<u128>>, i: nat, acc: Seq<Option<u128>>)
    requires
        slots.len() == FIELD_COUNT,
        acc.len() == FIELD_COUNT,
        i <= FIELD_COUNT,
        forall|j: int| 0 <= j < i ==> acc[j] == slots[j],
        forall|j: int| i <= j < FIELD_COUNT ==> acc[j] is None,
    ensures
        parse_fields(encode_from(slots, i), acc) == Some(slots),
    decreases FIELD_COUNT - i,
{
    if i >= FIELD_COUNT {
        assert(acc =~= slots);
    } else {
        match slots[i as int] {
            None => {
                lemma_parse_fields(slots, i + 1, acc);
            },
            Some(v) => {
                let rest = encode_from(slots, i + 1);
                let e = encode_from(slots, i);
                let k = varint(v as nat).len();
                lemma_parse_varint(v as nat, rest);
                assert(e == seq![i as u8] + varint(v as nat) + rest);
                assert(e[0] == i as u8);
                assert(e.skip(1) =~= varint(v as nat) + rest);
                assert(e.skip((1 + k) as int) =~= (varint(v as nat) + rest).skip(k as int));
                let next = acc.update(i as int, Some(v));
                lemma_parse_fields(slots, i + 1, next);
            },
        }
    }
}

/// The fields of a directive stand for that directive.
pub proof fn lemma_directive_of_slots(d: EtchingDirective)
    ensures
        slots_of(d).len() == FIELD_COUNT,
        directive_of(slots_of(d)) == Some(d),
{
    let s = slots_of(d);
    assert(s.len() == 14);
    assert(s[TAG_SYMBOL as int]->0 == d.symbol as u128);
    assert(is_scalar(d.symbol as u128));
    assert((d.symbol as u128) as char == d.symbol);
    match d.terms {
        Some(t) => {
            assert(narrow(widen(t.height_start)) == t.height_start);
            assert(narrow(widen(t.height_end)) == t.height_end);
            assert(narrow(widen(t.offset_start)) == t.offset_start);
            assert(narrow(widen(t.offset_end)) == t.offset_end);
            assert(directive_of(s)->0.terms == Some(t));
        },
        None => {},
    }
    assert(slots_complete(s));
}

/// Parsing a directive's message gives the directive back.
pub proof fn lemma_parse_message(d: EtchingDirective)
    ensures
        parse_message(message(d)) == Some(d),
{
    lemma_directive_of_slots(d);
    lemma_parse_fields(slots_of(d), 0, no_slots());
    assert(message(d).skip(1) =~= encode_from(slots_of(d), 0));
}

/// Two directives with the same message are the same directive.
pub proof fn lemma_message_injective(a: EtchingDirective, b: EtchingDirective)
    requires
        message(a) == message(b),
    ensures
        a == b,
{
    lemma_parse_message(a);
    lemma_parse_message(b);
}

/// Decoding what `encode` produced gives the directive back, and encoding
/// that again gives the same bytes.
pub proof fn lemma_round_trip(d: EtchingDirective)
    requires
        d.valid(),
        message(d).len() <= MAX_MESSAGE_LEN,
    ensures
        encode_spec(d) == Ok::<Seq<u8>, EncodingError>(message(d)),
        decode_spec(message(d)) == Some(d),
        encode_spec(decode_spec(message(d))->0) == encode_spec(d),
{
    assert(encodes(d, message(d)));
    let c = choose|c: EtchingDirective| encodes(c, message(d));
    lemma_message_injective(c, d);
}

/// `char::from_u32`: the character with scalar value `v`, or nothing where `v`
/// is a surrogate or lies above the last code point.
#[verifier::external_body]
fn char_from_u32(v: u32) -> (r: Option<char>)
    ensures
        r == if is_scalar(v as u128) {
            Some(v as char)
        } else {
            None
        },
{
    char::from_u32(v)
}

fn widen_bound(v: Option<u64>) -> (r: Option<u128>)
    ensures
        r == widen(v),
{
    match v {
        Some(x) => Some(x as u128),
        None => None,
    }
}

fn narrow_bound(v: Option<u128>) -> (r: Option<Option<u64>>)
    ensures
        r == if fits_u64(v) {
            Some(narrow(v))
        } else {
            None
        },
{
    match v {
        Some(x) => if x <= u64::MAX as u128 {
            Some(Some(x as u64))
        } else {
            None
        },
        None => Some(None),
    }
}

fn slots_vec(d: &EtchingDirective) -> (r: Vec<Option<u128>>)
    ensures
        r@ == slots_of(*d),
{
    let mut v: Vec<Option<u128>> = Vec::new();
    v.push(Some(if d.terms.is_some() { FLAGS_WITH_TERMS } else { FLAGS_PLAIN }));
    v.push(Some(d.name));
    v.push(Some(d.divisibility as u128));
    v.push(Some(d.premine));
    v.push(Some(d.symbol as u32 as u128));
    v.push(Some(d.spacers as u128));
    match d.terms {
        Some(t) => {
            v.push(Some(t.amount));
            v.push(Some(t.cap));
            v.push(widen_bound(t.height_start));
            v.push(widen_bound(t.height_end));
            v.push(widen_bound(t.offset_start));
            v.push(widen_bound(t.offset_end));
        },
        None => {
            v.push(None);
            v.push(None);
            v.push(None);
            v.push(None);
            v.push(None);
            v.push(None);
        },
    }
    v.push(Some(d.edict.output as u128));
    v.push(Some(d.edict.amount));
    assert(v@ =~= slots_of(*d));
    v
}

fn message_bytes(d: &EtchingDirective) -> (r: Vec<u8>)
    ensures
        r@ == message(*d),
{
    let slots = slots_vec(d);
    let mut out: Vec<u8> = Vec::new();
    out.push(VERSION);
    let mut i: usize = 0;
    proof {
        lemma_directive_of_slots(*d);
        assert(out@ =~= seq![VERSION]);
    }
    while i < FIELD_COUNT
        invariant
            i <= FIELD_COUNT,
            slots@ == slots_of(*d),
            slots@.len() == FIELD_COUNT,
            out@ + encode_from(slots@, i as nat) == message(*d),
        decreases FIELD_COUNT - i,
    {
        let ghost before = out@;
        match slots[i] {
            Some(v) => {
                out.push(i as u8);
                push_varint(&mut out, v);
                assert(out@ + encode_from(slots@, (i + 1) as nat) =~= before + encode_from(
                    slots@,
                    i as nat,
                ));
            },
            None => {},
        }
        i += 1;
    }
    assert(out@ =~= out@ + encode_from(slots@, FIELD_COUNT as nat));
    out
}

/// Turns a directive into its message, or reports that the message would
/// exceed the limit.
pub fn encode(d: &EtchingDirective) -> (r: Result<Vec<u8>, EncodingError>)
    ensures
        match r {
            Ok(b) => encode_spec(*d) == Ok::<Seq<u8>, EncodingError>(b@),
            Err(e) => encode_spec(*d) == Err::<Seq<u8>, EncodingError>(e),
        },
{
    let out = message_bytes(d);
    if out.len() > MAX_MESSAGE_LEN {
        Err(EncodingError::MessageTooLarge { length: out.len(), limit: MAX_MESSAGE_LEN })
    } else {
        Ok(out)
    }
}

fn no_slots_vec() -> (r: Vec<Option<u128>>)
    ensures
        r@ == no_slots(),
{
    let mut v: Vec<Option<u128>> = Vec::new();
    let mut i: usize = 0;
    while i < FIELD_COUNT
        invariant
            i <= FIELD_COUNT,
            v@.len() == i,
            forall|j: int| 0 <= j < i ==> v@[j] is None,
        decreases FIELD_COUNT - i,
    {
        v.push(None);
        i += 1;
    }
    assert(v@ =~= no_slots());
    v
}

fn read_fields(bytes: &[u8]) -> (r: Option<Vec<Option<u128>>>)
    requires
        bytes@.len() >= 1,
    ensures
        match r {
            Some(v) => v@.len() == FIELD_COUNT && parse_fields(bytes@.skip(1), no_slots())
                == Some(v@),
            None => parse_fields(bytes@.skip(1), no_slots()) is None,
        },
{
    let mut slots = no_slots_vec();
    let mut pos: usize = 1;
    while pos < bytes.len()
        invariant
            1 <= pos <= bytes@.len(),
            slots@.len() == FIELD_COUNT,
            parse_fields(bytes@.skip(pos as int), slots@) == parse_fields(
                bytes@.skip(1),
                no_slots(),
            ),
        decreases bytes@.len() - pos,
    {
        let ghost here = bytes@.skip(pos as int);
        let tag: u8 = bytes[pos];
        proof {
            assert(here[0] == tag);
            assert(here.skip(1) =~= bytes@.skip(pos + 1));
            lemma_parse_varint_len(here.skip(1));
        }
        if tag as usize >= FIELD_COUNT {
            return None;
        }
        match read_varint(bytes, pos + 1) {
            None => {
                return None;
            },
            Some((v, end)) => {
                assert(here.skip(end - pos) =~= bytes@.skip(end as int));
                slots.set(tag as usize, Some(v));
                pos = end;
            },
        }
    }
    Some(slots)
}

fn directive_from_slots(s: &Vec<Option<u128>>) -> (r: Option<EtchingDirective>)
    requires
        s@.len() == FIELD_COUNT,
    ensures
        r == directive_of(s@),
{
    let flags: u128 = match s[TAG_FLAGS] {
        Some(v) => v,
        None => return None,
    };
    let name: u128 = match s[TAG_NAME] {
        Some(v) => v,
        None => return None,
    };
    let divisibility: u128 = match s[TAG_DIVISIBILITY] {
        Some(v) => v,
        None => return None,
    };
    let premine: u128 = match s[TAG_PREMINE] {
        Some(v) => v,
        None => return None,
    };
    let symbol: u128 = match s[TAG_SYMBOL] {
        Some(v) => v,
        None => return None,
    };
    let spacers: u128 = match s[TAG_SPACERS] {
        Some(v) => v,
        None => return None,
    };
    let output: u128 = match s[TAG_EDICT_OUTPUT] {
        Some(v) => v,
        None => return None,
    };
    let supply: u128 = match s[TAG_EDICT_AMOUNT] {
        Some(v) => v,
        None => return None,
    };
    if divisibility > u8::MAX as u128 || symbol > u32::MAX as u128 || spacers > u32::MAX as u128
        || output > u32::MAX as u128 {
        return None;
    }
    let symbol = match char_from_u32(symbol as u32) {
        Some(c) => c,
        None => return None,
    };
    let height_start = match narrow_bound(s[TAG_HEIGHT_START]) {
        Some(b) => b,
        None => return None,
    };
    let height_end = match narrow_bound(s[TAG_HEIGHT_END]) {
        Some(b) => b,
        None => return None,
    };
    let offset_start = match narrow_bound(s[TAG_OFFSET_START]) {
        Some(b) => b,
        None => return None,
    };
    let offset_end = match narrow_bound(s[TAG_OFFSET_END]) {
        Some(b) => b,
        None => return None,
    };
    let terms = if flags == FLAGS_WITH_TERMS {
        match (s[TAG_AMOUNT], s[TAG_CAP]) {
            (Some(amount), Some(cap)) => Some(
                EtchingTerms { amount, cap, height_start, height_end, offset_start, offset_end },
            ),
            _ => return None,
        }
    } else if flags == FLAGS_PLAIN {
        if s[TAG_AMOUNT].is_some() || s[TAG_CAP].is_some() || height_start.is_some() || height_end.is_some()
            || offset_start.is_some() || offset_end.is_some() {
            return None;
        }
        None
    } else {
        return None;
    };
    Some(
        EtchingDirective {
            name,
            divisibility: divisibility as u8,
            premine,
            terms,
            symbol,
            spacers: spacers as u32,
            edict: Edict { output: output as u32, amount: supply },
        },
    )
}

fn same_bytes(a: &[u8], b: &Vec<u8>) -> (r: bool)
    ensures
        r == (a@ == b@),
{
    if a.len() != b.len() {
        return false;
    }
    let mut i: usize = 0;
    while i < a.len()
        invariant
            i <= a@.len(),
            a@.len() == b@.len(),
            forall|j: int| 0 <= j < i ==> a@[j] == b@[j],
        decreases a@.len() - i,
    {
        if a[i] != b[i] {
            return false;
        }
        i += 1;
    }
    assert(a@ =~= b@);
    true
}

/// Reads a message back into the directive it stands for. Bytes that are not
/// the message of a valid directive, or that exceed the limit, give nothing.
pub fn decode(bytes: &[u8]) -> (r: Option<EtchingDirective>)
    ensures
        r == decode_spec(bytes@),
{
    proof {
        assert forall|d: EtchingDirective| encodes(d, bytes@) implies parse_message(bytes@)
            == Some(d) by {
            lemma_parse_message(d);
        }
    }
    if bytes.len() == 0 || bytes.len() > MAX_MESSAGE_LEN || bytes[0] != VERSION {
        return None;
    }
    let slots = match read_fields(bytes) {
        Some(s) => s,
        None => return None,
    };
    let d = match directive_from_slots(&slots) {
        Some(d) => d,
        None => return None,
    };
    if d.divisibility > crate::directive::MAX_DIVISIBILITY {
        return None;
    }
    // A directive has one message only: what was read is written again and
    // must give the same bytes.
    let again = message_bytes(&d);
    if same_bytes(bytes, &again) {
        assert(encodes(d, bytes@));
        Some(d)
    } else {
        None
    }
}

} // verus!
