use rune_etching::commitment::{commitment, confirmations_required, reveal_permitted};
use rune_etching::directive::{
    Edict, EncodingError, EtchingDirective, EtchingTerms, SpacedName, ValidationError,
};
use rune_etching::encoder::{decode, encode};
use rune_etching::varint::{push_varint, read_varint};

fn plain() -> EtchingDirective {
    EtchingDirective {
        name: 5,
        divisibility: 0,
        premine: 0,
        terms: None,
        symbol: '$',
        spacers: 0,
        edict: Edict { output: 0, amount: 0 },
    }
}

fn with_terms() -> EtchingDirective {
    EtchingDirective {
        name: 300,
        divisibility: 2,
        premine: 1000,
        terms: Some(EtchingTerms {
            amount: 10,
            cap: 20,
            height_start: Some(1),
            height_end: None,
            offset_start: None,
            offset_end: Some(128),
        }),
        symbol: '¢',
        spacers: 1,
        edict: Edict { output: 1, amount: 7 },
    }
}

fn varint_of(n: u128) -> Vec<u8> {
    let mut out = Vec::new();
    push_varint(&mut out, n);
    out
}

#[test]
fn varint_small_values_take_one_byte() {
    assert_eq!(varint_of(0), vec![0]);
    assert_eq!(varint_of(5), vec![5]);
    assert_eq!(varint_of(127), vec![0x7f]);
}

#[test]
fn varint_larger_values_continue() {
    assert_eq!(varint_of(128), vec![0x80, 0x01]);
    assert_eq!(varint_of(300), vec![0xac, 0x02]);
    assert_eq!(varint_of(1000), vec![0xe8, 0x07]);
}

#[test]
fn varint_appends_to_what_is_there() {
    let mut out = vec![9, 9];
    push_varint(&mut out, 128);
    assert_eq!(out, vec![9, 9, 0x80, 0x01]);
}

#[test]
fn varint_of_the_greatest_value() {
    let mut expected = vec![0xffu8; 18];
    expected.push(0x03);
    assert_eq!(varint_of(u128::MAX), expected);
    assert_eq!(read_varint(&expected, 0), Some((u128::MAX, 19)));
}

#[test]
fn varint_read_reports_the_end() {
    let bytes = vec![7, 0xac, 0x02, 4];
    assert_eq!(read_varint(&bytes, 0), Some((7, 1)));
    assert_eq!(read_varint(&bytes, 1), Some((300, 3)));
    assert_eq!(read_varint(&bytes, 3), Some((4, 4)));
    assert_eq!(read_varint(&bytes, 4), None);
}

#[test]
fn varint_read_refuses_overflow_and_truncation() {
    let mut too_big = vec![0xffu8; 18];
    too_big.push(0x04);
    assert_eq!(read_varint(&too_big, 0), None);
    assert_eq!(read_varint(&[0x80, 0x80], 0), None);
}

#[test]
fn encode_plain_directive_exact_bytes() {
    let bytes = encode(&plain()).unwrap();
    assert_eq!(bytes, vec![1, 0, 1, 1, 5, 2, 0, 3, 0, 4, 36, 5, 0, 12, 0, 13, 0]);
}

#[test]
fn encode_directive_with_terms_exact_bytes() {
    let bytes = encode(&with_terms()).unwrap();
    assert_eq!(
        bytes,
        vec![
            1, 0, 3, 1, 0xac, 0x02, 2, 2, 3, 0xe8, 0x07, 4, 0xa2, 0x01, 5, 1, 6, 10, 7, 20, 8, 1,
            11, 0x80, 0x01, 12, 1, 13, 7
        ]
    );
}

#[test]
fn encode_is_deterministic() {
    assert_eq!(encode(&with_terms()), encode(&with_terms()));
}

#[test]
fn decode_inverts_encode() {
    for d in [plain(), with_terms()] {
        let bytes = encode(&d).unwrap();
        assert_eq!(decode(&bytes), Some(d));
        assert_eq!(encode(&decode(&bytes).unwrap()).unwrap(), bytes);
    }
}

#[test]
fn decode_keeps_a_symbol_beyond_ascii() {
    let mut d = plain();
    d.symbol = '\u{10FFFF}';
    let bytes = encode(&d).unwrap();
    assert_eq!(decode(&bytes).unwrap().symbol, '\u{10FFFF}');
}

#[test]
fn decode_refuses_a_surrogate_symbol() {
    // 0xD800 as a varint is 0x80 0xB0 0x03
    let bytes = vec![1, 0, 1, 1, 5, 2, 0, 3, 0, 4, 0x80, 0xb0, 0x03, 5, 0, 12, 0, 13, 0];
    assert_eq!(decode(&bytes), None);
}

#[test]
fn decode_refuses_malformed_bytes() {
    let good = vec![1u8, 0, 1, 1, 5, 2, 0, 3, 0, 4, 36, 5, 0, 12, 0, 13, 0];
    assert_eq!(decode(&good), Some(plain()));
    assert_eq!(decode(&[]), None);
    // another version
    let mut other = good.clone();
    other[0] = 2;
    assert_eq!(decode(&other), None);
    // a padded integer
    assert_eq!(decode(&[1, 0, 1, 1, 0x85, 0, 2, 0, 3, 0, 4, 36, 5, 0, 12, 0, 13, 0]), None);
    // fields out of order
    assert_eq!(decode(&[1, 1, 5, 0, 1, 2, 0, 3, 0, 4, 36, 5, 0, 12, 0, 13, 0]), None);
    // a field twice
    assert_eq!(decode(&[1, 0, 1, 1, 5, 1, 5, 2, 0, 3, 0, 4, 36, 5, 0, 12, 0, 13, 0]), None);
    // a field missing
    assert_eq!(decode(&[1, 0, 1, 1, 5, 2, 0, 3, 0, 4, 36, 5, 0, 12, 0]), None);
    // an unknown tag
    assert_eq!(decode(&[1, 0, 1, 1, 5, 2, 0, 3, 0, 4, 36, 5, 0, 12, 0, 13, 0, 14, 0]), None);
    // a tag without its value
    assert_eq!(decode(&[1, 0, 1, 1, 5, 2, 0, 3, 0, 4, 36, 5, 0, 12, 0, 13]), None);
    // terms without the flag
    assert_eq!(decode(&[1, 0, 1, 1, 5, 2, 0, 3, 0, 4, 36, 5, 0, 6, 1, 7, 1, 12, 0, 13, 0]), None);
    // the flag without terms
    assert_eq!(decode(&[1, 0, 3, 1, 5, 2, 0, 3, 0, 4, 36, 5, 0, 12, 0, 13, 0]), None);
}

#[test]
fn decode_refuses_divisibility_above_the_limit() {
    let mut d = plain();
    d.divisibility = 38;
    let bytes = encode(&d).unwrap();
    assert_eq!(decode(&bytes), Some(d));
    d.divisibility = 39;
    let bytes = encode(&d).unwrap();
    assert_eq!(decode(&bytes), None);
}

#[test]
fn encode_refuses_maximal_terms() {
    let mut d = plain();
    d.terms = Some(EtchingTerms {
        amount: u128::MAX,
        cap: u128::MAX,
        height_start: Some(u64::MAX),
        height_end: Some(u64::MAX),
        offset_start: Some(u64::MAX),
        offset_end: Some(u64::MAX),
    });
    assert_eq!(encode(&d), Err(EncodingError::MessageTooLarge { length: 101, limit: 82 }));
}

#[test]
fn encode_accepts_exactly_the_limit() {
    // 17 bytes for the plain fields with a one-byte name; a 19-byte name,
    // premine and supply add 54, and a spacer bitmap of five bytes adds 4,
    // and a symbol of three bytes adds 2: 77. Terms with one-byte amount and
    // cap add 4, which makes 81; one bound adds 2.
    let mut d = plain();
    d.name = u128::MAX;
    d.premine = u128::MAX;
    d.edict.amount = u128::MAX;
    d.spacers = u32::MAX;
    d.symbol = '\u{10FFFF}';
    d.terms = Some(EtchingTerms {
        amount: 1,
        cap: 1,
        height_start: None,
        height_end: None,
        offset_start: None,
        offset_end: None,
    });
    let bytes = encode(&d).unwrap();
    assert_eq!(bytes.len(), 81);
    assert_eq!(decode(&bytes), Some(d));
    let mut e = d;
    e.terms = Some(EtchingTerms {
        amount: 1,
        cap: 128,
        height_start: None,
        height_end: None,
        offset_start: None,
        offset_end: None,
    });
    assert_eq!(encode(&e).unwrap().len(), 82);
    assert_eq!(decode(&encode(&e).unwrap()), Some(e));
    let mut f = d;
    f.terms = Some(EtchingTerms {
        amount: 1,
        cap: 1,
        height_start: Some(0),
        height_end: None,
        offset_start: None,
        offset_end: None,
    });
    assert_eq!(encode(&f), Err(EncodingError::MessageTooLarge { length: 83, limit: 82 }));
}

#[test]
fn decode_refuses_more_than_the_limit() {
    let mut bytes = vec![1u8, 0, 1, 1, 5, 2, 0, 3, 0, 4, 36, 5, 0, 12, 0, 13, 0];
    while bytes.len() <= 82 {
        bytes.push(13);
        bytes.push(0);
    }
    assert_eq!(decode(&bytes), None);
}

#[test]
fn directive_new_checks_divisibility() {
    let name = SpacedName { name: 77, spacers: 3 };
    let edict = Edict { output: 0, amount: 9 };
    let d = EtchingDirective::new(name, 38, 4, None, 'R', edict).unwrap();
    assert_eq!(d.name, 77);
    assert_eq!(d.spacers, 3);
    assert_eq!(d.divisibility, 38);
    assert_eq!(d.premine, 4);
    assert_eq!(d.edict, edict);
    assert_eq!(d.spaced_name(), name);
    assert_eq!(
        EtchingDirective::new(name, 39, 4, None, 'R', edict),
        Err(ValidationError::DivisibilityOutOfRange { divisibility: 39, limit: 38 })
    );
}

#[test]
fn commitment_is_the_name_in_sixteen_bytes() {
    assert_eq!(commitment(0), vec![0u8; 16]);
    assert_eq!(commitment(0x0102), vec![2, 1, 0, 0, 0, 0, 0, 0, 0, 0, 0, 0, 0, 0, 0, 0]);
    assert_eq!(commitment(u128::MAX), vec![0xffu8; 16]);
    assert_eq!(commitment(1u128 << 120), vec![0, 0, 0, 0, 0, 0, 0, 0, 0, 0, 0, 0, 0, 0, 0, 1]);
}

#[test]
fn commitment_repeats_and_does_not_collide() {
    let mut seen: Vec<Vec<u8>> = Vec::new();
    let mut name: u128 = 1;
    for _ in 0..500 {
        let c = commitment(name);
        assert_eq!(c, commitment(name));
        assert_eq!(c.len(), 16);
        assert!(!seen.contains(&c));
        seen.push(c);
        name = name.wrapping_mul(6364136223846793005).wrapping_add(1442695040888963407);
    }
}

#[test]
fn confirmation_gate() {
    assert_eq!(confirmations_required(), 6);
    assert!(!reveal_permitted(0));
    assert!(!reveal_permitted(5));
    assert!(reveal_permitted(6));
    assert!(reveal_permitted(7));
}

#[test]
fn varint_read_accepts_padding_that_keeps_the_value() {
    let mut zero = vec![0x80u8; 25];
    zero.push(0);
    assert_eq!(read_varint(&zero, 0), Some((0, 26)));
    assert_eq!(read_varint(&zero, 20), Some((0, 26)));
    let mut padded = vec![0xffu8];
    padded.extend(vec![0x80u8; 20]);
    padded.push(0);
    assert_eq!(read_varint(&padded, 0), Some((127, 22)));
}

#[test]
fn varint_read_at_the_edge_of_the_range() {
    let mut top = vec![0x80u8; 18];
    top.push(0x03);
    assert_eq!(read_varint(&top, 0), Some((3u128 << 126, 19)));
    let mut over = vec![0x80u8; 18];
    over.push(0x04);
    assert_eq!(read_varint(&over, 0), None);
    let mut far = vec![0x80u8; 19];
    far.push(0x01);
    assert_eq!(read_varint(&far, 0), None);
    let mut carried = vec![0xffu8; 18];
    carried.push(0x83);
    carried.push(0x00);
    assert_eq!(read_varint(&carried, 0), Some((u128::MAX, 20)));
    let mut spilled = vec![0xffu8; 18];
    spilled.push(0x83);
    spilled.push(0x01);
    assert_eq!(read_varint(&spilled, 0), None);
}
