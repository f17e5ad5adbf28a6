//! Numbers and fields on the wire, held against hand-computed bytes and
//! against what prost writes and reads.
use shared_core::varint::{put_varint, take_varint};
use shared_core::wire::{emit, parse, put_bytes, put_field, take_field, RawField, RawValue};

fn written(value: u64) -> Vec<u8> {
    let mut out = Vec::new();
    put_varint(&mut out, value);
    out
}

#[test]
fn varint_small_values_take_one_byte() {
    assert_eq!(written(0), vec![0x00]);
    assert_eq!(written(1), vec![0x01]);
    assert_eq!(written(127), vec![0x7F]);
}

#[test]
fn varint_exact_bytes() {
    assert_eq!(written(128), vec![0x80, 0x01]);
    assert_eq!(written(300), vec![0xAC, 0x02]);
    assert_eq!(written(16_383), vec![0xFF, 0x7F]);
    assert_eq!(written(16_384), vec![0x80, 0x80, 0x01]);
    assert_eq!(
        written(u64::MAX),
        vec![0xFF, 0xFF, 0xFF, 0xFF, 0xFF, 0xFF, 0xFF, 0xFF, 0xFF, 0x01]
    );
}

#[test]
fn varint_appends_to_what_is_there() {
    let mut out = vec![9, 9];
    put_varint(&mut out, 300);
    assert_eq!(out, vec![9, 9, 0xAC, 0x02]);
}

#[test]
fn varint_agrees_with_prost_on_writing() {
    let values: [u64; 12] = [
        0,
        1,
        127,
        128,
        255,
        300,
        65_535,
        1 << 21,
        (1 << 32) - 1,
        1 << 35,
        (1 << 63) + 5,
        u64::MAX,
    ];
    for v in values {
        let mut theirs = Vec::new();
        prost::encoding::encode_varint(v, &mut theirs);
        assert_eq!(written(v), theirs, "value {v}");
    }
}

#[test]
fn varint_read_gives_value_and_next_position() {
    let bytes = [0xAC, 0x02, 0x07];
    assert_eq!(take_varint(&bytes, 0), Some((300, 2)));
    assert_eq!(take_varint(&bytes, 2), Some((7, 3)));
    assert_eq!(take_varint(&bytes, 3), None);
}

#[test]
fn varint_read_accepts_padded_forms() {
    assert_eq!(take_varint(&[0x80, 0x00], 0), Some((0, 2)));
    assert_eq!(take_varint(&[0x81, 0x80, 0x00], 0), Some((1, 3)));
}

#[test]
fn varint_read_refuses_what_ends_early() {
    assert_eq!(take_varint(&[], 0), None);
    assert_eq!(take_varint(&[0x80], 0), None);
    assert_eq!(take_varint(&[0xFF, 0xFF], 0), None);
}

#[test]
fn varint_read_refuses_more_than_ten_bytes() {
    let eleven = [0x80, 0x80, 0x80, 0x80, 0x80, 0x80, 0x80, 0x80, 0x80, 0x80, 0x00];
    assert_eq!(take_varint(&eleven, 0), None);
}

#[test]
fn varint_read_refuses_a_value_beyond_64_bits() {
    let max = [0xFF, 0xFF, 0xFF, 0xFF, 0xFF, 0xFF, 0xFF, 0xFF, 0xFF, 0x01];
    assert_eq!(take_varint(&max, 0), Some((u64::MAX, 10)));
    let over = [0xFF, 0xFF, 0xFF, 0xFF, 0xFF, 0xFF, 0xFF, 0xFF, 0xFF, 0x02];
    assert_eq!(take_varint(&over, 0), None);
    let high = [0x80, 0x80, 0x80, 0x80, 0x80, 0x80, 0x80, 0x80, 0x80, 0x7F];
    assert_eq!(take_varint(&high, 0), None);
}

#[test]
fn varint_agrees_with_prost_on_reading() {
    let inputs: [&[u8]; 9] = [
        &[0x00],
        &[0x7F],
        &[0x80, 0x01],
        &[0x80, 0x00],
        &[0x80],
        &[],
        &[0xFF, 0xFF, 0xFF, 0xFF, 0xFF, 0xFF, 0xFF, 0xFF, 0xFF, 0x01],
        &[0xFF, 0xFF, 0xFF, 0xFF, 0xFF, 0xFF, 0xFF, 0xFF, 0xFF, 0x02],
        &[0x80, 0x80, 0x80, 0x80, 0x80, 0x80, 0x80, 0x80, 0x80, 0x80, 0x00],
    ];
    for input in inputs {
        let mut buf: &[u8] = input;
        let theirs = prost::encoding::decode_varint(&mut buf).ok();
        let ours = take_varint(input, 0).map(|(v, _)| v);
        assert_eq!(ours, theirs, "input {input:?}");
    }
}

#[test]
fn varint_round_trip() {
    for shift in 0..64 {
        let v = (1u64 << shift) | 1;
        let bytes = written(v);
        assert_eq!(take_varint(&bytes, 0), Some((v, bytes.len())));
    }
}

#[test]
fn put_bytes_appends_all() {
    let mut out = vec![1];
    put_bytes(&mut out, &[2, 3]);
    put_bytes(&mut out, &[]);
    assert_eq!(out, vec![1, 2, 3]);
}

#[test]
fn field_exact_bytes_for_each_kind() {
    let mut out = Vec::new();
    put_field(&mut out, &RawField { number: 1, value: RawValue::Varint(150) });
    assert_eq!(out, vec![0x08, 0x96, 0x01]);

    let mut out = Vec::new();
    put_field(&mut out, &RawField { number: 2, value: RawValue::Bytes(b"hi".to_vec()) });
    assert_eq!(out, vec![0x12, 0x02, b'h', b'i']);

    let mut out = Vec::new();
    put_field(&mut out, &RawField { number: 3, value: RawValue::Fixed32(0x4000_0000) });
    assert_eq!(out, vec![0x1D, 0x00, 0x00, 0x00, 0x40]);

    let mut out = Vec::new();
    put_field(&mut out, &RawField { number: 4, value: RawValue::Fixed64(1) });
    assert_eq!(out, vec![0x21, 1, 0, 0, 0, 0, 0, 0, 0]);
}

#[test]
fn field_key_agrees_with_prost() {
    for number in [1u32, 15, 16, 2047, 2048, (1 << 29) - 1] {
        let mut ours = Vec::new();
        put_field(&mut ours, &RawField { number, value: RawValue::Varint(0) });
        let mut theirs = Vec::new();
        prost::encoding::uint64::encode(number, &0u64, &mut theirs);
        assert_eq!(ours, theirs, "field {number}");
    }
}

#[test]
fn fields_round_trip_through_bytes() {
    let fields = vec![
        RawField { number: 1, value: RawValue::Varint(u64::MAX) },
        RawField { number: 2, value: RawValue::Bytes(vec![]) },
        RawField { number: 300, value: RawValue::Bytes(vec![0xFF; 200]) },
        RawField { number: 4, value: RawValue::Fixed32(7) },
        RawField { number: (1 << 29) - 1, value: RawValue::Fixed64(u64::MAX) },
        RawField { number: 1, value: RawValue::Varint(0) },
    ];
    let bytes = emit(&fields);
    assert_eq!(parse(&bytes), Some(fields));
}

#[test]
fn parse_of_nothing_is_no_field() {
    assert_eq!(parse(&[]), Some(vec![]));
    assert_eq!(emit(&vec![]), Vec::<u8>::new());
}

#[test]
fn take_field_gives_field_and_next_position() {
    let bytes = [0x08, 0x01, 0x12, 0x01, 0x61];
    assert_eq!(
        take_field(&bytes, 0),
        Some((RawField { number: 1, value: RawValue::Varint(1) }, 2))
    );
    assert_eq!(
        take_field(&bytes, 2),
        Some((RawField { number: 2, value: RawValue::Bytes(vec![0x61]) }, 5))
    );
    assert_eq!(take_field(&bytes, 5), None);
}

#[test]
fn parse_refuses_field_number_zero() {
    assert_eq!(parse(&[0x00, 0x01]), None);
    assert_eq!(parse(&[0x02, 0x00]), None);
}

#[test]
fn parse_refuses_a_key_beyond_32_bits() {
    // key 2^32: field number 2^29, kind 0
    assert_eq!(parse(&[0x80, 0x80, 0x80, 0x80, 0x10, 0x00]), None);
    // the largest key: field number 2^29 - 1, kind 0
    assert_eq!(
        parse(&[0xF8, 0xFF, 0xFF, 0xFF, 0x0F, 0x00]),
        Some(vec![RawField { number: (1 << 29) - 1, value: RawValue::Varint(0) }])
    );
}

#[test]
fn parse_refuses_the_group_kinds_and_unknown_kinds() {
    assert_eq!(parse(&[0x0B]), None); // field 1, kind 3
    assert_eq!(parse(&[0x0C]), None); // field 1, kind 4
    assert_eq!(parse(&[0x0E, 0x00]), None); // field 1, kind 6
    assert_eq!(parse(&[0x0F, 0x00]), None); // field 1, kind 7
}

#[test]
fn parse_refuses_payloads_cut_short() {
    assert_eq!(parse(&[0x08]), None);
    assert_eq!(parse(&[0x12, 0x03, 0x61, 0x62]), None);
    assert_eq!(parse(&[0x1D, 0x00, 0x00, 0x00]), None);
    assert_eq!(parse(&[0x21, 0, 0, 0, 0, 0, 0, 0]), None);
    assert_eq!(parse(&[0x12]), None);
}

#[test]
fn parse_refuses_a_length_beyond_the_buffer() {
    assert_eq!(
        parse(&[0x12, 0xFF, 0xFF, 0xFF, 0xFF, 0xFF, 0xFF, 0xFF, 0xFF, 0xFF, 0x01]),
        None
    );
}
