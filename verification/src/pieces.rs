//! The building blocks that message types are made of: how one value of a
//! message becomes fields, and how the payload of a field becomes a value.
//!
//! A plain field is left out when its value is the default (zero, `false`,
//! empty), so that a reader which finds no such field ends with the same
//! value. A field with presence (an arm of a choice, an optional value) is
//! written whatever it holds. A list is written as one field per item, or,
//! for numbers, as one field that packs them all.
use vstd::prelude::*;
use vstd::slice::slice_to_vec;
use vstd::utf8::{
    decode_utf8, encode_utf8, encode_utf8_decode_utf8, encode_utf8_valid_utf8, valid_utf8,
};
use crate::message::{
    decode_onto, decoded_onto, encode, encoded, fold, lemma_fold_append, lemma_fold_short,
    numbered, Message,
};
use crate::varint::{
    lemma_read_bounds, lemma_read_written, put_varint, read_varint, take_varint, varint,
};
use crate::wire::{
    encode_field, encode_fields, lemma_encode_fields_concat, lemma_encode_fields_one, models,
    Field, RawField, RawValue, WireValue, MAX_FIELD_NUMBER,
};

verus! {

/// The views of the items of a sequence, in order.
pub open spec fn views<T: View>(s: Seq<T>) -> Seq<T::V> {
    Seq::new(s.len(), |i: int| s[i]@)
}

/// The view of an optional value.
pub open spec fn option_view<T: View>(o: Option<T>) -> Option<T::V> {
    match o {
        Some(x) => Some(x@),
        None => None,
    }
}

/// An optional 32-bit number as an optional 64-bit number.
pub open spec fn widen(o: Option<u32>) -> Option<u64> {
    match o {
        Some(x) => Some(x as u64),
        None => None,
    }
}

/// An optional message, or the blank message where there is none.
pub open spec fn or_blank<M: Message>(o: Option<M::V>) -> M::V {
    match o {
        Some(x) => x,
        None => M::blank(),
    }
}

/// The low 32 bits of a number.
pub open spec fn low32(v: u64) -> u32 {
    (v % 0x1_0000_0000) as u32
}

/// A run of one field.
pub open spec fn one(n: u32, v: WireValue) -> Seq<Field> {
    seq![Field { number: n, value: v }]
}

/// A plain text field: left out when the text is empty.
pub open spec fn text_piece(n: u32, s: Seq<char>) -> Seq<Field> {
    if s.len() == 0 {
        Seq::empty()
    } else {
        one(n, WireValue::Bytes(encode_utf8(s)))
    }
}

/// A plain bytes field: left out when there are no bytes.
pub open spec fn bytes_piece(n: u32, b: Seq<u8>) -> Seq<Field> {
    if b.len() == 0 {
        Seq::empty()
    } else {
        one(n, WireValue::Bytes(b))
    }
}

/// A plain number field: left out when the number is zero.
pub open spec fn number_piece(n: u32, v: u64) -> Seq<Field> {
    if v == 0 {
        Seq::empty()
    } else {
        one(n, WireValue::Varint(v))
    }
}

/// A plain four-byte field: left out when all its bits are zero.
pub open spec fn fixed32_piece(n: u32, v: u32) -> Seq<Field> {
    if v == 0 {
        Seq::empty()
    } else {
        one(n, WireValue::Fixed32(v))
    }
}

/// A text field with presence.
pub open spec fn present_text(n: u32, s: Seq<char>) -> Seq<Field> {
    one(n, WireValue::Bytes(encode_utf8(s)))
}

/// A bytes field with presence; also how a nested message is written,
/// `b` being its written form.
pub open spec fn present_bytes(n: u32, b: Seq<u8>) -> Seq<Field> {
    one(n, WireValue::Bytes(b))
}

/// A number field with presence.
pub open spec fn present_number(n: u32, v: u64) -> Seq<Field> {
    one(n, WireValue::Varint(v))
}

/// A truth value as a number.
pub open spec fn flag_number(b: bool) -> u64 {
    if b {
        1
    } else {
        0
    }
}

/// An optional text field.
pub open spec fn optional_text(n: u32, s: Option<Seq<char>>) -> Seq<Field> {
    match s {
        Some(t) => present_text(n, t),
        None => Seq::empty(),
    }
}

/// An optional number field.
pub open spec fn optional_number(n: u32, v: Option<u64>) -> Seq<Field> {
    match v {
        Some(x) => present_number(n, x),
        None => Seq::empty(),
    }
}

/// An optional nested message.
pub open spec fn optional_nested<M: Message>(n: u32, o: Option<M::V>) -> Seq<Field> {
    match o {
        Some(x) => present_bytes(n, encoded::<M>(x)),
        None => Seq::empty(),
    }
}

/// A list of texts: one field each.
pub open spec fn text_list(n: u32, items: Seq<Seq<char>>) -> Seq<Field> {
    Seq::new(
        items.len(),
        |i: int| Field { number: n, value: WireValue::Bytes(encode_utf8(items[i])) },
    )
}

/// A list of nested messages, given in their written forms: one field each.
pub open spec fn nested_list(n: u32, payloads: Seq<Seq<u8>>) -> Seq<Field> {
    Seq::new(payloads.len(), |i: int| Field { number: n, value: WireValue::Bytes(payloads[i]) })
}

/// The written forms of the items of a list of messages.
pub open spec fn encoded_list<M: Message>(items: Seq<M::V>) -> Seq<Seq<u8>> {
    Seq::new(items.len(), |i: int| encoded::<M>(items[i]))
}

/// Numbers packed one after the other.
pub open spec fn packed_numbers(values: Seq<u32>) -> Seq<u8>
    decreases values.len(),
{
    if values.len() == 0 {
        Seq::empty()
    } else {
        packed_numbers(values.drop_last()) + varint(values.last() as nat)
    }
}

/// The numbers that are packed in `bytes`, each cut to its low 32 bits.
pub open spec fn unpacked_numbers(bytes: Seq<u8>) -> Option<Seq<u32>>
    decreases bytes.len(),
{
    if bytes.len() == 0 {
        Some(Seq::empty())
    } else {
        match read_varint(bytes) {
            Some((v, n)) => if 0 < n <= bytes.len() {
                match unpacked_numbers(bytes.skip(n as int)) {
                    Some(rest) => Some(seq![low32(v)] + rest),
                    None => None,
                }
            } else {
                None
            },
            None => None,
        }
    }
}

/// A list of numbers: left out when empty, else one field that packs them.
pub open spec fn packed_piece(n: u32, values: Seq<u32>) -> Seq<Field> {
    if values.len() == 0 {
        Seq::empty()
    } else {
        one(n, WireValue::Bytes(packed_numbers(values)))
    }
}

/// The text that a payload holds: a run of bytes that is valid UTF-8.
pub open spec fn as_text(v: WireValue) -> Option<Seq<char>> {
    match v {
        WireValue::Bytes(b) => if valid_utf8(b) {
            Some(decode_utf8(b))
        } else {
            None
        },
        _ => None,
    }
}

/// The bytes that a payload holds.
pub open spec fn as_bytes(v: WireValue) -> Option<Seq<u8>> {
    match v {
        WireValue::Bytes(b) => Some(b),
        _ => None,
    }
}

/// The 64-bit number that a payload holds.
pub open spec fn as_number(v: WireValue) -> Option<u64> {
    match v {
        WireValue::Varint(x) => Some(x),
        _ => None,
    }
}

/// The 32-bit number that a payload holds: the low 32 bits of what was written.
pub open spec fn as_u32(v: WireValue) -> Option<u32> {
    match v {
        WireValue::Varint(x) => Some(low32(x)),
        _ => None,
    }
}

/// The truth value that a payload holds: any number but zero is `true`.
pub open spec fn as_flag(v: WireValue) -> Option<bool> {
    match v {
        WireValue::Varint(x) => Some(x != 0),
        _ => None,
    }
}

/// The four bytes that a payload holds.
pub open spec fn as_fixed32(v: WireValue) -> Option<u32> {
    match v {
        WireValue::Fixed32(x) => Some(x),
        _ => None,
    }
}

/// The numbers that one field adds to a list of numbers: a single number,
/// or all that a run of bytes packs.
pub open spec fn as_packed(v: WireValue) -> Option<Seq<u32>> {
    match v {
        WireValue::Varint(x) => Some(seq![low32(x)]),
        WireValue::Bytes(b) => unpacked_numbers(b),
        _ => None,
    }
}

/// What a nested message becomes when a payload is read onto `base`.
pub open spec fn as_nested<M: Message>(base: M::V, v: WireValue) -> Option<M::V> {
    match v {
        WireValue::Bytes(b) => decoded_onto::<M>(base, b),
        _ => None,
    }
}

/// A run of one field: its length, its field, and its written form.
pub proof fn lemma_one(n: u32, v: WireValue)
    ensures
        one(n, v).len() == 1,
        one(n, v)[0] == (Field { number: n, value: v }),
        1 <= n <= MAX_FIELD_NUMBER ==> numbered(one(n, v)),
        encode_fields(one(n, v)) == encode_field(Field { number: n, value: v }),
{
    lemma_encode_fields_one(Field { number: n, value: v });
}

/// A text piece is empty for the empty text, else one field that reads as
/// the text.
pub proof fn lemma_text_piece(n: u32, s: Seq<char>)
    ensures
        s.len() == 0 ==> text_piece(n, s) == Seq::<Field>::empty() && s == Seq::<char>::empty(),
        s.len() != 0 ==> text_piece(n, s) == one(n, WireValue::Bytes(encode_utf8(s))),
        as_text(WireValue::Bytes(encode_utf8(s))) == Some(s),
        1 <= n <= MAX_FIELD_NUMBER ==> numbered(text_piece(n, s)),
{
    encode_utf8_valid_utf8(s);
    encode_utf8_decode_utf8(s);
    if s.len() == 0 {
        assert(s =~= Seq::<char>::empty());
    }
}

/// A bytes piece is empty for no bytes, else one field that holds them.
pub proof fn lemma_bytes_piece(n: u32, b: Seq<u8>)
    ensures
        b.len() == 0 ==> bytes_piece(n, b) == Seq::<Field>::empty() && b == Seq::<u8>::empty(),
        b.len() != 0 ==> bytes_piece(n, b) == one(n, WireValue::Bytes(b)),
        1 <= n <= MAX_FIELD_NUMBER ==> numbered(bytes_piece(n, b)),
{
    if b.len() == 0 {
        assert(b =~= Seq::<u8>::empty());
    }
}

/// The pieces of plain numbers are well numbered.
pub proof fn lemma_number_pieces(n: u32, v: u64, w: u32)
    ensures
        1 <= n <= MAX_FIELD_NUMBER ==> numbered(number_piece(n, v)),
        1 <= n <= MAX_FIELD_NUMBER ==> numbered(fixed32_piece(n, w)),
        1 <= n <= MAX_FIELD_NUMBER ==> numbered(present_number(n, v)),
        low32(w as u64) == w,
{
}

/// The pieces with presence are well numbered, and a present text reads as
/// the text.
pub proof fn lemma_present_pieces(n: u32, s: Seq<char>, b: Seq<u8>)
    ensures
        as_text(WireValue::Bytes(encode_utf8(s))) == Some(s),
        1 <= n <= MAX_FIELD_NUMBER ==> numbered(present_text(n, s)),
        1 <= n <= MAX_FIELD_NUMBER ==> numbered(present_bytes(n, b)),
        b.len() <= encode_fields(present_bytes(n, b)).len(),
{
    encode_utf8_valid_utf8(s);
    encode_utf8_decode_utf8(s);
    lemma_one(n, WireValue::Bytes(b));
}

/// The optional pieces are well numbered.
pub proof fn lemma_optional_pieces(n: u32, s: Option<Seq<char>>, v: Option<u64>)
    ensures
        1 <= n <= MAX_FIELD_NUMBER ==> numbered(optional_text(n, s)),
        1 <= n <= MAX_FIELD_NUMBER ==> numbered(optional_number(n, v)),
        s is Some ==> as_text(WireValue::Bytes(encode_utf8(s.unwrap()))) == s,
{
    if s is Some {
        encode_utf8_valid_utf8(s.unwrap());
        encode_utf8_decode_utf8(s.unwrap());
    }
}

/// An optional nested message is well numbered, and its written form is no
/// longer than the piece that holds it.
pub proof fn lemma_optional_nested<M: Message>(n: u32, o: Option<M::V>)
    ensures
        1 <= n <= MAX_FIELD_NUMBER ==> numbered(optional_nested::<M>(n, o)),
        o is Some ==> encoded::<M>(o.unwrap()).len() <= encode_fields(
            optional_nested::<M>(n, o),
        ).len(),
{
    if o is Some {
        lemma_one(n, WireValue::Bytes(encoded::<M>(o.unwrap())));
    }
}

/// Two well-numbered runs make a well-numbered run, and its written form
/// is as long as the two written forms together.
pub proof fn lemma_join(a: Seq<Field>, b: Seq<Field>)
    ensures
        numbered(a) && numbered(b) ==> numbered(a + b),
        encode_fields(a + b).len() == encode_fields(a).len() + encode_fields(b).len(),
{
    lemma_encode_fields_concat(a, b);
}

/// Reading a run that ends with the piece `p`: go on from where the fields
/// before it ended.
pub proof fn lemma_fold_then<M>(
    init: M,
    a: Seq<Field>,
    mid: M,
    p: Seq<Field>,
    step: spec_fn(M, Field) -> Option<M>,
)
    requires
        fold(init, a, step) == Some(mid),
    ensures
        fold(init, a + p, step) == fold(mid, p, step),
        p.len() == 0 ==> fold(init, a + p, step) == Some(mid),
        p.len() == 1 ==> fold(init, a + p, step) == step(mid, p[0]),
        numbered(a) && numbered(p) ==> numbered(a + p),
        encode_fields(a + p).len() == encode_fields(a).len() + encode_fields(p).len(),
{
    lemma_fold_append(init, a, p, step);
    lemma_fold_short(mid, p, step);
    lemma_join(a, p);
}

/// Packing two lists one after the other.
pub proof fn lemma_packed_concat(a: Seq<u32>, b: Seq<u32>)
    ensures
        packed_numbers(a + b) == packed_numbers(a) + packed_numbers(b),
    decreases b.len(),
{
    if b.len() == 0 {
        assert(a + b =~= a);
        assert(packed_numbers(a) + packed_numbers(b) =~= packed_numbers(a));
    } else {
        assert((a + b).drop_last() =~= a + b.drop_last());
        lemma_packed_concat(a, b.drop_last());
        assert(packed_numbers(a + b) =~= packed_numbers(a) + packed_numbers(b));
    }
}

/// Unpacking what was packed gives the numbers back.
pub proof fn lemma_unpacked_packed(values: Seq<u32>)
    ensures
        unpacked_numbers(packed_numbers(values)) == Some(values),
    decreases values.len(),
{
    if values.len() == 0 {
        assert(values =~= Seq::<u32>::empty());
    } else {
        let head = seq![values[0]];
        let tail = values.drop_first();
        assert(values =~= head + tail);
        lemma_packed_concat(head, tail);
        reveal_with_fuel(packed_numbers, 2);
        assert(head.drop_last() =~= Seq::<u32>::empty());
        assert(packed_numbers(head) =~= varint(values[0] as nat));
        lemma_read_written(values[0] as u64, packed_numbers(tail));
        lemma_read_bounds(packed_numbers(values));
        let n = varint(values[0] as nat).len();
        assert(packed_numbers(values).skip(n as int) =~= packed_numbers(tail));
        lemma_unpacked_packed(tail);
    }
}

/// A packed piece is empty for no numbers, else one field that unpacks to them.
pub proof fn lemma_packed_piece(n: u32, values: Seq<u32>)
    ensures
        values.len() == 0 ==> packed_piece(n, values) == Seq::<Field>::empty() && values
            == Seq::<u32>::empty(),
        values.len() != 0 ==>
            packed_piece(n, values) == one(n, WireValue::Bytes(packed_numbers(values))),
        as_packed(WireValue::Bytes(packed_numbers(values))) == Some(values),
        1 <= n <= MAX_FIELD_NUMBER ==> numbered(packed_piece(n, values)),
{
    lemma_unpacked_packed(values);
    if values.len() == 0 {
        assert(values =~= Seq::<u32>::empty());
    }
}

/// What a vector of raw fields stands for after one more is pushed.
pub proof fn lemma_models_push(fs: Seq<RawField>, f: RawField)
    ensures
        models(fs.push(f)) == models(fs) + seq![f@],
{
    assert(models(fs.push(f)) =~= models(fs) + seq![f@]);
}

/// `String::from_utf8` of std: text from bytes. The bytes are accepted
/// exactly when they are valid UTF-8, and the text is then the characters
/// that they encode.
#[verifier::external_body]
pub(crate) fn string_from_utf8(bytes: Vec<u8>) -> (r: Option<String>)
    ensures
        r is Some <==> valid_utf8(bytes@),
        r is Some ==> r.unwrap()@ == decode_utf8(bytes@),
{
    String::from_utf8(bytes).ok()
}

/// The bytes of a text.
pub fn text_bytes(s: &String) -> (r: Vec<u8>)
    ensures
        r@ == encode_utf8(s@),
{
    slice_to_vec(s.as_str().as_bytes())
}

/// A copy of a run of bytes.
pub fn copy_bytes(b: &Vec<u8>) -> (r: Vec<u8>)
    ensures
        r@ == b@,
{
    slice_to_vec(b.as_slice())
}

/// Reads a payload as text.
pub fn read_text(v: &RawValue) -> (r: Option<String>)
    ensures
        match as_text(v@) {
            Some(s) => r is Some && r.unwrap()@ == s,
            None => r is None,
        },
{
    match v {
        RawValue::Bytes(b) => string_from_utf8(copy_bytes(b)),
        _ => None,
    }
}

/// Reads a payload as bytes.
pub fn read_bytes(v: &RawValue) -> (r: Option<Vec<u8>>)
    ensures
        match as_bytes(v@) {
            Some(b) => r is Some && r.unwrap()@ == b,
            None => r is None,
        },
{
    match v {
        RawValue::Bytes(b) => Some(copy_bytes(b)),
        _ => None,
    }
}

/// Reads a payload as a 64-bit number.
pub fn read_number(v: &RawValue) -> (r: Option<u64>)
    ensures
        r == as_number(v@),
{
    match v {
        RawValue::Varint(x) => Some(*x),
        _ => None,
    }
}

/// Reads a payload as a 32-bit number.
pub fn read_u32(v: &RawValue) -> (r: Option<u32>)
    ensures
        r == as_u32(v@),
{
    match v {
        RawValue::Varint(x) => Some((*x % 0x1_0000_0000) as u32),
        _ => None,
    }
}

/// Reads a payload as a truth value.
pub fn read_flag(v: &RawValue) -> (r: Option<bool>)
    ensures
        r == as_flag(v@),
{
    match v {
        RawValue::Varint(x) => Some(*x != 0),
        _ => None,
    }
}

/// Reads a payload as four bytes.
pub fn read_fixed32(v: &RawValue) -> (r: Option<u32>)
    ensures
        r == as_fixed32(v@),
{
    match v {
        RawValue::Fixed32(x) => Some(*x),
        _ => None,
    }
}

/// Reads a payload as a nested message, onto `base`.
pub fn read_nested<M: Message>(base: M, v: &RawValue) -> (r: Option<M>)
    ensures
        match as_nested::<M>(base@, v@) {
            Some(m) => r is Some && r.unwrap()@ == m,
            None => r is None,
        },
{
    match v {
        RawValue::Bytes(b) => decode_onto(base, b.as_slice()),
        _ => None,
    }
}

/// Reads the numbers that one field adds to a list, and appends them.
pub fn read_packed(list: &mut Vec<u32>, v: &RawValue) -> (ok: bool)
    ensures
        match as_packed(v@) {
            Some(more) => ok && final(list)@ == old(list)@ + more,
            None => !ok,
        },
{
    match v {
        RawValue::Varint(x) => {
            list.push((*x % 0x1_0000_0000) as u32);
            proof {
                assert(list@ =~= old(list)@ + seq![low32(*x)]);
            }
            true
        },
        RawValue::Bytes(b) => {
            let mut pos: usize = 0;
            proof {
                assert(b@.skip(0) =~= b@);
                assert(list@ =~= old(list)@ + Seq::<u32>::empty());
            }
            while pos < b.len()
                invariant
                    pos <= b.len(),
                    v@ == WireValue::Bytes(b@),
                    unpacked_numbers(b@) == (match unpacked_numbers(b@.skip(pos as int)) {
                        Some(rest) => Some(list@.skip(old(list)@.len() as int) + rest),
                        None => None,
                    }),
                    list@.len() >= old(list)@.len(),
                    list@.take(old(list)@.len() as int) == old(list)@,
                decreases b.len() - pos,
            {
                let ghost s = b@.skip(pos as int);
                proof {
                    lemma_read_bounds(s);
                }
                match take_varint(b.as_slice(), pos) {
                    Some((x, next)) => {
                        let ghost before = list@;
                        list.push((x % 0x1_0000_0000) as u32);
                        proof {
                            let base = old(list)@.len() as int;
                            assert(s.skip(next - pos) =~= b@.skip(next as int));
                            assert(list@.take(base) =~= before.take(base));
                            assert(list@.skip(base) =~= before.skip(base) + seq![low32(x)]);
                            match unpacked_numbers(b@.skip(next as int)) {
                                Some(rest) => {
                                    assert(before.skip(base) + (seq![low32(x)] + rest)
                                        =~= list@.skip(base) + rest);
                                },
                                None => {},
                            }
                        }
                        pos = next;
                    },
                    None => {
                        proof {
                            assert(s.len() > 0);
                            assert(unpacked_numbers(s) is None);
                        }
                        return false;
                    },
                }
            }
            proof {
                let base = old(list)@.len() as int;
                assert(list@.skip(base) + Seq::<u32>::empty() =~= list@.skip(base));
                assert(list@ =~= list@.take(base) + list@.skip(base));
            }
            true
        },
        _ => false,
    }
}

/// Appends one field.
pub fn push_field(fs: &mut Vec<RawField>, n: u32, v: RawValue)
    ensures
        models(final(fs)@) == models(old(fs)@) + one(n, v@),
{
    let f = RawField { number: n, value: v };
    proof {
        lemma_models_push(fs@, f);
    }
    fs.push(f);
}

/// Appends a plain text field.
pub fn push_text(fs: &mut Vec<RawField>, n: u32, s: &String)
    ensures
        models(final(fs)@) == models(old(fs)@) + text_piece(n, s@),
{
    if !s.as_str().is_empty() {
        push_field(fs, n, RawValue::Bytes(text_bytes(s)));
    } else {
        proof {
            assert(models(fs@) + Seq::<Field>::empty() =~= models(fs@));
        }
    }
}

/// Appends a plain bytes field.
pub fn push_bytes(fs: &mut Vec<RawField>, n: u32, b: &Vec<u8>)
    ensures
        models(final(fs)@) == models(old(fs)@) + bytes_piece(n, b@),
{
    if b.len() != 0 {
        push_field(fs, n, RawValue::Bytes(copy_bytes(b)));
    } else {
        proof {
            assert(models(fs@) + Seq::<Field>::empty() =~= models(fs@));
        }
    }
}

/// Appends a plain number field.
pub fn push_number(fs: &mut Vec<RawField>, n: u32, v: u64)
    ensures
        models(final(fs)@) == models(old(fs)@) + number_piece(n, v),
{
    if v != 0 {
        push_field(fs, n, RawValue::Varint(v));
    } else {
        proof {
            assert(models(fs@) + Seq::<Field>::empty() =~= models(fs@));
        }
    }
}

/// Appends a plain four-byte field.
pub fn push_fixed32(fs: &mut Vec<RawField>, n: u32, v: u32)
    ensures
        models(final(fs)@) == models(old(fs)@) + fixed32_piece(n, v),
{
    if v != 0 {
        push_field(fs, n, RawValue::Fixed32(v));
    } else {
        proof {
            assert(models(fs@) + Seq::<Field>::empty() =~= models(fs@));
        }
    }
}

/// Appends a text field with presence.
pub fn push_present_text(fs: &mut Vec<RawField>, n: u32, s: &String)
    ensures
        models(final(fs)@) == models(old(fs)@) + present_text(n, s@),
{
    push_field(fs, n, RawValue::Bytes(text_bytes(s)));
}

/// Appends a bytes field with presence.
pub fn push_present_bytes(fs: &mut Vec<RawField>, n: u32, b: &Vec<u8>)
    ensures
        models(final(fs)@) == models(old(fs)@) + present_bytes(n, b@),
{
    push_field(fs, n, RawValue::Bytes(copy_bytes(b)));
}

/// Appends a number field with presence.
pub fn push_present_number(fs: &mut Vec<RawField>, n: u32, v: u64)
    ensures
        models(final(fs)@) == models(old(fs)@) + present_number(n, v),
{
    push_field(fs, n, RawValue::Varint(v));
}

/// Appends a nested message.
pub fn push_nested<M: Message>(fs: &mut Vec<RawField>, n: u32, m: &M)
    ensures
        models(final(fs)@) == models(old(fs)@) + present_bytes(n, encoded::<M>(m@)),
{
    push_field(fs, n, RawValue::Bytes(encode(m)));
}

/// A list without items.
pub fn no_items<T: View>() -> (r: Vec<T>)
    ensures
        r@.len() == 0,
        views(r@) == Seq::<T::V>::empty(),
{
    let r: Vec<T> = Vec::new();
    proof {
        assert(views(r@) =~= Seq::<T::V>::empty());
    }
    r
}

/// Appends one item to a list.
pub fn push_item<T: View>(list: &mut Vec<T>, x: T)
    ensures
        final(list)@ == old(list)@.push(x),
        views(final(list)@) == views(old(list)@).push(x@),
{
    list.push(x);
    proof {
        assert(views(list@) =~= views(old(list)@).push(x@));
    }
}

/// A truth value as a number.
pub fn flag_digit(b: bool) -> (r: u64)
    ensures
        r == flag_number(b),
{
    if b {
        1
    } else {
        0
    }
}

/// An optional 32-bit number as an optional 64-bit number.
pub fn widened(o: Option<u32>) -> (r: Option<u64>)
    ensures
        r == widen(o),
{
    match o {
        Some(x) => Some(x as u64),
        None => None,
    }
}

/// Appends an optional nested message.
pub fn push_optional_nested<M: Message>(fs: &mut Vec<RawField>, n: u32, o: &Option<M>)
    ensures
        models(final(fs)@) == models(old(fs)@) + optional_nested::<M>(n, option_view(*o)),
{
    match o {
        Some(x) => {
            push_nested(fs, n, x);
        },
        None => {
            proof {
                assert(models(fs@) + Seq::<Field>::empty() =~= models(fs@));
            }
        },
    }
}

/// Appends an optional text field.
pub fn push_optional_text(fs: &mut Vec<RawField>, n: u32, s: &Option<String>)
    ensures
        models(final(fs)@) == models(old(fs)@) + optional_text(n, option_view(*s)),
{
    match s {
        Some(t) => {
            push_present_text(fs, n, t);
        },
        None => {
            proof {
                assert(models(fs@) + Seq::<Field>::empty() =~= models(fs@));
            }
        },
    }
}

/// Appends an optional number field.
pub fn push_optional_number(fs: &mut Vec<RawField>, n: u32, v: Option<u64>)
    ensures
        models(final(fs)@) == models(old(fs)@) + optional_number(n, v),
{
    match v {
        Some(x) => {
            push_present_number(fs, n, x);
        },
        None => {
            proof {
                assert(models(fs@) + Seq::<Field>::empty() =~= models(fs@));
            }
        },
    }
}

/// Appends a list of texts.
pub fn push_text_list(fs: &mut Vec<RawField>, n: u32, items: &Vec<String>)
    ensures
        models(final(fs)@) == models(old(fs)@) + text_list(n, views(items@)),
{
    let ghost all = text_list(n, views(items@));
    let mut i: usize = 0;
    proof {
        assert(models(fs@) + all.take(0) =~= models(fs@));
    }
    while i < items.len()
        invariant
            i <= items.len(),
            all == text_list(n, views(items@)),
            models(fs@) == models(old(fs)@) + all.take(i as int),
        decreases items.len() - i,
    {
        let ghost before = models(fs@);
        push_present_text(fs, n, &items[i]);
        proof {
            assert(before + present_text(n, items@[i as int]@) =~= models(old(fs)@) + all.take(
                i + 1,
            ));
        }
        i += 1;
    }
    proof {
        assert(all.take(items.len() as int) =~= all);
    }
}

/// Appends a list of nested messages.
pub fn push_nested_list<M: Message>(fs: &mut Vec<RawField>, n: u32, items: &Vec<M>)
    ensures
        models(final(fs)@) == models(old(fs)@) + nested_list(
            n,
            encoded_list::<M>(views(items@)),
        ),
{
    let ghost all = nested_list(n, encoded_list::<M>(views(items@)));
    let mut i: usize = 0;
    proof {
        assert(models(fs@) + all.take(0) =~= models(fs@));
    }
    while i < items.len()
        invariant
            i <= items.len(),
            all == nested_list(n, encoded_list::<M>(views(items@))),
            models(fs@) == models(old(fs)@) + all.take(i as int),
        decreases items.len() - i,
    {
        let ghost before = models(fs@);
        push_nested(fs, n, &items[i]);
        proof {
            assert(before + present_bytes(n, encoded::<M>(items@[i as int]@)) =~= models(
                old(fs)@,
            ) + all.take(i + 1));
        }
        i += 1;
    }
    proof {
        assert(all.take(items.len() as int) =~= all);
    }
}

/// Appends a list of numbers.
pub fn push_packed(fs: &mut Vec<RawField>, n: u32, values: &Vec<u32>)
    ensures
        models(final(fs)@) == models(old(fs)@) + packed_piece(n, values@),
{
    if values.len() != 0 {
        let mut bytes: Vec<u8> = Vec::new();
        let mut i: usize = 0;
        proof {
            assert(values@.take(0) =~= Seq::<u32>::empty());
        }
        while i < values.len()
            invariant
                i <= values.len(),
                bytes@ == packed_numbers(values@.take(i as int)),
            decreases values.len() - i,
        {
            put_varint(&mut bytes, values[i] as u64);
            proof {
                assert(values@.take(i + 1).drop_last() =~= values@.take(i as int));
            }
            i += 1;
        }
        proof {
            assert(values@.take(values.len() as int) =~= values@);
        }
        push_field(fs, n, RawValue::Bytes(bytes));
    } else {
        proof {
            assert(models(fs@) + Seq::<Field>::empty() =~= models(fs@));
        }
    }
}

} // verus!
