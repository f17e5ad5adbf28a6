//! Fields: the layer between bytes and messages.
//!
//! An encoded message is a run of fields. Each field starts with a key, a
//! variable-length number that packs the field's number with one of four
//! kinds of payload: a variable-length number, eight bytes, a counted run of
//! bytes, or four bytes. A reader that does not know a field's number can
//! still step over it, which is what lets a schema grow.
//!
//! The two group kinds of the format (3 and 4) are refused: no message of
//! this boundary ever held one.
use vstd::prelude::*;
use vstd::bytes::*;
use vstd::slice::*;
use crate::varint::{
    lemma_read_bounds, lemma_read_written, put_varint, read_varint, take_varint, varint,
};

verus! {

/// What one field carries.
pub enum WireValue {
    /// A variable-length number (kind 0).
    Varint(u64),
    /// Eight bytes, least significant first (kind 1).
    Fixed64(u64),
    /// A counted run of bytes (kind 2).
    Bytes(Seq<u8>),
    /// Four bytes, least significant first (kind 5).
    Fixed32(u32),
}

/// One field: its number and what it carries.
pub struct Field {
    pub number: u32,
    pub value: WireValue,
}

/// The executable form of [`WireValue`].
#[derive(Clone, Debug, PartialEq, Eq)]
pub enum RawValue {
    Varint(u64),
    Fixed64(u64),
    Bytes(Vec<u8>),
    Fixed32(u32),
}

impl View for RawValue {
    type V = WireValue;

    open spec fn view(&self) -> WireValue {
        match self {
            RawValue::Varint(v) => WireValue::Varint(*v),
            RawValue::Fixed64(v) => WireValue::Fixed64(*v),
            RawValue::Bytes(b) => WireValue::Bytes(b@),
            RawValue::Fixed32(v) => WireValue::Fixed32(*v),
        }
    }
}

/// The executable form of [`Field`].
#[derive(Clone, Debug, PartialEq, Eq)]
pub struct RawField {
    pub number: u32,
    pub value: RawValue,
}

impl View for RawField {
    type V = Field;

    open spec fn view(&self) -> Field {
        Field { number: self.number, value: self.value@ }
    }
}

/// The fields that a vector of raw fields stands for.
pub open spec fn models(fs: Seq<RawField>) -> Seq<Field> {
    Seq::new(fs.len(), |i: int| fs[i]@)
}

/// The largest field number the key format can carry.
pub const MAX_FIELD_NUMBER: u32 = 0x1FFF_FFFF;

/// The kind digit of a payload.
pub open spec fn kind_of(v: WireValue) -> nat {
    match v {
        WireValue::Varint(_) => 0,
        WireValue::Fixed64(_) => 1,
        WireValue::Bytes(_) => 2,
        WireValue::Fixed32(_) => 5,
    }
}

/// The key of a field: its number times eight, plus the kind digit.
pub open spec fn key_of(f: Field) -> nat {
    f.number as nat * 8 + kind_of(f.value)
}

/// The payload of a field as bytes.
pub open spec fn encode_value(v: WireValue) -> Seq<u8> {
    match v {
        WireValue::Varint(x) => varint(x as nat),
        WireValue::Fixed64(x) => spec_u64_to_le_bytes(x),
        WireValue::Bytes(b) => varint(b.len()) + b,
        WireValue::Fixed32(x) => spec_u32_to_le_bytes(x),
    }
}

/// One field as bytes: the key, then the payload.
pub open spec fn encode_field(f: Field) -> Seq<u8> {
    varint(key_of(f)) + encode_value(f.value)
}

/// A run of fields as bytes, one after the other.
pub open spec fn encode_fields(fs: Seq<Field>) -> Seq<u8>
    decreases fs.len(),
{
    if fs.len() == 0 {
        Seq::empty()
    } else {
        encode_field(fs[0]) + encode_fields(fs.drop_first())
    }
}

/// A field that survives a trip through bytes: its number is in the range
/// that a key can carry, and a run of bytes has a length that 64 bits hold.
pub open spec fn field_fits(f: Field) -> bool {
    &&& 1 <= f.number <= MAX_FIELD_NUMBER
    &&& match f.value {
        WireValue::Bytes(b) => b.len() <= u64::MAX,
        _ => true,
    }
}

/// Every field of the run fits.
pub open spec fn fields_fit(fs: Seq<Field>) -> bool {
    forall|i: int| 0 <= i < fs.len() ==> field_fits(#[trigger] fs[i])
}

/// Reads the payload of the given kind from the front of `bytes`: the
/// payload and the count of bytes it occupied.
pub open spec fn parse_value(kind: nat, bytes: Seq<u8>) -> Option<(WireValue, nat)> {
    if kind == 0 {
        match read_varint(bytes) {
            Some((v, n)) => Some((WireValue::Varint(v), n)),
            None => None,
        }
    } else if kind == 1 {
        if bytes.len() >= 8 {
            Some((WireValue::Fixed64(spec_u64_from_le_bytes(bytes.subrange(0, 8))), 8nat))
        } else {
            None
        }
    } else if kind == 2 {
        match read_varint(bytes) {
            Some((len, n)) => if n + len <= bytes.len() {
                Some(
                    (
                        WireValue::Bytes(bytes.subrange(n as int, (n + len) as int)),
                        (n + len) as nat,
                    ),
                )
            } else {
                None
            },
            None => None,
        }
    } else if kind == 5 {
        if bytes.len() >= 4 {
            Some((WireValue::Fixed32(spec_u32_from_le_bytes(bytes.subrange(0, 4))), 4nat))
        } else {
            None
        }
    } else {
        None
    }
}

/// Reads one field from the front of `bytes`: the field and the count of
/// bytes it occupied. Nothing where the key is malformed, exceeds 32 bits,
/// names field number zero or a kind other than 0, 1, 2 and 5, or where the
/// payload is malformed or cut short.
pub open spec fn parse_field(bytes: Seq<u8>) -> Option<(Field, nat)> {
    match read_varint(bytes) {
        None => None,
        Some((key, n)) => {
            if key > u32::MAX || key / 8 == 0 {
                None
            } else {
                match parse_value((key % 8) as nat, bytes.skip(n as int)) {
                    Some((value, m)) => Some((Field { number: (key / 8) as u32, value }, n + m)),
                    None => None,
                }
            }
        },
    }
}

/// Reads `bytes` as a run of fields, to the last byte.
pub open spec fn parse_fields(bytes: Seq<u8>) -> Option<Seq<Field>>
    decreases bytes.len(),
{
    if bytes.len() == 0 {
        Some(Seq::empty())
    } else {
        match parse_field(bytes) {
            None => None,
            Some((f, n)) => {
                if 0 < n <= bytes.len() {
                    match parse_fields(bytes.skip(n as int)) {
                        Some(rest) => Some(seq![f] + rest),
                        None => None,
                    }
                } else {
                    None
                }
            },
        }
    }
}

/// A parsed field took at least one byte and no more than there were.
pub proof fn lemma_parse_field_bounds(bytes: Seq<u8>)
    ensures
        match parse_field(bytes) {
            Some((f, n)) => 0 < n <= bytes.len() && 1 <= f.number <= MAX_FIELD_NUMBER,
            None => true,
        },
{
    lemma_read_bounds(bytes);
    match read_varint(bytes) {
        Some((key, n)) => {
            lemma_read_bounds(bytes.skip(n as int));
        },
        None => {},
    }
}

/// The encoding of two runs of fields, one after the other, is the two
/// encodings one after the other.
pub proof fn lemma_encode_fields_concat(a: Seq<Field>, b: Seq<Field>)
    ensures
        encode_fields(a + b) == encode_fields(a) + encode_fields(b),
    decreases a.len(),
{
    if a.len() == 0 {
        assert(a + b =~= b);
        assert(encode_fields(a) + encode_fields(b) =~= encode_fields(b));
    } else {
        assert((a + b).drop_first() =~= a.drop_first() + b);
        lemma_encode_fields_concat(a.drop_first(), b);
        assert(encode_fields(a + b) =~= encode_fields(a) + encode_fields(b));
    }
}

/// The encoding of a single field as a run.
pub proof fn lemma_encode_fields_one(f: Field)
    ensures
        encode_fields(seq![f]) == encode_field(f),
{
    reveal_with_fuel(encode_fields, 2);
    assert(seq![f].drop_first() =~= Seq::<Field>::empty());
    assert(encode_field(f) + Seq::<u8>::empty() =~= encode_field(f));
}

/// The run of bytes that a field carries is no longer than the encoding of
/// any run of fields that holds it.
pub proof fn lemma_payload_within(fs: Seq<Field>, i: int)
    requires
        0 <= i < fs.len(),
    ensures
        encode_field(fs[i]).len() <= encode_fields(fs).len(),
        match fs[i].value {
            WireValue::Bytes(b) => b.len() <= encode_fields(fs).len(),
            _ => true,
        },
    decreases fs.len(),
{
    if i == 0 {
    } else {
        lemma_payload_within(fs.drop_first(), i - 1);
    }
}

/// Parsing what one field was written as, whatever follows, gives the field back.
pub proof fn lemma_parse_written_field(f: Field, rest: Seq<u8>)
    requires
        field_fits(f),
    ensures
        parse_field(encode_field(f) + rest) == Some((f, encode_field(f).len())),
{
    let key = key_of(f);
    let body = encode_value(f.value);
    let all = encode_field(f) + rest;
    assert(all =~= varint(key) + (body + rest));
    lemma_read_written(key as u64, body + rest);
    let n = varint(key).len();
    assert(all.skip(n as int) =~= body + rest);
    assert(key / 8 == f.number && key % 8 == kind_of(f.value));
    lemma_auto_spec_u32_to_from_le_bytes();
    lemma_auto_spec_u64_to_from_le_bytes();
    match f.value {
        WireValue::Varint(x) => {
            lemma_read_written(x, rest);
        },
        WireValue::Fixed64(x) => {
            assert((body + rest).subrange(0, 8) =~= body);
        },
        WireValue::Bytes(b) => {
            assert(body + rest =~= varint(b.len()) + (b + rest));
            lemma_read_written(b.len() as u64, b + rest);
            let m = varint(b.len()).len();
            assert((body + rest).subrange(m as int, (m + b.len()) as int) =~= b);
        },
        WireValue::Fixed32(x) => {
            assert((body + rest).subrange(0, 4) =~= body);
        },
    }
}

/// Parsing what a run of fields was written as gives the run back.
pub proof fn lemma_parse_written(fs: Seq<Field>)
    requires
        fields_fit(fs),
    ensures
        parse_fields(encode_fields(fs)) == Some(fs),
    decreases fs.len(),
{
    if fs.len() == 0 {
        assert(fs =~= Seq::empty());
    } else {
        let rest = encode_fields(fs.drop_first());
        lemma_parse_written_field(fs[0], rest);
        lemma_parse_field_bounds(encode_fields(fs));
        let n = encode_field(fs[0]).len();
        assert(encode_fields(fs).skip(n as int) =~= rest);
        assert(fields_fit(fs.drop_first())) by {
            assert forall|i: int| 0 <= i < fs.drop_first().len() implies field_fits(
                #[trigger] fs.drop_first()[i],
            ) by {
                assert(fs.drop_first()[i] == fs[i + 1]);
            }
        }
        lemma_parse_written(fs.drop_first());
        assert(seq![fs[0]] + fs.drop_first() =~= fs);
    }
}

/// Appends every byte of `data`.
pub fn put_bytes(out: &mut Vec<u8>, data: &[u8])
    ensures
        final(out)@ == old(out)@ + data@,
{
    let mut i: usize = 0;
    while i < data.len()
        invariant
            i <= data.len(),
            out@ == old(out)@ + data@.take(i as int),
        decreases data.len() - i,
    {
        let ghost before = out@;
        out.push(data[i]);
        proof {
            assert(before.push(data@[i as int]) =~= old(out)@ + data@.take(i + 1));
        }
        i += 1;
    }
    proof {
        assert(data@.take(data.len() as int) =~= data@);
    }
}

/// The kind digit of a raw payload.
fn kind_digit(v: &RawValue) -> (r: u64)
    ensures
        r == kind_of(v@),
{
    match v {
        RawValue::Varint(_) => 0,
        RawValue::Fixed64(_) => 1,
        RawValue::Bytes(_) => 2,
        RawValue::Fixed32(_) => 5,
    }
}

/// Appends one field in its written form.
pub fn put_field(out: &mut Vec<u8>, f: &RawField)
    ensures
        final(out)@ == old(out)@ + encode_field(f@),
{
    let ghost start = out@;
    let key: u64 = (f.number as u64) * 8 + kind_digit(&f.value);
    put_varint(out, key);
    let ghost mid = out@;
    match &f.value {
        RawValue::Varint(x) => {
            put_varint(out, *x);
        },
        RawValue::Fixed64(x) => {
            let b = u64_to_le_bytes(*x);
            put_bytes(out, b.as_slice());
        },
        RawValue::Bytes(b) => {
            put_varint(out, b.len() as u64);
            put_bytes(out, b.as_slice());
            proof {
                assert(out@ =~= mid + (varint(b@.len()) + b@));
            }
        },
        RawValue::Fixed32(x) => {
            let b = u32_to_le_bytes(*x);
            put_bytes(out, b.as_slice());
        },
    }
    proof {
        assert(out@ =~= start + encode_field(f@));
    }
}

/// Writes a run of fields.
pub fn emit(fields: &Vec<RawField>) -> (out: Vec<u8>)
    ensures
        out@ == encode_fields(models(fields@)),
{
    let mut out: Vec<u8> = Vec::new();
    let mut i: usize = 0;
    let ghost all = models(fields@);
    proof {
        assert(all.take(0) =~= Seq::<Field>::empty());
    }
    while i < fields.len()
        invariant
            i <= fields.len(),
            all == models(fields@),
            out@ == encode_fields(all.take(i as int)),
        decreases fields.len() - i,
    {
        put_field(&mut out, &fields[i]);
        proof {
            let f = fields@[i as int]@;
            assert(all.take(i + 1) =~= all.take(i as int) + seq![f]);
            lemma_encode_fields_concat(all.take(i as int), seq![f]);
            lemma_encode_fields_one(f);
        }
        i += 1;
    }
    proof {
        assert(all.take(fields.len() as int) =~= all);
    }
    out
}

/// Reads the payload of the given kind at `start`: the payload and the
/// position after it.
fn take_value(kind: u64, bytes: &[u8], start: usize) -> (r: Option<(RawValue, usize)>)
    requires
        start <= bytes.len(),
    ensures
        match parse_value(kind as nat, bytes@.skip(start as int)) {
            Some((v, n)) => r is Some && r.unwrap().0@ == v && r.unwrap().1 == start + n,
            None => r is None,
        },
{
    let ghost s = bytes@.skip(start as int);
    let left: usize = bytes.len() - start;
    proof {
        lemma_read_bounds(s);
    }
    if kind == 0 {
        match take_varint(bytes, start) {
            Some((v, next)) => Some((RawValue::Varint(v), next)),
            None => None,
        }
    } else if kind == 1 {
        if left >= 8 {
            let part = slice_subrange(bytes, start, start + 8);
            proof {
                assert(part@ =~= s.subrange(0, 8));
            }
            Some((RawValue::Fixed64(u64_from_le_bytes(part)), start + 8))
        } else {
            None
        }
    } else if kind == 2 {
        match take_varint(bytes, start) {
            Some((len, next)) => {
                if len <= (bytes.len() - next) as u64 {
                    let end: usize = next + len as usize;
                    let part = slice_subrange(bytes, next, end);
                    proof {
                        assert(part@ =~= s.subrange(next - start, next - start + len));
                    }
                    Some((RawValue::Bytes(slice_to_vec(part)), end))
                } else {
                    None
                }
            },
            None => None,
        }
    } else if kind == 5 {
        if left >= 4 {
            let part = slice_subrange(bytes, start, start + 4);
            proof {
                assert(part@ =~= s.subrange(0, 4));
            }
            Some((RawValue::Fixed32(u32_from_le_bytes(part)), start + 4))
        } else {
            None
        }
    } else {
        None
    }
}

/// Reads one field at `start`: the field and the position after it.
pub fn take_field(bytes: &[u8], start: usize) -> (r: Option<(RawField, usize)>)
    requires
        start <= bytes.len(),
    ensures
        match parse_field(bytes@.skip(start as int)) {
            Some((f, n)) => r is Some && r.unwrap().0@ == f && r.unwrap().1 == start + n,
            None => r is None,
        },
{
    let ghost s = bytes@.skip(start as int);
    match take_varint(bytes, start) {
        None => None,
        Some((key, next)) => {
            proof {
                lemma_read_bounds(s);
                assert(s.skip(next - start) =~= bytes@.skip(next as int));
            }
            if key > 0xFFFF_FFFF || key / 8 == 0 {
                None
            } else {
                match take_value(key % 8, bytes, next) {
                    Some((value, end)) => Some(
                        (RawField { number: (key / 8) as u32, value }, end),
                    ),
                    None => None,
                }
            }
        },
    }
}

/// Reads `bytes` as a run of fields, to the last byte.
pub fn parse(bytes: &[u8]) -> (r: Option<Vec<RawField>>)
    ensures
        match parse_fields(bytes@) {
            Some(fs) => r is Some && models(r.unwrap()@) == fs,
            None => r is None,
        },
{
    let mut fields: Vec<RawField> = Vec::new();
    let mut pos: usize = 0;
    proof {
        assert(bytes@.skip(0) =~= bytes@);
        assert(models(fields@) =~= Seq::<Field>::empty());
    }
    while pos < bytes.len()
        invariant
            pos <= bytes.len(),
            parse_fields(bytes@) == (match parse_fields(bytes@.skip(pos as int)) {
                Some(rest) => Some(models(fields@) + rest),
                None => None,
            }),
        decreases bytes.len() - pos,
    {
        let ghost s = bytes@.skip(pos as int);
        proof {
            lemma_parse_field_bounds(s);
        }
        match take_field(bytes, pos) {
            None => {
                return None;
            },
            Some((f, next)) => {
                let ghost before = models(fields@);
                proof {
                    assert(s.skip(next - pos) =~= bytes@.skip(next as int));
                }
                fields.push(f);
                proof {
                    assert(models(fields@) =~= before + seq![f@]);
                    match parse_fields(bytes@.skip(next as int)) {
                        Some(rest) => {
                            assert(before + (seq![f@] + rest) =~= models(fields@) + rest);
                        },
                        None => {},
                    }
                }
                pos = next;
            },
        }
    }
    proof {
        assert(models(fields@) + Seq::<Field>::empty() =~= models(fields@));
    }
    Some(fields)
}

} // verus!
