//! Messages: typed values that are written as runs of fields.
//!
//! A message type says three things: what its value is when nothing has been
//! read (`blank`), what one field does to a value being read (`step`), and
//! which fields a value is written as (`fields`). Reading is then the same
//! for every type: parse the bytes into fields and apply `step` from the
//! first field to the last. A field whose number the type does not know
//! leaves the value as it was; a field that the type knows but cannot accept
//! fails the whole reading.
use vstd::prelude::*;
use crate::wire::{
    emit, encode_fields, field_fits, lemma_encode_fields_concat, lemma_parse_written,
    lemma_payload_within, models, parse, parse_fields, Field, RawField, MAX_FIELD_NUMBER,
};

verus! {

/// Applies `step` to `init` for each field of `fs`, first to last; nothing
/// as soon as one step gives nothing.
pub open spec fn fold<M>(init: M, fs: Seq<Field>, step: spec_fn(M, Field) -> Option<M>) -> Option<
    M,
>
    decreases fs.len(),
{
    if fs.len() == 0 {
        Some(init)
    } else {
        match fold(init, fs.drop_last(), step) {
            Some(m) => step(m, fs.last()),
            None => None,
        }
    }
}

/// Every field of the run has a number that a key can carry.
pub open spec fn numbered(fs: Seq<Field>) -> bool {
    forall|i: int| 0 <= i < fs.len() ==> 1 <= (#[trigger] fs[i]).number <= MAX_FIELD_NUMBER
}

/// A value that is written as a run of fields and read back from one.
pub trait Message: View + Sized {
    /// The value before any field has been read.
    spec fn blank() -> Self::V;

    /// What one field does to a value being read.
    spec fn step(m: Self::V, f: Field) -> Option<Self::V>;

    /// The fields that a value is written as.
    spec fn fields(m: Self::V) -> Seq<Field>;

    /// Whether the type has a field of this number.
    spec fn knows(number: u32) -> bool;

    /// A value before any field has been read.
    fn fresh() -> (r: Self)
        ensures
            r@ == Self::blank(),
    ;

    /// Applies one field to a value being read.
    fn absorb(self, f: &RawField) -> (r: Option<Self>)
        ensures
            match Self::step(self@, f@) {
                Some(m) => r is Some && r.unwrap()@ == m,
                None => r is None,
            },
    ;

    /// The fields that this value is written as.
    fn to_fields(&self) -> (r: Vec<RawField>)
        ensures
            models(r@) == Self::fields(self@),
    ;

    /// A field whose number the type does not know leaves the value as it
    /// was.
    proof fn lemma_unknown(m: Self::V, f: Field)
        requires
            !Self::knows(f.number),
        ensures
            Self::step(m, f) == Some(m),
    ;

    /// Reading the fields that a value is written as gives the value back,
    /// provided its written form is no longer than 64 bits can count.
    proof fn lemma_restore(m: Self::V)
        requires
            encode_fields(Self::fields(m)).len() <= u64::MAX,
        ensures
            numbered(Self::fields(m)),
            fold(Self::blank(), Self::fields(m), |x: Self::V, f: Field| Self::step(x, f)) == Some(
                m,
            ),
    ;
}

/// The step function of a message type, as a value.
pub open spec fn stepper<M: Message>() -> spec_fn(M::V, Field) -> Option<M::V> {
    |x: M::V, f: Field| M::step(x, f)
}

/// What reading the fields `fs` makes of `init`.
pub open spec fn merged<M: Message>(init: M::V, fs: Seq<Field>) -> Option<M::V> {
    fold(init, fs, stepper::<M>())
}

/// The bytes that a value is written as.
pub open spec fn encoded<M: Message>(m: M::V) -> Seq<u8> {
    encode_fields(M::fields(m))
}

/// What reading `bytes` makes of `init`: nothing where the bytes are not a
/// run of fields or where a field is refused.
pub open spec fn decoded_onto<M: Message>(init: M::V, bytes: Seq<u8>) -> Option<M::V> {
    match parse_fields(bytes) {
        Some(fs) => merged::<M>(init, fs),
        None => None,
    }
}

/// The value that `bytes` stand for.
pub open spec fn decoded<M: Message>(bytes: Seq<u8>) -> Option<M::V> {
    decoded_onto::<M>(M::blank(), bytes)
}

/// Folding over no field changes nothing; folding over one field is one step.
pub proof fn lemma_fold_short<M>(init: M, fs: Seq<Field>, step: spec_fn(M, Field) -> Option<M>)
    ensures
        fs.len() == 0 ==> fold(init, fs, step) == Some(init),
        fs.len() == 1 ==> fold(init, fs, step) == step(init, fs[0]),
{
    reveal_with_fuel(fold, 2);
}

/// Folding over two runs, one after the other, is folding over the second
/// from where the first ended.
pub proof fn lemma_fold_append<M>(
    init: M,
    a: Seq<Field>,
    b: Seq<Field>,
    step: spec_fn(M, Field) -> Option<M>,
)
    ensures
        fold(init, a + b, step) == match fold(init, a, step) {
            Some(m) => fold(m, b, step),
            None => None,
        },
    decreases b.len(),
{
    if b.len() == 0 {
        assert(a + b =~= a);
    } else {
        assert((a + b).drop_last() =~= a + b.drop_last());
        assert((a + b).last() == b.last());
        lemma_fold_append(init, a, b.drop_last(), step);
    }
}

/// Once a prefix of the fields has been refused, the whole run is.
pub proof fn lemma_fold_refused<M>(
    init: M,
    fs: Seq<Field>,
    step: spec_fn(M, Field) -> Option<M>,
    k: int,
)
    requires
        0 <= k <= fs.len(),
        fold(init, fs.take(k), step) is None,
    ensures
        fold(init, fs, step) is None,
{
    assert(fs =~= fs.take(k) + fs.skip(k));
    lemma_fold_append(init, fs.take(k), fs.skip(k), step);
}

/// Reads the fields `fs` onto `init`.
pub fn merge<M: Message>(init: M, fs: &Vec<RawField>) -> (r: Option<M>)
    ensures
        match merged::<M>(init@, models(fs@)) {
            Some(m) => r is Some && r.unwrap()@ == m,
            None => r is None,
        },
{
    let ghost all = models(fs@);
    let ghost start = init@;
    let mut cur = init;
    let mut i: usize = 0;
    proof {
        assert(all.take(0) =~= Seq::<Field>::empty());
    }
    while i < fs.len()
        invariant
            i <= fs.len(),
            all == models(fs@),
            start == init@,
            merged::<M>(start, all.take(i as int)) == Some(cur@),
        decreases fs.len() - i,
    {
        let ghost before = cur@;
        proof {
            let one = seq![all[i as int]];
            assert(all.take(i + 1) =~= all.take(i as int) + one);
            lemma_fold_append(start, all.take(i as int), one, stepper::<M>());
            lemma_fold_short(before, one, stepper::<M>());
            assert(all[i as int] == fs@[i as int]@);
        }
        match cur.absorb(&fs[i]) {
            Some(next) => {
                cur = next;
            },
            None => {
                proof {
                    lemma_fold_refused(start, all, stepper::<M>(), i + 1);
                }
                return None;
            },
        }
        i += 1;
    }
    proof {
        assert(all.take(fs.len() as int) =~= all);
    }
    Some(cur)
}

/// Writes a value as bytes.
pub fn encode<M: Message>(m: &M) -> (out: Vec<u8>)
    ensures
        out@ == encoded::<M>(m@),
{
    let fs = m.to_fields();
    emit(&fs)
}

/// Reads `bytes` onto `init`.
pub fn decode_onto<M: Message>(init: M, bytes: &[u8]) -> (r: Option<M>)
    ensures
        match decoded_onto::<M>(init@, bytes@) {
            Some(m) => r is Some && r.unwrap()@ == m,
            None => r is None,
        },
{
    match parse(bytes) {
        Some(fs) => merge(init, &fs),
        None => None,
    }
}

/// Reads a value from bytes.
pub fn decode<M: Message>(bytes: &[u8]) -> (r: Option<M>)
    ensures
        match decoded::<M>(bytes@) {
            Some(m) => r is Some && r.unwrap()@ == m,
            None => r is None,
        },
{
    decode_onto(M::fresh(), bytes)
}

/// Writing any value of any message type and reading the bytes back gives
/// the value again. The one condition is on size: the written form must be
/// no longer than 64 bits can count, which every buffer in memory is.
pub proof fn lemma_round_trip<M: Message>(m: M::V)
    requires
        encoded::<M>(m).len() <= u64::MAX,
    ensures
        decoded::<M>(encoded::<M>(m)) == Some(m),
{
    let fs = M::fields(m);
    M::lemma_restore(m);
    assert(stepper::<M>() =~= (|x: M::V, f: Field| M::step(x, f)));
    assert forall|i: int| 0 <= i < fs.len() implies field_fits(#[trigger] fs[i]) by {
        lemma_payload_within(fs, i);
    }
    lemma_parse_written(fs);
}

/// Fields whose numbers the type does not know change nothing, however
/// many there are.
pub proof fn lemma_unknown_fields_ignored<M: Message>(init: M::V, extra: Seq<Field>)
    requires
        forall|i: int| 0 <= i < extra.len() ==> !M::knows((#[trigger] extra[i]).number),
    ensures
        merged::<M>(init, extra) == Some(init),
    decreases extra.len(),
{
    if extra.len() > 0 {
        let front = extra.drop_last();
        assert forall|i: int| 0 <= i < front.len() implies !M::knows(
            (#[trigger] front[i]).number,
        ) by {
            assert(front[i] == extra[i]);
        }
        lemma_unknown_fields_ignored::<M>(init, front);
        M::lemma_unknown(init, extra.last());
    }
}

/// A value that a later version of a schema wrote reads as the value
/// without what the later version added: fields with numbers that this
/// version does not know, after the fields that it does.
pub proof fn lemma_forward_compatible<M: Message>(m: M::V, extra: Seq<Field>)
    requires
        encode_fields(M::fields(m) + extra).len() <= u64::MAX,
        forall|i: int|
            0 <= i < extra.len() ==> !M::knows((#[trigger] extra[i]).number) && 1
                <= extra[i].number <= MAX_FIELD_NUMBER,
    ensures
        decoded::<M>(encode_fields(M::fields(m) + extra)) == Some(m),
{
    let known = M::fields(m);
    let all = known + extra;
    lemma_encode_fields_concat(known, extra);
    M::lemma_restore(m);
    assert(stepper::<M>() =~= (|x: M::V, f: Field| M::step(x, f)));
    assert forall|i: int| 0 <= i < all.len() implies field_fits(#[trigger] all[i]) by {
        lemma_payload_within(all, i);
        if i >= known.len() {
            assert(all[i] == extra[i - known.len()]);
        } else {
            assert(all[i] == known[i]);
        }
    }
    lemma_parse_written(all);
    lemma_fold_append(M::blank(), known, extra, stepper::<M>());
    lemma_unknown_fields_ignored::<M>(m, extra);
}

} // verus!
