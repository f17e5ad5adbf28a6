//! The message types that other messages are built from.
use vstd::prelude::*;
use crate::message::{fold, lemma_fold_short, stepper, Message};
use crate::pieces::{
    as_nested, as_text, as_u32, lemma_fold_then, lemma_number_pieces, lemma_text_piece,
    number_piece, push_number, push_text, read_text, read_u32, text_piece,
};
use crate::wire::{models, Field, RawField, WireValue};

verus! {

/// The message without fields. It stands where an arm of a choice carries
/// nothing but its presence.
#[derive(Clone, Debug, PartialEq, Eq)]
pub struct Empty {}

impl View for Empty {
    type V = ();

    open spec fn view(&self) -> () {
        ()
    }
}

impl Message for Empty {
    open spec fn blank() -> () {
        ()
    }

    open spec fn step(m: (), f: Field) -> Option<()> {
        Some(())
    }

    open spec fn fields(m: ()) -> Seq<Field> {
        Seq::empty()
    }

    open spec fn knows(number: u32) -> bool {
        false
    }

    fn fresh() -> (r: Empty) {
        Empty {  }
    }

    fn absorb(self, f: &RawField) -> (r: Option<Empty>) {
        Some(self)
    }

    fn to_fields(&self) -> (r: Vec<RawField>) {
        let fs: Vec<RawField> = Vec::new();
        proof {
            assert(models(fs@) =~= Seq::<Field>::empty());
        }
        fs
    }

    proof fn lemma_unknown(m: (), f: Field) {
    }

    proof fn lemma_restore(m: ()) {
    }
}

/// A payload without bytes reads as the message without fields.
pub proof fn lemma_empty_payload()
    ensures
        as_nested::<Empty>((), WireValue::Bytes(Seq::empty())) == Some(()),
{
    lemma_fold_short((), Seq::<Field>::empty(), stepper::<Empty>());
}

/// A header: a key and a value. Several headers may share a key.
#[derive(Clone, Debug, PartialEq, Eq)]
pub struct Header {
    /// The key. Field 1.
    pub key: String,
    /// The value. Field 2.
    pub value: String,
}

/// What a [`Header`] holds.
pub struct HeaderModel {
    pub key: Seq<char>,
    pub value: Seq<char>,
}

impl View for Header {
    type V = HeaderModel;

    open spec fn view(&self) -> HeaderModel {
        HeaderModel { key: self.key@, value: self.value@ }
    }
}

impl Message for Header {
    open spec fn blank() -> HeaderModel {
        HeaderModel { key: Seq::empty(), value: Seq::empty() }
    }

    open spec fn step(m: HeaderModel, f: Field) -> Option<HeaderModel> {
        if f.number == 1 {
            match as_text(f.value) {
                Some(s) => Some(HeaderModel { key: s, ..m }),
                None => None,
            }
        } else if f.number == 2 {
            match as_text(f.value) {
                Some(s) => Some(HeaderModel { value: s, ..m }),
                None => None,
            }
        } else {
            Some(m)
        }
    }

    open spec fn fields(m: HeaderModel) -> Seq<Field> {
        text_piece(1, m.key) + text_piece(2, m.value)
    }

    open spec fn knows(number: u32) -> bool {
        number == 1 || number == 2
    }

    fn fresh() -> (r: Header) {
        Header { key: String::new(), value: String::new() }
    }

    fn absorb(self, f: &RawField) -> (r: Option<Header>) {
        let mut m = self;
        if f.number == 1 {
            match read_text(&f.value) {
                Some(s) => {
                    m.key = s;
                    Some(m)
                },
                None => None,
            }
        } else if f.number == 2 {
            match read_text(&f.value) {
                Some(s) => {
                    m.value = s;
                    Some(m)
                },
                None => None,
            }
        } else {
            Some(m)
        }
    }

    fn to_fields(&self) -> (r: Vec<RawField>) {
        let mut fs: Vec<RawField> = Vec::new();
        proof {
            assert(models(fs@) =~= Seq::<Field>::empty());
        }
        push_text(&mut fs, 1, &self.key);
        push_text(&mut fs, 2, &self.value);
        proof {
            assert(models(fs@) =~= Self::fields(self@));
        }
        fs
    }

    proof fn lemma_unknown(m: HeaderModel, f: Field) {
    }

    proof fn lemma_restore(m: HeaderModel) {
        let st = |x: HeaderModel, f: Field| Self::step(x, f);
        let first = text_piece(1, m.key);
        let second = text_piece(2, m.value);
        let none = Seq::<Field>::empty();
        lemma_text_piece(1, m.key);
        lemma_text_piece(2, m.value);
        let half = HeaderModel { key: m.key, value: Seq::empty() };
        lemma_fold_then(Self::blank(), none, Self::blank(), first, st);
        assert(none + first =~= first);
        assert(fold(Self::blank(), first, st) == Some(half));
        lemma_fold_then(Self::blank(), first, half, second, st);
        assert(fold(Self::blank(), first + second, st) == Some(m));
    }
}

/// A failure that the engine reports: a code and a message.
#[derive(Clone, Debug, PartialEq, Eq)]
pub struct Failure {
    /// The code. Field 1.
    pub code: u32,
    /// The message. Field 2.
    pub message: String,
}

/// What a [`Failure`] holds.
pub struct FailureModel {
    pub code: u32,
    pub message: Seq<char>,
}

impl View for Failure {
    type V = FailureModel;

    open spec fn view(&self) -> FailureModel {
        FailureModel { code: self.code, message: self.message@ }
    }
}

impl Message for Failure {
    open spec fn blank() -> FailureModel {
        FailureModel { code: 0, message: Seq::empty() }
    }

    open spec fn step(m: FailureModel, f: Field) -> Option<FailureModel> {
        if f.number == 1 {
            match as_u32(f.value) {
                Some(c) => Some(FailureModel { code: c, ..m }),
                None => None,
            }
        } else if f.number == 2 {
            match as_text(f.value) {
                Some(s) => Some(FailureModel { message: s, ..m }),
                None => None,
            }
        } else {
            Some(m)
        }
    }

    open spec fn fields(m: FailureModel) -> Seq<Field> {
        number_piece(1, m.code as u64) + text_piece(2, m.message)
    }

    open spec fn knows(number: u32) -> bool {
        number == 1 || number == 2
    }

    fn fresh() -> (r: Failure) {
        Failure { code: 0, message: String::new() }
    }

    fn absorb(self, f: &RawField) -> (r: Option<Failure>) {
        let mut m = self;
        if f.number == 1 {
            match read_u32(&f.value) {
                Some(c) => {
                    m.code = c;
                    Some(m)
                },
                None => None,
            }
        } else if f.number == 2 {
            match read_text(&f.value) {
                Some(s) => {
                    m.message = s;
                    Some(m)
                },
                None => None,
            }
        } else {
            Some(m)
        }
    }

    fn to_fields(&self) -> (r: Vec<RawField>) {
        let mut fs: Vec<RawField> = Vec::new();
        proof {
            assert(models(fs@) =~= Seq::<Field>::empty());
        }
        push_number(&mut fs, 1, self.code as u64);
        push_text(&mut fs, 2, &self.message);
        proof {
            assert(models(fs@) =~= Self::fields(self@));
        }
        fs
    }

    proof fn lemma_unknown(m: FailureModel, f: Field) {
    }

    proof fn lemma_restore(m: FailureModel) {
        let st = |x: FailureModel, f: Field| Self::step(x, f);
        let first = number_piece(1, m.code as u64);
        let second = text_piece(2, m.message);
        let none = Seq::<Field>::empty();
        lemma_number_pieces(1, m.code as u64, m.code);
        lemma_text_piece(2, m.message);
        let half = FailureModel { code: m.code, message: Seq::empty() };
        lemma_fold_then(Self::blank(), none, Self::blank(), first, st);
        assert(none + first =~= first);
        assert(fold(Self::blank(), first, st) == Some(half));
        lemma_fold_then(Self::blank(), first, half, second, st);
        assert(fold(Self::blank(), first + second, st) == Some(m));
    }
}

} // verus!
