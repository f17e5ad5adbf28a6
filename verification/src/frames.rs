//! The frames of the input stream, as far as this side reads them.
//!
//! The runtime feeds the engine a stream of frames: eight bytes of header,
//! then as many bytes of payload as the header says. The first two bytes of
//! the header give the kind of the frame and the last four the length of the
//! payload, most significant byte first.
//!
//! The engine takes a frame that starts an invocation in whatever state it
//! is, and forgets the handles it gave out when it does; and it counts the
//! attempts from the number that such a frame holds, without looking at how
//! large it is. So the frames are sifted before they reach it: only whole
//! frames pass, and the stream ends at a second start frame, at a start
//! frame that cannot be read, and at one whose count of attempts is the
//! largest there is. It also ends at a frame of a kind that the engine does
//! not know: the engine would take the header of such a frame off the
//! stream and read on in the middle of its payload.
use vstd::prelude::*;
use vstd::slice::slice_subrange;
use crate::message::{decode, decoded, fold, lemma_fold_short, Message};
use crate::pieces::{
    as_u32, lemma_fold_then, lemma_join, lemma_number_pieces, number_piece, push_number, read_u32,
};
use crate::wire::{models, Field, RawField};

verus! {


/// What is read of the frame that starts an invocation: one field of the
/// message that the frame carries. Its other fields are passed over.
#[derive(Clone, Debug, PartialEq, Eq)]
pub struct StartHead {
    /// How often the invocation was tried again since its last stored entry.
    /// Field 7.
    pub retry_count: u32,
}

/// What a [`StartHead`] holds.
pub struct StartHeadModel {
    pub retry_count: u32,
}

impl View for StartHead {
    type V = StartHeadModel;

    open spec fn view(&self) -> StartHeadModel {
        StartHeadModel { retry_count: self.retry_count }
    }
}

impl Message for StartHead {
    open spec fn blank() -> StartHeadModel {
        StartHeadModel { retry_count: 0 }
    }

    open spec fn step(m: StartHeadModel, f: Field) -> Option<StartHeadModel> {
        if f.number == 7 {
            match as_u32(f.value) {
                Some(x) => Some(StartHeadModel { retry_count: x }),
                None => None,
            }
        } else {
            Some(m)
        }
    }

    open spec fn fields(m: StartHeadModel) -> Seq<Field> {
        number_piece(7, m.retry_count as u64)
    }

    open spec fn knows(number: u32) -> bool {
        number == 7
    }

    fn fresh() -> (r: StartHead) {
        StartHead { retry_count: 0 }
    }

    fn absorb(self, f: &RawField) -> (r: Option<StartHead>) {
        let mut m = self;
        if f.number == 7 {
            match read_u32(&f.value) {
                Some(x) => {
                    m.retry_count = x;
                    Some(m)
                },
                None => None,
            }
        } else {
            Some(m)
        }
    }

    fn to_fields(&self) -> (r: Vec<RawField>) {
        let mut fs: Vec<RawField> = Vec::new();
        proof {
            assert(models(fs@) =~= Seq::<Field>::empty());
        }
        push_number(&mut fs, 7, self.retry_count as u64);
        proof {
            assert(models(fs@) =~= Self::fields(self@));
        }
        fs
    }

    proof fn lemma_unknown(m: StartHeadModel, f: Field) {
    }

    proof fn lemma_restore(m: StartHeadModel) {
        let st = |x: StartHeadModel, f: Field| Self::step(x, f);
        let b = Self::blank();
        let run0 = Seq::<Field>::empty();
        let part1 = number_piece(7, m.retry_count as u64);
        let run1 = run0 + part1;
        lemma_join(run0, part1);
        assert(run1 =~= part1);
        lemma_fold_short(b, run0, st);
        lemma_number_pieces(7, m.retry_count as u64, m.retry_count);
        lemma_fold_then(b, run0, b, part1, st);
        assert(fold(b, run1, st) == Some(m));
    }
}

/// The length of a frame's header.
pub const HEADER_LENGTH: usize = 8;

/// The kind of the frame that starts an invocation.
pub const START_KIND: u16 = 0;

/// The least of the kinds that stand for entries of the journal, for
/// notifications and for entries of the caller's own. The engine knows every
/// kind from here on.
pub const FIRST_ENTRY_KIND: u16 = 0x0400;

/// Whether the engine knows a kind of frame: below the kinds of entries it
/// knows the start frame and four more.
pub open spec fn known_kind(kind: int) -> bool {
    kind >= FIRST_ENTRY_KIND || kind == 0 || kind == 1 || kind == 2 || kind == 3 || kind == 5
}

/// Whether the engine knows a kind of frame.
pub fn is_known_kind(kind: u16) -> (r: bool)
    ensures
        r == known_kind(kind as int),
{
    kind >= FIRST_ENTRY_KIND || kind == 0 || kind == 1 || kind == 2 || kind == 3 || kind == 5
}

/// The largest count of attempts that a start frame can hold.
pub const MOST_RETRIES: u32 = 0xFFFF_FFFF;

/// The kind of the frame at the front of `bytes`: the first two bytes of its
/// header.
pub open spec fn frame_kind(bytes: Seq<u8>) -> int {
    bytes[0] * 256 + bytes[1]
}

/// The length of the payload of the frame at the front of `bytes`: the last
/// four bytes of its header.
pub open spec fn payload_length(bytes: Seq<u8>) -> int {
    ((bytes[4] * 256 + bytes[5]) * 256 + bytes[6]) * 256 + bytes[7]
}

/// Why the stream ends at a frame.
#[derive(Clone, Copy, Debug, PartialEq, Eq, Structural)]
pub enum Refusal {
    /// A start frame after another.
    SecondStart,
    /// A start frame whose payload is not a message.
    UnreadableStart,
    /// A start frame whose count of attempts is the largest there is.
    TooManyRetries,
    /// A frame of a kind that the engine does not know.
    UnknownKind,
}

impl Refusal {
    /// What the engine is told when the stream ends for this reason.
    pub open spec fn spec_text(self) -> Seq<char> {
        match self {
            Refusal::SecondStart => "a second start frame"@,
            Refusal::UnreadableStart => "a start frame that cannot be read"@,
            Refusal::TooManyRetries => "a start frame with a count of attempts out of range"@,
            Refusal::UnknownKind => "a frame of a kind that is not known"@,
        }
    }

    /// What the engine is told when the stream ends for this reason.
    pub fn text(&self) -> (r: &'static str)
        ensures
            r@ == self.spec_text(),
    {
        match self {
            Refusal::SecondStart => "a second start frame",
            Refusal::UnreadableStart => "a start frame that cannot be read",
            Refusal::TooManyRetries => "a start frame with a count of attempts out of range",
            Refusal::UnknownKind => "a frame of a kind that is not known",
        }
    }
}

/// Why a start frame with this payload is refused, if it is; `started` says
/// whether a start frame has passed before.
pub open spec fn start_refusal(started: bool, payload: Seq<u8>) -> Option<Refusal> {
    if started {
        Some(Refusal::SecondStart)
    } else {
        match decoded::<StartHead>(payload) {
            None => Some(Refusal::UnreadableStart),
            Some(head) => if head.retry_count == MOST_RETRIES {
                Some(Refusal::TooManyRetries)
            } else {
                None
            },
        }
    }
}

/// Judges a start frame by its payload.
pub fn start_verdict(started: bool, payload: &[u8]) -> (r: Option<Refusal>)
    ensures
        r == start_refusal(started, payload@),
{
    if started {
        return Some(Refusal::SecondStart);
    }
    match decode::<StartHead>(payload) {
        None => Some(Refusal::UnreadableStart),
        Some(head) => if head.retry_count == MOST_RETRIES {
            Some(Refusal::TooManyRetries)
        } else {
            None
        },
    }
}

/// Why a whole frame of this kind and with this payload is refused, if it
/// is.
pub open spec fn frame_refusal(started: bool, kind: int, payload: Seq<u8>) -> Option<Refusal> {
    if kind == START_KIND {
        start_refusal(started, payload)
    } else if known_kind(kind) {
        None
    } else {
        Some(Refusal::UnknownKind)
    }
}

/// What sifting a stretch of the stream comes to: how many bytes at its
/// front are whole frames that pass, whether a start frame has passed by
/// then, and why the frame after them is refused, if it is.
pub struct Sifted {
    pub whole: nat,
    pub started: bool,
    pub refusal: Option<Refusal>,
}

/// A result of sifting with `n` more bytes passed before it.
pub open spec fn moved(n: nat, s: Sifted) -> Sifted {
    Sifted { whole: n + s.whole, started: s.started, refusal: s.refusal }
}

/// Sifts `bytes`, frame by frame, until a frame is not whole or is refused.
/// Every frame that passes is of a kind that the engine knows.
pub open spec fn sift(started: bool, bytes: Seq<u8>) -> Sifted
    decreases bytes.len(),
{
    if bytes.len() < HEADER_LENGTH || bytes.len() < HEADER_LENGTH + payload_length(bytes) {
        Sifted { whole: 0, started, refusal: None }
    } else {
        let size = HEADER_LENGTH + payload_length(bytes);
        let start = frame_kind(bytes) == START_KIND;
        let verdict = frame_refusal(
            started,
            frame_kind(bytes),
            bytes.subrange(HEADER_LENGTH as int, size),
        );
        if verdict is Some {
            Sifted { whole: 0, started, refusal: verdict }
        } else {
            moved(size as nat, sift(started || start, bytes.skip(size)))
        }
    }
}

/// The bytes are whole frames that all pass.
pub open spec fn admitted(started: bool, frames: Seq<u8>) -> bool {
    sift(started, frames).whole == frames.len() && sift(started, frames).refusal is None
}

/// The frames that pass are whole frames that all pass: sifting them again
/// takes them all and refuses nothing.
pub proof fn lemma_sift_again(started: bool, bytes: Seq<u8>)
    ensures
        sift(started, bytes).whole <= bytes.len(),
        sift(started, bytes.take(sift(started, bytes).whole as int)) == (Sifted {
            whole: sift(started, bytes).whole,
            started: sift(started, bytes).started,
            refusal: None,
        }),
        admitted(started, bytes.take(sift(started, bytes).whole as int)),
    decreases bytes.len(),
{
    let s = sift(started, bytes);
    if bytes.len() < HEADER_LENGTH || bytes.len() < HEADER_LENGTH + payload_length(bytes) {
        assert(bytes.take(0).len() == 0);
    } else {
        let size = HEADER_LENGTH + payload_length(bytes);
        let start = frame_kind(bytes) == START_KIND;
        let verdict = frame_refusal(
            started,
            frame_kind(bytes),
            bytes.subrange(HEADER_LENGTH as int, size),
        );
        if verdict is Some {
            assert(bytes.take(0).len() == 0);
        } else {
            let rest = sift(started || start, bytes.skip(size));
            lemma_sift_again(started || start, bytes.skip(size));
            let front = bytes.take(s.whole as int);
            assert(front.subrange(HEADER_LENGTH as int, size) =~= bytes.subrange(
                HEADER_LENGTH as int,
                size,
            ));
            assert(front.skip(size) =~= bytes.skip(size).take(rest.whole as int));
        }
    }
}

/// A whole frame at the front of a stream is the same frame whatever comes
/// after the stream.
proof fn lemma_front_frame(first: Seq<u8>, more: Seq<u8>)
    requires
        first.len() >= HEADER_LENGTH,
        first.len() >= HEADER_LENGTH + payload_length(first),
    ensures
        payload_length(first + more) == payload_length(first),
        frame_kind(first + more) == frame_kind(first),
        (first + more).subrange(
            HEADER_LENGTH as int,
            HEADER_LENGTH + payload_length(first),
        ) == first.subrange(HEADER_LENGTH as int, HEADER_LENGTH + payload_length(first)),
        (first + more).skip(HEADER_LENGTH + payload_length(first)) == first.skip(
            HEADER_LENGTH + payload_length(first),
        ) + more,
{
    let all = first + more;
    let size = HEADER_LENGTH + payload_length(first);
    assert(all.subrange(HEADER_LENGTH as int, size) =~= first.subrange(
        HEADER_LENGTH as int,
        size,
    ));
    assert(all.skip(size) =~= first.skip(size) + more);
}

/// It makes no difference in how many pieces a stream comes. Where sifting
/// `first` refuses nothing, sifting `first` and `more` together passes what
/// sifting `first` passes, and goes on as sifting what was left of `first`
/// with `more` after it does.
pub proof fn lemma_sift_in_pieces(started: bool, first: Seq<u8>, more: Seq<u8>)
    requires
        sift(started, first).refusal is None,
    ensures
        sift(started, first + more) == moved(
            sift(started, first).whole,
            sift(
                sift(started, first).started,
                first.skip(sift(started, first).whole as int) + more,
            ),
        ),
    decreases first.len(),
{
    if first.len() < HEADER_LENGTH || first.len() < HEADER_LENGTH + payload_length(first) {
        assert(first.skip(0) =~= first);
    } else {
        let size = HEADER_LENGTH + payload_length(first);
        let next = started || frame_kind(first) == START_KIND;
        let tail = first.skip(size);
        let rest = sift(next, tail);
        assert(sift(started, first) == moved(size as nat, rest));
        lemma_front_frame(first, more);
        assert(sift(started, first + more) == moved(size as nat, sift(next, tail + more)));
        lemma_sift_again(next, tail);
        lemma_sift_in_pieces(next, tail, more);
        assert(tail.skip(rest.whole as int) =~= first.skip(size + rest.whole));
    }
}

/// Sifts `bytes`: the count of bytes that pass, whether a start frame has
/// passed by then, and why the next frame is refused, if it is.
pub fn sift_bytes(started: bool, bytes: &[u8]) -> (r: (usize, bool, Option<Refusal>))
    ensures
        sift(started, bytes@) == (Sifted { whole: r.0 as nat, started: r.1, refusal: r.2 }),
{
    let mut pos: usize = 0;
    let mut seen: bool = started;
    proof {
        assert(bytes@.skip(0) =~= bytes@);
    }
    loop
        invariant
            pos <= bytes.len(),
            sift(started, bytes@) == moved(pos as nat, sift(seen, bytes@.skip(pos as int))),
        decreases bytes.len() - pos,
    {
        let left: usize = bytes.len() - pos;
        let ghost s = bytes@.skip(pos as int);
        if left < HEADER_LENGTH {
            return (pos, seen, None);
        }
        let b4: u64 = bytes[pos + 4] as u64;
        let b5: u64 = bytes[pos + 5] as u64;
        let b6: u64 = bytes[pos + 6] as u64;
        let b7: u64 = bytes[pos + 7] as u64;
        let length: u64 = ((b4 * 256 + b5) * 256 + b6) * 256 + b7;
        assert(length == payload_length(s));
        if ((left - HEADER_LENGTH) as u64) < length {
            return (pos, seen, None);
        }
        let size: usize = HEADER_LENGTH + length as usize;
        let kind: u16 = (bytes[pos] as u16) * 256 + bytes[pos + 1] as u16;
        assert(kind == frame_kind(s));
        if kind == START_KIND {
            let payload = slice_subrange(bytes, pos + HEADER_LENGTH, pos + size);
            assert(payload@ =~= s.subrange(HEADER_LENGTH as int, size as int));
            match start_verdict(seen, payload) {
                Some(why) => {
                    return (pos, seen, Some(why));
                },
                None => {},
            }
            seen = true;
        } else if !is_known_kind(kind) {
            return (pos, seen, Some(Refusal::UnknownKind));
        }
        proof {
            assert(s.skip(size as int) =~= bytes@.skip(pos + size));
        }
        pos = pos + size;
    }
}

} // verus!
