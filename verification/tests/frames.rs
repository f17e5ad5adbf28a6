//! The sifting of the input stream.
use shared_core::frames::{is_known_kind, sift_bytes, start_verdict, Refusal, StartHead};
use shared_core::message::{decode, encode};
use shared_core::wire::{emit, RawField, RawValue};

fn frame(kind: u16, payload: Vec<u8>) -> Vec<u8> {
    let mut out = vec![(kind >> 8) as u8, kind as u8, 0, 0];
    out.extend((payload.len() as u32).to_be_bytes());
    out.extend(payload);
    out
}

fn count(value: u64) -> RawField {
    RawField { number: 7, value: RawValue::Varint(value) }
}

fn start(retries: u64) -> Vec<u8> {
    let fields = vec![
        RawField { number: 2, value: RawValue::Bytes(b"inv".to_vec()) },
        RawField { number: 3, value: RawValue::Varint(1) },
        count(retries),
        RawField { number: 8, value: RawValue::Varint(10) },
    ];
    frame(0, emit(&fields))
}

#[test]
fn the_start_head_is_one_field_and_passes_over_the_others() {
    assert_eq!(decode::<StartHead>(&[]), Some(StartHead { retry_count: 0 }));
    assert_eq!(decode::<StartHead>(&start(5)[8..]), Some(StartHead { retry_count: 5 }));
    // the last one counts
    let twice = emit(&vec![count(5), count(9)]);
    assert_eq!(decode::<StartHead>(&twice), Some(StartHead { retry_count: 9 }));
    // the low 32 bits count
    let wide = emit(&vec![count(0x7_0000_0003)]);
    assert_eq!(decode::<StartHead>(&wide), Some(StartHead { retry_count: 3 }));
    // a field of that number that is no number is refused
    let text = emit(&vec![RawField { number: 7, value: RawValue::Bytes(vec![1]) }]);
    assert_eq!(decode::<StartHead>(&text), None);
    assert_eq!(encode(&StartHead { retry_count: 300 }), vec![0x38, 0xAC, 0x02]);
    assert_eq!(decode::<StartHead>(&[0x38, 0xAC, 0x02]), Some(StartHead { retry_count: 300 }));
}

#[test]
fn a_start_frame_is_judged_by_what_came_before_and_by_its_count() {
    assert_eq!(start_verdict(false, &start(0)[8..]), None);
    assert_eq!(start_verdict(false, &start(u32::MAX as u64 - 1)[8..]), None);
    assert_eq!(start_verdict(false, &start(u32::MAX as u64)[8..]), Some(Refusal::TooManyRetries));
    assert_eq!(
        start_verdict(false, &start(0x5_FFFF_FFFF)[8..]),
        Some(Refusal::TooManyRetries)
    );
    assert_eq!(start_verdict(false, &[0x38]), Some(Refusal::UnreadableStart));
    assert_eq!(start_verdict(false, &[0x3B]), Some(Refusal::UnreadableStart));
    assert_eq!(start_verdict(true, &start(0)[8..]), Some(Refusal::SecondStart));
    assert_eq!(start_verdict(true, &[0x38]), Some(Refusal::SecondStart));
}

#[test]
fn bytes_that_make_no_whole_frame_are_kept() {
    assert_eq!(sift_bytes(false, &[]), (0, false, None));
    assert_eq!(sift_bytes(true, &[0; 7]), (0, true, None));
    let whole = frame(0x0400, vec![1, 2, 3]);
    assert_eq!(sift_bytes(false, &whole[..10]), (0, false, None));
    assert_eq!(sift_bytes(false, &whole), (11, false, None));
    // the two bytes after the kind are not looked at
    let mut flagged = whole.clone();
    flagged[2] = 0xFF;
    flagged[3] = 0xFF;
    assert_eq!(sift_bytes(false, &flagged), (11, false, None));
    // a start frame is not judged before it is whole
    let bad = start(u32::MAX as u64);
    assert_eq!(sift_bytes(true, &bad[..bad.len() - 1]), (0, true, None));
}

#[test]
fn whole_frames_pass_up_to_the_one_that_is_refused() {
    let first = start(0);
    let entry = frame(0x0400, vec![9; 300]);
    let mut stream = first.clone();
    stream.extend(&entry);
    stream.extend(frame(0x8011, vec![]));
    stream.extend([0, 0, 0]);
    let passed = first.len() + entry.len() + 8;
    assert_eq!(sift_bytes(false, &stream), (passed, true, None));
    assert_eq!(sift_bytes(true, &stream), (0, true, Some(Refusal::SecondStart)));

    let mut twice = first.clone();
    twice.extend(&entry);
    twice.extend(start(0));
    twice.extend(&entry);
    assert_eq!(
        sift_bytes(false, &twice),
        (first.len() + entry.len(), true, Some(Refusal::SecondStart))
    );

    let mut late = entry.clone();
    late.extend(start(u32::MAX as u64));
    assert_eq!(sift_bytes(false, &late), (entry.len(), false, Some(Refusal::TooManyRetries)));
    let mut torn = entry.clone();
    torn.extend(frame(0, vec![0x0A, 0x05, 1]));
    assert_eq!(sift_bytes(false, &torn), (entry.len(), false, Some(Refusal::UnreadableStart)));
}

#[test]
fn the_length_of_a_payload_is_read_most_significant_byte_first() {
    let payload = vec![7u8; 0x0102];
    let whole = frame(0x8002, payload);
    assert_eq!(&whole[..8], &[0x80, 0x02, 0, 0, 0, 0, 0x01, 0x02]);
    assert_eq!(sift_bytes(false, &whole), (8 + 0x0102, false, None));
    assert_eq!(sift_bytes(false, &whole[..8 + 0x0101]), (0, false, None));
    // a kind whose second byte alone is zero starts nothing
    assert_eq!(sift_bytes(true, &frame(0x0400, vec![])), (8, true, None));
    assert_eq!(sift_bytes(true, &frame(0x0001, vec![])), (8, true, None));
}

#[test]
fn a_frame_of_a_kind_that_is_not_known_is_refused() {
    for kind in 0u16..=0xFFFF {
        let known = kind >= 0x0400 || [0, 1, 2, 3, 5].contains(&kind);
        assert_eq!(is_known_kind(kind), known, "{kind:#x}");
    }
    for kind in [4u16, 6, 0x0100, 0x03FF] {
        let mut stream = frame(0x0401, vec![1]);
        stream.extend(frame(kind, vec![0, 0, 0, 0, 0, 0, 0, 0]));
        stream.extend(frame(0x0401, vec![2]));
        assert_eq!(sift_bytes(false, &stream), (9, false, Some(Refusal::UnknownKind)));
        // and not before the frame is whole
        assert_eq!(sift_bytes(false, &stream[..24]), (9, false, None));
    }
    for kind in [1u16, 2, 3, 5, 0x0400, 0x8011, 0xFBFF, 0xFC00, 0xFFFF] {
        assert_eq!(sift_bytes(false, &frame(kind, vec![9])), (9, false, None));
    }
}

#[test]
fn each_refusal_has_its_text() {
    assert_eq!(Refusal::SecondStart.text(), "a second start frame");
    assert_eq!(Refusal::UnreadableStart.text(), "a start frame that cannot be read");
    assert_eq!(
        Refusal::TooManyRetries.text(),
        "a start frame with a count of attempts out of range"
    );
    assert_eq!(Refusal::UnknownKind.text(), "a frame of a kind that is not known");
}

/// Sifts a stream that comes in pieces, keeping what is not yet whole: what
/// passed in all, whether a start frame passed, and the refusal.
fn in_pieces(stream: &[u8], size: usize) -> (usize, bool, Option<Refusal>) {
    let (mut passed, mut started, mut pending) = (0, false, Vec::new());
    for piece in stream.chunks(size) {
        pending.extend(piece);
        let (whole, now, refusal) = sift_bytes(started, &pending);
        passed += whole;
        started = now;
        pending.drain(..whole);
        if refusal.is_some() {
            return (passed, started, refusal);
        }
    }
    (passed, started, None)
}

#[test]
fn it_makes_no_difference_in_how_many_pieces_a_stream_comes() {
    let mut good = start(3);
    good.extend(frame(0x0400, vec![1; 40]));
    good.extend(frame(0x8011, vec![]));
    let mut twice = good.clone();
    twice.extend(start(0));
    twice.extend(frame(0x0400, vec![2]));
    let mut odd = good.clone();
    odd.extend(frame(0x0200, vec![3; 9]));
    for stream in [good, twice, odd] {
        let at_once = sift_bytes(false, &stream);
        for size in [1, 2, 7, 8, 9, 13, 64, 1000] {
            assert_eq!(in_pieces(&stream, size), at_once, "{size}");
        }
    }
}
