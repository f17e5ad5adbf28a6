//! Header lookup, log levels, log lines and the texts of faults.
use shared_core::common::Header;
use shared_core::diagnostics::{
    log_subscriber, panic_record, ConsoleWriter, LogLevel, MakeWebConsoleWriter, SubscriberOptions,
};
use shared_core::fault::Fault;
use shared_core::headers::WasmHeaders;

fn headers(pairs: &[(&str, &str)]) -> WasmHeaders {
    WasmHeaders(
        pairs.iter().map(|(k, v)| Header { key: k.to_string(), value: v.to_string() }).collect(),
    )
}

#[test]
fn extract_finds_a_header_by_its_key() {
    let h = headers(&[("accept", "*/*"), ("content-type", "application/json")]);
    assert_eq!(h.extract("content-type"), Some("application/json"));
    assert_eq!(h.extract("accept"), Some("*/*"));
    assert_eq!(h.extract("missing"), None);
}

#[test]
fn extract_ignores_the_case_of_ascii_letters() {
    let h = headers(&[("Content-Type", "a")]);
    assert_eq!(h.extract("content-type"), Some("a"));
    assert_eq!(h.extract("CONTENT-TYPE"), Some("a"));
    assert_eq!(h.extract("cOnTeNt-tYpE"), Some("a"));
}

#[test]
fn extract_returns_the_first_of_several() {
    let h = headers(&[("x", "1"), ("X", "2"), ("x", "3")]);
    assert_eq!(h.extract("X"), Some("1"));
    let h = headers(&[("y", "0"), ("X", "2"), ("x", "3")]);
    assert_eq!(h.extract("x"), Some("2"));
}

#[test]
fn extract_compares_whole_keys() {
    let h = headers(&[("content-type", "a"), ("", "empty")]);
    assert_eq!(h.extract("content"), None);
    assert_eq!(h.extract("content-type "), None);
    assert_eq!(h.extract("content_type"), None);
    assert_eq!(h.extract(""), Some("empty"));
    assert_eq!(headers(&[]).extract(""), None);
}

#[test]
fn extract_folds_ascii_letters_only() {
    // the Kelvin sign and the long s fold to k and s in Unicode, not in ASCII
    let h = headers(&[("\u{212A}", "kelvin"), ("\u{00C9}", "e-acute"), ("@[`{", "marks")]);
    assert_eq!(h.extract("k"), None);
    assert_eq!(h.extract("K"), None);
    assert_eq!(h.extract("\u{212A}"), Some("kelvin"));
    assert_eq!(h.extract("\u{00E9}"), None);
    assert_eq!(h.extract("\u{00C9}"), Some("e-acute"));
    // the characters next to the letters in the table stay apart
    assert_eq!(h.extract("@[`{"), Some("marks"));
    assert_eq!(h.extract("`{@["), None);
}

#[test]
fn log_levels_have_their_numbers() {
    assert_eq!(LogLevel::TRACE.number(), 0);
    assert_eq!(LogLevel::DEBUG.number(), 1);
    assert_eq!(LogLevel::INFO.number(), 2);
    assert_eq!(LogLevel::WARN.number(), 3);
    assert_eq!(LogLevel::ERROR.number(), 4);
}

#[test]
fn log_levels_come_back_from_their_numbers() {
    for level in [LogLevel::TRACE, LogLevel::DEBUG, LogLevel::INFO, LogLevel::WARN, LogLevel::ERROR] {
        assert_eq!(LogLevel::from_number(level.number()), Some(level));
    }
    assert_eq!(LogLevel::from_number(5), None);
    assert_eq!(LogLevel::from_number(u32::MAX), None);
}

#[test]
fn a_level_that_no_number_stands_for_is_the_most_detailed() {
    assert_eq!(LogLevel::requested(0), LogLevel::TRACE);
    assert_eq!(LogLevel::requested(2), LogLevel::INFO);
    assert_eq!(LogLevel::requested(4), LogLevel::ERROR);
    assert_eq!(LogLevel::requested(5), LogLevel::TRACE);
    assert_eq!(LogLevel::requested(u32::MAX), LogLevel::TRACE);
}

#[test]
fn log_subscriber_is_bare_below_trace() {
    for level in [LogLevel::DEBUG, LogLevel::INFO, LogLevel::WARN, LogLevel::ERROR] {
        assert_eq!(
            log_subscriber(level, Some(7)),
            SubscriberOptions {
                level,
                ansi: false,
                thread_names: false,
                thread_ids: false,
                file: false,
                line_number: false,
                target: false,
                level_label: false,
                span_enter: false,
                writer: MakeWebConsoleWriter { logger_id: Some(7) },
            }
        );
    }
}

#[test]
fn log_subscriber_at_trace_adds_target_and_span_entry() {
    let options = log_subscriber(LogLevel::TRACE, None);
    assert_eq!(options.level, LogLevel::TRACE);
    assert!(options.target);
    assert!(options.span_enter);
    assert!(!options.ansi && !options.level_label);
    assert!(!options.thread_names && !options.thread_ids && !options.file && !options.line_number);
    assert_eq!(options.writer, MakeWebConsoleWriter { logger_id: None });
}

#[test]
fn make_writer_assumes_the_most_detailed_level() {
    let make = MakeWebConsoleWriter { logger_id: Some(3) };
    let writer = make.make_writer();
    assert_eq!(writer.level(), LogLevel::TRACE);
    assert_eq!(writer.logger_id(), Some(3));
    assert_eq!(writer.record(), Vec::<u8>::new());
}

#[test]
fn make_writer_for_takes_the_level_of_the_event() {
    let make = MakeWebConsoleWriter { logger_id: None };
    let writer = make.make_writer_for(LogLevel::WARN);
    assert_eq!(writer.level(), LogLevel::WARN);
    assert_eq!(writer.logger_id(), None);
}

fn writer() -> ConsoleWriter {
    MakeWebConsoleWriter { logger_id: None }.make_writer_for(LogLevel::INFO)
}

#[test]
fn a_line_is_gathered_piece_by_piece() {
    let mut w = writer();
    assert_eq!(w.write(b"hello"), 5);
    assert_eq!(w.write(b""), 0);
    assert_eq!(w.write(b", world"), 7);
    w.flush();
    assert_eq!(w.record(), b"hello, world".to_vec());
    assert_eq!(w.level(), LogLevel::INFO);
}

#[test]
fn the_one_newline_at_the_end_is_left_out() {
    let mut w = writer();
    w.write(b"line\n");
    assert_eq!(w.record(), b"line".to_vec());

    let mut w = writer();
    w.write(b"line\n\n");
    assert_eq!(w.record(), b"line\n".to_vec());

    let mut w = writer();
    w.write(b"a\nb");
    assert_eq!(w.record(), b"a\nb".to_vec());

    let mut w = writer();
    w.write(b"\n");
    assert_eq!(w.record(), Vec::<u8>::new());

    let mut w = writer();
    w.write(b"line\r\n");
    assert_eq!(w.record(), b"line\r".to_vec());
}

#[test]
fn record_takes_nothing_from_the_writer() {
    let mut w = writer();
    w.write(b"x\n");
    assert_eq!(w.record(), b"x".to_vec());
    assert_eq!(w.record(), b"x".to_vec());
    w.write(b"y");
    assert_eq!(w.record(), b"x\ny".to_vec());
}

#[test]
fn panic_record_names_the_core() {
    assert_eq!(panic_record("boom"), (LogLevel::ERROR, b"Core panicked: boom".to_vec()));
    assert_eq!(panic_record(""), (LogLevel::ERROR, b"Core panicked: ".to_vec()));
    assert_eq!(
        panic_record("\u{00e9}"),
        (LogLevel::ERROR, "Core panicked: \u{00e9}".as_bytes().to_vec())
    );
}

#[test]
fn every_fault_has_its_text() {
    assert_eq!(Fault::NullPointer.text(), "Null pointer exception on input");
    assert_eq!(Fault::MalformedInput.text(), "Deserialization of golang payloads should not fail");
    assert_eq!(Fault::MissingResult.text(), "result should be present");
    assert_eq!(Fault::InvalidText.text(), "String should be valid UTF-8");
    assert_eq!(Fault::CodeOutOfRange.text(), "Should be u16");
    assert_eq!(Fault::StillBorrowed.text(), "attempted to free vm while still borrowed");
    let all = [
        Fault::NullPointer,
        Fault::MalformedInput,
        Fault::MissingResult,
        Fault::InvalidText,
        Fault::CodeOutOfRange,
        Fault::UnknownHandle,
        Fault::StillBorrowed,
        Fault::NotBorrowed,
        Fault::UnknownRegion,
        Fault::SizeMismatch,
        Fault::TooLarge,
        Fault::Exhausted,
        Fault::UnknownRun,
        Fault::UnsoundPolicy,
    ];
    for (i, a) in all.iter().enumerate() {
        assert!(!a.text().is_empty());
        for b in &all[i + 1..] {
            assert_ne!(a.text(), b.text());
        }
    }
}
