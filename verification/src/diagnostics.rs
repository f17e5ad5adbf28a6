//! Diagnostics: what is logged, at which level, and in what shape.
//!
//! Every log line and the text of a fatal fault leave through one sink that
//! takes a level and a run of bytes. A line is gathered in a buffer while it
//! is being written and leaves as a whole when it is finished, without the
//! one newline that ends it: the sink sets lines apart itself.
use vstd::prelude::*;
use vstd::slice::slice_to_vec;
use vstd::utf8::encode_utf8;
use crate::wire::put_bytes;

verus! {

/// How detailed a log line is, most detailed first.
#[allow(non_camel_case_types)]
#[derive(Clone, Copy, Debug, PartialEq, Eq, Structural)]
pub enum LogLevel {
    TRACE,
    DEBUG,
    INFO,
    WARN,
    ERROR,
}

impl LogLevel {
    /// The number that stands for a level at the boundary.
    pub open spec fn spec_number(self) -> u32 {
        match self {
            LogLevel::TRACE => 0,
            LogLevel::DEBUG => 1,
            LogLevel::INFO => 2,
            LogLevel::WARN => 3,
            LogLevel::ERROR => 4,
        }
    }

    /// The number that stands for this level at the boundary.
    pub fn number(self) -> (n: u32)
        ensures
            n == self.spec_number(),
    {
        match self {
            LogLevel::TRACE => 0,
            LogLevel::DEBUG => 1,
            LogLevel::INFO => 2,
            LogLevel::WARN => 3,
            LogLevel::ERROR => 4,
        }
    }

    /// The level to log at when the host asks for the one that `n` stands
    /// for: that level, or the most detailed where `n` stands for none.
    pub fn requested(n: u32) -> (level: LogLevel)
        ensures
            n <= 4 ==> level.spec_number() == n,
            n > 4 ==> level == LogLevel::TRACE,
    {
        match LogLevel::from_number(n) {
            Some(level) => level,
            None => LogLevel::TRACE,
        }
    }

    /// The level that a number stands for; nothing for a number above 4.
    pub fn from_number(n: u32) -> (r: Option<LogLevel>)
        ensures
            match r {
                Some(level) => level.spec_number() == n,
                None => n > 4,
            },
    {
        match n {
            0 => Some(LogLevel::TRACE),
            1 => Some(LogLevel::DEBUG),
            2 => Some(LogLevel::INFO),
            3 => Some(LogLevel::WARN),
            4 => Some(LogLevel::ERROR),
            _ => None,
        }
    }
}

/// How the log subscriber is set up. Lines never carry the time: the sink
/// stamps them itself.
#[derive(Clone, Copy, Debug, PartialEq, Eq, Structural)]
pub struct SubscriberOptions {
    /// The least detailed level that is still logged: lines more detailed
    /// than this are dropped before they are formatted.
    pub level: LogLevel,
    /// Whether lines carry colour codes.
    pub ansi: bool,
    /// Whether lines carry the name of the thread.
    pub thread_names: bool,
    /// Whether lines carry the identifier of the thread.
    pub thread_ids: bool,
    /// Whether lines carry the source file.
    pub file: bool,
    /// Whether lines carry the line number.
    pub line_number: bool,
    /// Whether lines carry the target of the event.
    pub target: bool,
    /// Whether lines carry their level as text.
    pub level_label: bool,
    /// Whether entering a span is logged.
    pub span_enter: bool,
    /// What makes the writers that the lines go to.
    pub writer: MakeWebConsoleWriter,
}

/// The set-up for a level: lines are bare, since the sink gets the level
/// beside the text. Only at the most detailed level do lines carry the
/// target and is entering a span logged.
pub open spec fn subscriber_options(level: LogLevel, logger_id: Option<u32>) -> SubscriberOptions {
    SubscriberOptions {
        level,
        ansi: false,
        thread_names: false,
        thread_ids: false,
        file: false,
        line_number: false,
        target: level == LogLevel::TRACE,
        level_label: false,
        span_enter: level == LogLevel::TRACE,
        writer: MakeWebConsoleWriter { logger_id },
    }
}

/// The set-up of the log subscriber for a level and a logger.
pub fn log_subscriber(level: LogLevel, logger_id: Option<u32>) -> (r: SubscriberOptions)
    ensures
        r == subscriber_options(level, logger_id),
{
    let detailed = match level {
        LogLevel::TRACE => true,
        _ => false,
    };
    SubscriberOptions {
        level,
        ansi: false,
        thread_names: false,
        thread_ids: false,
        file: false,
        line_number: false,
        target: detailed,
        level_label: false,
        span_enter: detailed,
        writer: MakeWebConsoleWriter { logger_id },
    }
}

/// Makes the writers that log lines go to.
#[derive(Clone, Copy, Debug, PartialEq, Eq, Structural)]
pub struct MakeWebConsoleWriter {
    pub logger_id: Option<u32>,
}

impl MakeWebConsoleWriter {
    /// A writer for a line whose level is not known: it takes the most
    /// detailed.
    pub fn make_writer(&self) -> (w: ConsoleWriter)
        ensures
            w@ == (ConsoleWriterModel {
                buffer: Seq::empty(),
                level: LogLevel::TRACE,
                logger_id: self.logger_id,
            }),
    {
        ConsoleWriter { buffer: Vec::new(), level: LogLevel::TRACE, logger_id: self.logger_id }
    }

    /// A writer for a line of the given level.
    pub fn make_writer_for(&self, level: LogLevel) -> (w: ConsoleWriter)
        ensures
            w@ == (ConsoleWriterModel { buffer: Seq::empty(), level, logger_id: self.logger_id }),
    {
        ConsoleWriter { buffer: Vec::new(), level, logger_id: self.logger_id }
    }
}

/// Gathers one log line.
pub struct ConsoleWriter {
    buffer: Vec<u8>,
    level: LogLevel,
    logger_id: Option<u32>,
}

/// What a [`ConsoleWriter`] holds.
pub struct ConsoleWriterModel {
    pub buffer: Seq<u8>,
    pub level: LogLevel,
    pub logger_id: Option<u32>,
}

impl View for ConsoleWriter {
    type V = ConsoleWriterModel;

    closed spec fn view(&self) -> ConsoleWriterModel {
        ConsoleWriterModel { buffer: self.buffer@, level: self.level, logger_id: self.logger_id }
    }
}

/// The newline character as a byte.
pub const NEWLINE: u8 = 10;

/// A line without the one newline that ends it, if one does.
pub open spec fn without_newline(line: Seq<u8>) -> Seq<u8> {
    if line.len() > 0 && line.last() == NEWLINE {
        line.drop_last()
    } else {
        line
    }
}

impl ConsoleWriter {
    /// Adds bytes to the line and says how many were taken: all of them.
    pub fn write(&mut self, buf: &[u8]) -> (n: usize)
        ensures
            n == buf@.len(),
            final(self)@ == (ConsoleWriterModel {
                buffer: old(self)@.buffer + buf@,
                ..old(self)@
            }),
    {
        put_bytes(&mut self.buffer, buf);
        buf.len()
    }

    /// Does nothing: the line leaves when it is finished, not before.
    pub fn flush(&mut self)
        ensures
            final(self)@ == old(self)@,
    {
    }

    /// The level of the line.
    pub fn level(&self) -> (r: LogLevel)
        ensures
            r == self@.level,
    {
        self.level
    }

    /// The logger that the line belongs to.
    pub fn logger_id(&self) -> (r: Option<u32>)
        ensures
            r == self@.logger_id,
    {
        self.logger_id
    }

    /// The finished line as it goes to the sink: what was written, without
    /// the one newline that ends it.
    pub fn record(&self) -> (r: Vec<u8>)
        ensures
            r@ == without_newline(self@.buffer),
    {
        let n = self.buffer.len();
        let mut r = slice_to_vec(self.buffer.as_slice());
        if n > 0 && self.buffer[n - 1] == NEWLINE {
            r.pop();
            proof {
                assert(r@ =~= self.buffer@.drop_last());
            }
        }
        r
    }
}

/// The text that is logged when the engine panics with the given message.
pub open spec fn panic_text(message: Seq<char>) -> Seq<u8> {
    encode_utf8("Core panicked: "@) + encode_utf8(message)
}

/// The line to log when the engine panics with the given message, and its
/// level: a panic is an error.
pub fn panic_record(message: &str) -> (r: (LogLevel, Vec<u8>))
    ensures
        r.0 == LogLevel::ERROR,
        r.1@ == panic_text(message@),
{
    let mut line = slice_to_vec("Core panicked: ".as_bytes());
    put_bytes(&mut line, message.as_bytes());
    (LogLevel::ERROR, line)
}

} // verus!
