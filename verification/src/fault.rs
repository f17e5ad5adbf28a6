//! Violations of the boundary's protocol.
use vstd::prelude::*;

verus! {

/// A violation of the boundary's protocol by the host.
///
/// None of these can be answered through a response message: the host that
/// committed one cannot be trusted to read it. A caller at the edge of the
/// sandbox ends the process on any of them, after logging [`Fault::text`].
#[derive(Clone, Copy, Debug, PartialEq, Eq, Structural)]
pub enum Fault {
    /// An address or a handle was zero.
    NullPointer,
    /// The bytes of a request are not a message of the expected type.
    MalformedInput,
    /// A request that must carry an outcome carries none.
    MissingResult,
    /// The text of an error notification is not valid UTF-8.
    InvalidText,
    /// The code of a failure for good does not fit in 16 bits.
    CodeOutOfRange,
    /// A handle names no live instance: it was never given out, or the
    /// instance was freed.
    UnknownHandle,
    /// An instance was to be freed while a call still holds it.
    StillBorrowed,
    /// A release without a matching resolve.
    NotBorrowed,
    /// An address names no live buffer: it was never given out, or the
    /// buffer was deallocated or absorbed.
    UnknownRegion,
    /// A buffer was named with a size other than its own.
    SizeMismatch,
    /// A buffer is longer than 32 bits can count.
    TooLarge,
    /// No address or handle is left to give out.
    Exhausted,
    /// A report names a run block that is not open.
    UnknownRun,
    /// The factor of a retry policy is negative or not a finite number.
    UnsoundPolicy,
}

impl Fault {
    /// The line to log for this fault.
    pub open spec fn spec_text(self) -> Seq<char> {
        match self {
            Fault::NullPointer => "Null pointer exception on input"@,
            Fault::MalformedInput => "Deserialization of golang payloads should not fail"@,
            Fault::MissingResult => "result should be present"@,
            Fault::InvalidText => "String should be valid UTF-8"@,
            Fault::CodeOutOfRange => "Should be u16"@,
            Fault::UnknownHandle => "attempted to use a vm that is not live"@,
            Fault::StillBorrowed => "attempted to free vm while still borrowed"@,
            Fault::NotBorrowed => "attempted to release a vm that is not borrowed"@,
            Fault::UnknownRegion => "attempted to use a buffer that is not live"@,
            Fault::SizeMismatch => "attempted to use a buffer with a size other than its own"@,
            Fault::TooLarge => "buffer length should fit in 32 bits"@,
            Fault::Exhausted => "no address left to give out"@,
            Fault::UnknownRun => "attempted to complete a run that is not open"@,
            Fault::UnsoundPolicy => "retry factor should be a finite number, not negative"@,
        }
    }

    /// The line to log for this fault.
    pub fn text(&self) -> (r: &'static str)
        ensures
            r@ == self.spec_text(),
    {
        match self {
            Fault::NullPointer => "Null pointer exception on input",
            Fault::MalformedInput => "Deserialization of golang payloads should not fail",
            Fault::MissingResult => "result should be present",
            Fault::InvalidText => "String should be valid UTF-8",
            Fault::CodeOutOfRange => "Should be u16",
            Fault::UnknownHandle => "attempted to use a vm that is not live",
            Fault::StillBorrowed => "attempted to free vm while still borrowed",
            Fault::NotBorrowed => "attempted to release a vm that is not borrowed",
            Fault::UnknownRegion => "attempted to use a buffer that is not live",
            Fault::SizeMismatch => "attempted to use a buffer with a size other than its own",
            Fault::TooLarge => "buffer length should fit in 32 bits",
            Fault::Exhausted => "no address left to give out",
            Fault::UnknownRun => "attempted to complete a run that is not open",
            Fault::UnsoundPolicy => "retry factor should be a finite number, not negative",
        }
    }
}

} // verus!
