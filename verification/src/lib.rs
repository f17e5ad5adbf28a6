//! The boundary between a host process and a sandboxed invocation engine.
//!
//! The engine is a single-threaded state machine that the host cannot see
//! into. Host and sandbox share no runtime, no collector and no allocator:
//! all that crosses between them is a handful of numbers, and buffers of
//! bytes that are named by two of them. This crate is everything that stands
//! between those numbers and the engine:
//!
//! - [`varint`], [`wire`], [`message`], [`pieces`]: the binary format of the
//!   messages, with the proof that what is written reads back as it was;
//! - [`common`], [`requests`], [`responses`]: the messages themselves;
//! - [`memory`]: the buffers that cross, and who owns them when;
//! - [`registry`]: engine instances behind opaque handles, counted;
//! - [`calls`], [`engine`]: the engine itself, reached through calls that
//!   promise nothing of what it answers;
//! - [`frames`]: the sifting of the input stream before the engine gets it;
//! - [`domain`], [`answers`], [`bridge`]: from a request to the one call
//!   that it stands for, and from what came back to the answer;
//! - [`boundary`], [`sandbox`]: operations on instances behind handles,
//!   and the whole over a table of buffers;
//! - [`headers`], [`diagnostics`], [`fault`]: header lookup, log lines, and
//!   the violations of the protocol that end the process.
pub mod answers;
pub mod boundary;
pub mod bridge;
pub mod calls;
pub mod common;
pub mod diagnostics;
pub mod domain;
pub mod engine;
pub mod fault;
pub mod frames;
pub mod headers;
pub mod memory;
pub mod message;
pub mod pieces;
pub mod registry;
pub mod requests;
pub mod responses;
pub mod sandbox;
pub mod varint;
pub mod wire;
