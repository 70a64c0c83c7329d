//! A typed, versioned model of decoded game replays together with a
//! configuration-driven facade over an external byte-level decode engine.
//!
//! The model keeps every tagged union as a true sum type, so the
//! "exactly one variant populated" invariant is unrepresentable to break,
//! and the boundary codec proves that the invariant survives conversion
//! into the generic structured-value representation handed to callers.
//!
//! Layout: [`primitives`], [`attributes`], [`header`], [`network`] and
//! [`replay`] are the data model; [`boundary`] is the generic value tree
//! callers consume; [`codec`] and [`document`] convert the model into it,
//! with contracts that pin field names, widths and every ordering;
//! [`config`] and [`facade`] wrap the external engine, which is reached
//! only through the trusted items in [`engine`].

pub mod attributes;
pub mod boundary;
pub mod codec;
pub mod config;
pub mod document;
pub mod engine;
pub mod facade;
pub mod header;
pub mod network;
pub mod primitives;
pub mod replay;

pub use config::{InternalCrcCheck, InternalNetworkParse};
pub use facade::{BoxcarsParser, DecodeError, DecodeErrorKind};
