//! A layered network-packet dissection engine.
//!
//! Given a raw byte buffer and a declared root encapsulation, the engine
//! decodes the buffer into an ordered chain of protocol layers, stopping
//! when no further decoder is registered or the buffer is exhausted.
//! Parsing is bounds-checked throughout: malformed or truncated input is
//! reported through [`Error`], never by a panic.

use vstd::prelude::*;

pub mod layers;
pub mod packet;
pub mod registry;
pub mod types;

verus! {

/// Every failure a dissection or a registration can report.
#[derive(Clone, Copy, PartialEq, Eq, Debug)]
pub enum Error {
    /// The remaining bytes are fewer than a layer's minimum header size.
    TooShort,
    /// A fixed-size sub-field could not be reinterpreted as its target shape.
    ConversionError,
    /// A registration attempted to reuse an already-claimed identifier.
    RegisterError,
    /// The requested root encapsulation has no corresponding decoder.
    UnknownEncapsulation,
}

} // verus!
