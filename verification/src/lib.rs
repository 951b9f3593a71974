//! Host-side runtime for a binary audio-plugin interface standard.
//!
//! A conforming plugin binary exposes reference-counted capability objects
//! behind fixed-layout dispatch tables.  This crate holds the host logic that
//! can be stated and proved over plain values: identifier parsing and
//! formatting, bundle-path resolution, class-record decoding, the instance
//! lifecycle state machine, bus negotiation policy, and the bookkeeping of the
//! real-time process-block driver.  The raw dispatch into a loaded binary is
//! the embedding application's job; it hands this library the status codes and
//! records that came back and obeys the decisions made here.

use vstd::prelude::*;

pub mod abi;
pub mod bundle;
pub mod bus;
pub mod classinfo;
pub mod ids;
pub mod lifecycle;
pub mod process;
pub mod refcount;

verus! {

/// Errors surfaced by the host runtime.
///
/// Load and resolve errors are fatal to the operation that met them; a
/// `TErr` carries the raw status code a dispatch call returned; `IidLength`
/// names the digit count observed when a hex identifier had the wrong length.
#[derive(Debug)]
pub enum HostError {
    /// The native binary could not be opened; carries the loader's message.
    Dlopen(String),
    /// The well-known factory entry symbol is absent from the binary.
    NoFactorySymbol,
    /// The factory entry point ran but returned a null pointer.
    NullFactory,
    /// The given path is not a bundle directory with the expected extension.
    InvalidBundle(String),
    /// The bundle holds no binary under its platform subdirectory.
    BinaryNotFound,
    /// A fixed-size text field was not valid UTF-8.
    Utf8,
    /// A dispatch call returned this non-success status code.
    TErr(i32),
    /// A buffer could not be allocated.
    Alloc,
    /// The object does not expose the requested capability.
    NoInterface,
    /// A hex identifier had this many digits after stripping separators,
    /// where exactly 32 are required.
    IidLength(usize),
}

} // verus!
