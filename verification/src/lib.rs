//! The verified core of a C boundary around a document-extraction engine.
//!
//! A caller without managed memory drives the engine through opaque
//! handles: it builds configurations, attaches them to an extractor, asks
//! for an extraction, reads the result as a string or pulls it from a
//! stream, and releases what it was given. This library holds every
//! decision that the boundary makes and every value that it hands out, as
//! plain data: a null pointer is `None`, a handle is a reference to its
//! record, a C string is its bytes with the terminator. Turning pointers
//! into these values and calling the engine is left to the thin layer that
//! exports the C symbols.
//!
//! Every operation reports a code: `ERR_OK` or one of a closed set of
//! negative numbers. A code is cheap. The full account of a failure is kept
//! as it is, per thread, and rendered only when it is asked for.
//!
//! No handle may be shared between threads without synchronisation, and no
//! handle may be used after its release. Ownership says the same: a release
//! consumes its handle, and a configuration that was attached to an
//! extractor has moved into it.
use vstd::prelude::*;

pub mod config;
pub mod errors;
pub mod extractor;
pub mod metadata;
pub mod stream;
pub mod text;
pub mod types;

verus! {

/// The version of this boundary. The text is static and never released.
pub fn extractous_ffi_version() -> (r: &'static str)
    ensures
        r@ == "0.1.0"@,
{
    "0.1.0"
}

/// The version of the engine that this boundary was written for. The text is
/// static and never released.
pub fn extractous_core_version() -> (r: &'static str)
    ensures
        r@ == "0.3.0"@,
{
    "0.3.0"
}

} // verus!
