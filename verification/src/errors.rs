//! The two failure kinds a caller sees: a load that could not parse a
//! manifest, and a rendering that could not serialize one.  Each is
//! opaque to the caller beyond the text of its underlying cause.

use vstd::prelude::*;

verus! {

/// A failure while loading a workspace's manifests into memory.
#[derive(Debug)]
pub struct LoadError {
    /// The underlying cause, as the parser reported it.
    pub message: String,
}

/// A failure while rendering the in-memory manifests back to text.
#[derive(Debug)]
pub struct PersistError {
    /// The underlying cause, as the serializer reported it.
    pub message: String,
}

/// Collapse an arbitrary cause into the opaque load failure — the
/// library's counterpart of an I/O error of the catch-all kind.
pub fn io_error_other(message: String) -> (r: LoadError)
    ensures
        r.message == message,
{
    LoadError { message }
}

} // verus!
