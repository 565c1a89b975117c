//! Error taxonomy of the RPC facade.
//!
//! Every guard failure is an ordinary result value: an absent state, a
//! bad token and an absent filesystem are expected conditions, never
//! aborts.

use vstd::prelude::*;

verus! {

/// Errors surfaced by a filesystem implementation.
#[derive(Clone, Copy, Debug, PartialEq, Eq, Structural)]
pub enum FilesystemErrors {
    /// The state has no filesystem registered under the requested name.
    FilesystemNotFound,
    /// The filesystem has no file stored under the requested path.
    FileNotFound,
}

/// Errors surfaced by the extension registry.
#[derive(Clone, Copy, Debug, PartialEq, Eq, Structural)]
pub enum ExtensionErrors {
    /// The state has no loaded extension with the requested id.
    ExtensionNotFound,
}

/// Errors returned by the RPC facade.
#[derive(Clone, Copy, Debug, PartialEq, Eq, Structural)]
pub enum Errors {
    /// The registry has no state with the requested id.
    StateNotFound,
    /// The token does not authorize access to the requested state.
    BadToken,
    /// A filesystem-level failure, propagated to the caller.
    Fs(FilesystemErrors),
    /// An extension-level failure, propagated to the caller.
    Ext(ExtensionErrors),
}

} // verus!
