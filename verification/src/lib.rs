//! Models of a foreign process's in-memory string, vector and tagged-record
//! layouts, together with the state machine that governs installing and
//! removing function detours on that process's event dispatcher.
//!
//! Everything that reads or decides is verified here; the host side (actual
//! page-table calls, machine-code patching and the foreign dispatcher) hands
//! this library plain values and carries out the actions it decides on.

use vstd::prelude::*;

pub mod cxx;
pub mod dml;
pub mod event;
pub mod module;
pub mod paging;

pub use module::Module;

verus! {

/// Errors reported by the hooking library.
#[derive(Clone, Copy, Debug, PartialEq, Eq, Structural)]
pub enum HookError {
    /// String input holds an embedded terminator byte.
    InvalidStringData,
    /// A vector view's element size or address range breaks layout limits.
    LayoutViolation,
    /// The name resolver was used before it was installed.
    ResolverNotReady,
    /// The name resolver was installed a second time.
    ResolverAlreadySet,
    /// A page-protection change failed.
    ProtectionChangeError,
    /// A detour could not be initialized or enabled.
    HookInstallError,
    /// A byte-pattern scan found no match in the module image.
    SignatureNotFound,
}

} // verus!
