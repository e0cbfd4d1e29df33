//! The logger-bridge contract.
//!
//! Each independently compiled shared library carries its own private copy of
//! the logging front-end's global dispatch slot, so host-side log
//! configuration does not automatically apply inside plugin code. A library
//! may therefore export an optional second factory that installs a forwarding
//! logger into the library's own slot and returns a handle satisfying this
//! trait. `unset` undoes the installation: it must run strictly before the
//! library is unmapped and before the host sink it forwards to could go away.
use vstd::prelude::*;

verus! {

/// An owning handle over a forwarding logger installed inside a plugin
/// library.
pub trait PluginLogger {
    /// Replaces the library's global logging slot with a no-op sink and
    /// resets its threshold to a minimal level.
    fn unset(&self);
}

} // verus!
