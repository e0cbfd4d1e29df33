//! The capability contract a plugin object must satisfy.
//!
//! A plugin is polymorphic over three capability sets: identify (`name`,
//! `semantic_version`), lifecycle (`on_plugin_load`, `on_plugin_unload`) and
//! transform (`pre_operation`, `operation`, `post_operation`). The transform
//! hooks receive exclusive mutable access to a single shared integer state;
//! each hook's effect on that state is pinned by a spec function of the same
//! trait, so that the manager's dispatch contracts can speak of the exact
//! value a whole dispatch pass produces.
use vstd::prelude::*;

verus! {

/// The identify + lifecycle capability set on its own.
///
/// `ExamplePlugin` repeats these obligations rather than naming `Plugin` as a
/// supertrait: the manager holds plugins as trait objects, and a trait object
/// must carry every obligation the manager relies on in the one trait it is
/// built from.
pub trait Plugin {
    /// A short name identifying the plugin; static within its library.
    fn name(&self) -> &'static str;

    /// The plugin's semantic version string.
    fn semantic_version(&self) -> &'static str;

    /// Called exactly once, right after the plugin is registered.
    fn on_plugin_load(&self) {
    }

    /// Called exactly once, when the registry is drained.
    fn on_plugin_unload(&self) {
    }
}

/// The full capability set the manager stores and drives: identify,
/// lifecycle, and the three ordered transform hooks over the shared state.
///
/// Hooks are infallible by design: an implementation must accept every state
/// value, so a transform that would leave `u32` wraps rather than fails.
/// `pre_spec`, `op_spec` and `post_spec` give the mathematical effect of the
/// corresponding hook; every implementation is held to them, which is what
/// lets a dispatch pass over many plugins have an exact contract.
pub trait ExamplePlugin {
    /// The effect of `pre_operation` on the shared state.
    spec fn pre_spec(&self, d: u32) -> u32;

    /// The effect of `operation` on the shared state.
    spec fn op_spec(&self, d: u32) -> u32;

    /// The effect of `post_operation` on the shared state.
    spec fn post_spec(&self, d: u32) -> u32;

    /// A short name identifying the plugin; static within its library.
    fn name(&self) -> &'static str;

    /// The plugin's semantic version string.
    fn semantic_version(&self) -> &'static str;

    /// Called exactly once, right after the plugin is registered.
    fn on_plugin_load(&self) {
    }

    /// Called exactly once, when the registry is drained.
    fn on_plugin_unload(&self) {
    }

    /// First transform hook of a dispatch cycle.
    fn pre_operation(&self, data: &mut u32)
        ensures
            *final(data) == self.pre_spec(*old(data)),
    ;

    /// The mandatory central transform hook.
    fn operation(&self, data: &mut u32)
        ensures
            *final(data) == self.op_spec(*old(data)),
    ;

    /// Last transform hook of a dispatch cycle.
    fn post_operation(&self, data: &mut u32)
        ensures
            *final(data) == self.post_spec(*old(data)),
    ;
}

} // verus!
