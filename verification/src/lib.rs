//! A host-side plugin system: a manager that owns plugins loaded from native
//! shared libraries, drives their ordered transform hooks over a shared
//! integer state, and tears everything down in a two-phase drain that keeps
//! every plugin object alive no longer than the library its code lives in.
//!
//! Opening a shared library and resolving its factory symbols is operating
//! system work that cannot be verified; the host glue performs it and hands
//! the manager a [`plugin_manager::LoadProbe`] describing what it found. From
//! that point on — registration, dispatch order, error handling, and the
//! drain — everything is verified.
pub mod example_plugin;
pub mod logger;
pub mod plugin;
pub mod plugin_manager;

pub use example_plugin::MyExamplePlugin;
pub use logger::PluginLogger;
pub use plugin::ExamplePlugin;
pub use plugin::Plugin;
pub use plugin_manager::LoadPluginError;
pub use plugin_manager::LoadProbe;
pub use plugin_manager::PluginManager;
pub use plugin_manager::PluginRecord;
