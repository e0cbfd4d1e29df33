use std::cell::RefCell;
use std::rc::Rc;

use plugin_host::ExamplePlugin;
use plugin_host::LoadPluginError;
use plugin_host::LoadProbe;
use plugin_host::MyExamplePlugin;
use plugin_host::Plugin;
use plugin_host::PluginLogger;
use plugin_host::PluginManager;

type EventLog = Rc<RefCell<Vec<String>>>;

/// A plugin whose hooks record their invocation order and apply a
/// configurable arithmetic step in `operation`.
struct RecordingPlugin {
    tag: &'static str,
    add: u32,
    mul: u32,
    log: EventLog,
}

impl RecordingPlugin {
    fn record(&self, hook: &str) {
        self.log.borrow_mut().push(format!("{}:{}", hook, self.tag));
    }
}

impl ExamplePlugin for RecordingPlugin {
    // The effect descriptions mirror the executable hooks below; outside the
    // verifier they are ordinary provided items and are never called.
    fn pre_spec(&self, d: u32) -> u32 {
        d
    }

    fn op_spec(&self, d: u32) -> u32 {
        d.wrapping_add(self.add).wrapping_mul(self.mul)
    }

    fn post_spec(&self, d: u32) -> u32 {
        d
    }

    fn name(&self) -> &'static str {
        self.tag
    }

    fn semantic_version(&self) -> &'static str {
        "0.0.0"
    }

    fn on_plugin_load(&self) {
        self.record("load");
    }

    fn on_plugin_unload(&self) {
        self.record("unload");
    }

    fn pre_operation(&self, _data: &mut u32) {
        self.record("pre");
    }

    fn operation(&self, data: &mut u32) {
        self.record("op");
        *data = data.wrapping_add(self.add).wrapping_mul(self.mul);
    }

    fn post_operation(&self, _data: &mut u32) {
        self.record("post");
    }
}

/// A logger-bridge handle that records when it is undone.
struct RecordingLogger {
    tag: &'static str,
    log: EventLog,
}

impl PluginLogger for RecordingLogger {
    fn unset(&self) {
        self.log.borrow_mut().push(format!("unset:{}", self.tag));
    }
}

/// A library handle that records its release, standing in for the unmapping
/// of a shared library.
struct LibStub {
    tag: &'static str,
    log: EventLog,
}

impl Drop for LibStub {
    fn drop(&mut self) {
        self.log.borrow_mut().push(format!("release:{}", self.tag));
    }
}

fn new_log() -> EventLog {
    Rc::new(RefCell::new(Vec::new()))
}

fn recording_probe(
    tag: &'static str,
    add: u32,
    mul: u32,
    with_logger: bool,
    log: &EventLog,
) -> LoadProbe<LibStub> {
    let plugin: Box<dyn ExamplePlugin> = Box::new(RecordingPlugin {
        tag,
        add,
        mul,
        log: log.clone(),
    });
    let logger: Option<Box<dyn PluginLogger>> = if with_logger {
        Some(Box::new(RecordingLogger {
            tag,
            log: log.clone(),
        }))
    } else {
        None
    };
    LoadProbe::Resolved {
        library: LibStub {
            tag,
            log: log.clone(),
        },
        plugin,
        logger,
    }
}

#[test]
fn single_plugin_hook_sequence() {
    let mut manager: PluginManager<u8> = PluginManager::new();
    let plugin: Box<dyn ExamplePlugin> = Box::new(MyExamplePlugin {});
    let outcome = manager.load_plugin(LoadProbe::Resolved {
        library: 0,
        plugin,
        logger: None,
    });
    assert!(outcome.is_ok());
    assert_eq!(manager.plugin_count(), 1);
    assert_eq!(manager.library_count(), 1);

    let mut data: u32 = 21;
    manager.pre_operation(&mut data);
    assert_eq!(data, 22);
    manager.operation(&mut data);
    assert_eq!(data, 44);
    manager.post_operation(&mut data);
    assert_eq!(data, 42);
}

#[test]
fn registration_order_drives_dispatch() {
    // A adds 10, B multiplies by 3: registered A-then-B, state 1 becomes
    // (1 + 10) * 3 = 33.
    let log = new_log();
    let mut manager: PluginManager<LibStub> = PluginManager::new();
    assert!(manager
        .load_plugin(recording_probe("a", 10, 1, false, &log))
        .is_ok());
    assert!(manager
        .load_plugin(recording_probe("b", 0, 3, false, &log))
        .is_ok());

    let mut data: u32 = 1;
    manager.pre_operation(&mut data);
    manager.operation(&mut data);
    manager.post_operation(&mut data);
    assert_eq!(data, 33);

    // Every hook visits A before B.
    assert_eq!(
        log.borrow().as_slice(),
        &[
            "load:a", "load:b", "pre:a", "pre:b", "op:a", "op:b", "post:a", "post:b",
        ]
    );
}

#[test]
fn reversed_registration_changes_result() {
    // B-then-A on state 1: 1 * 3 = 3, then 3 + 10 = 13.
    let log = new_log();
    let mut manager: PluginManager<LibStub> = PluginManager::new();
    assert!(manager
        .load_plugin(recording_probe("b", 0, 3, false, &log))
        .is_ok());
    assert!(manager
        .load_plugin(recording_probe("a", 10, 1, false, &log))
        .is_ok());

    let mut data: u32 = 1;
    manager.operation(&mut data);
    assert_eq!(data, 13);
    assert_eq!(log.borrow().as_slice(), &["load:b", "load:a", "op:b", "op:a"]);
}

#[test]
fn open_failure_leaves_registry_unchanged() {
    let log = new_log();
    let mut manager: PluginManager<LibStub> = PluginManager::new();
    assert!(manager
        .load_plugin(recording_probe("a", 1, 1, false, &log))
        .is_ok());

    let outcome = manager.load_plugin(LoadProbe::OpenFailed(String::from("no such file")));
    match outcome {
        Err(LoadPluginError::FailedToLoad(detail)) => assert_eq!(detail, "no such file"),
        other => panic!("expected FailedToLoad, got {:?}", other.is_ok()),
    }
    assert_eq!(manager.plugin_count(), 1);
    assert_eq!(manager.library_count(), 1);
}

#[test]
fn missing_factory_keeps_library_slot() {
    let log = new_log();
    let mut manager: PluginManager<LibStub> = PluginManager::new();
    let outcome = manager.load_plugin(LoadProbe::MissingPluginFactory {
        library: LibStub {
            tag: "l",
            log: log.clone(),
        },
        logger: None,
        detail: String::from("symbol not found"),
    });
    match outcome {
        Err(LoadPluginError::PluginCreateNotFound(detail)) => {
            assert_eq!(detail, "symbol not found")
        }
        other => panic!("expected PluginCreateNotFound, got {:?}", other.is_ok()),
    }
    // No usable plugin, but the opened library is retained as a slot.
    assert_eq!(manager.plugin_count(), 0);
    assert_eq!(manager.library_count(), 1);
    // No hook ran on the empty registry.
    let mut data: u32 = 5;
    manager.operation(&mut data);
    assert_eq!(data, 5);
}

#[test]
fn missing_factory_releases_built_logger() {
    // The logger factory may already have run when the mandatory factory
    // turns out to be absent; the built handle is released with the probe.
    let log = new_log();
    let mut manager: PluginManager<LibStub> = PluginManager::new();
    let logger: Option<Box<dyn PluginLogger>> = Some(Box::new(RecordingLogger {
        tag: "l",
        log: log.clone(),
    }));
    let outcome = manager.load_plugin(LoadProbe::MissingPluginFactory {
        library: LibStub {
            tag: "l",
            log: log.clone(),
        },
        logger,
        detail: String::from("symbol not found"),
    });
    assert!(outcome.is_err());
    assert_eq!(manager.plugin_count(), 0);
    assert_eq!(manager.library_count(), 1);
}

#[test]
fn plugin_without_logger_bridge_loads_and_dispatches() {
    let log = new_log();
    let mut manager: PluginManager<LibStub> = PluginManager::new();
    assert!(manager
        .load_plugin(recording_probe("a", 2, 1, false, &log))
        .is_ok());

    let mut data: u32 = 0;
    manager.operation(&mut data);
    assert_eq!(data, 2);

    manager.unload();
    // The slot had no bridge, so teardown fires no unset.
    assert_eq!(
        log.borrow().as_slice(),
        &["load:a", "op:a", "unload:a", "release:a"]
    );
}

#[test]
fn teardown_is_idempotent() {
    let log = new_log();
    let mut manager: PluginManager<LibStub> = PluginManager::new();
    assert!(manager
        .load_plugin(recording_probe("a", 1, 1, true, &log))
        .is_ok());

    manager.unload();
    let after_first: Vec<String> = log.borrow().clone();
    assert_eq!(
        after_first.as_slice(),
        &["load:a", "unload:a", "unset:a", "release:a"]
    );

    // A second drain finds an empty registry and touches nothing.
    manager.unload();
    assert_eq!(log.borrow().as_slice(), after_first.as_slice());
    assert_eq!(manager.plugin_count(), 0);
    assert_eq!(manager.library_count(), 0);

    // Dropping the manager after an explicit unload fires nothing either.
    drop(manager);
    assert_eq!(log.borrow().as_slice(), after_first.as_slice());
}

#[test]
fn unload_order_across_three_plugins() {
    let log = new_log();
    let mut manager: PluginManager<LibStub> = PluginManager::new();
    for tag in ["a", "b", "c"] {
        assert!(manager
            .load_plugin(recording_probe(tag, 0, 1, true, &log))
            .is_ok());
    }
    log.borrow_mut().clear();

    manager.unload();
    // Records drain in registration order — each plugin's unload hook, then
    // its bridge's unset — and only then are the libraries released, in
    // registration order.
    assert_eq!(
        log.borrow().as_slice(),
        &[
            "unload:a", "unset:a", "unload:b", "unset:b", "unload:c", "unset:c", "release:a",
            "release:b", "release:c",
        ]
    );
}

#[test]
fn example_plugin_identity() {
    let plugin = MyExamplePlugin {};
    assert_eq!(Plugin::name(&plugin), "TestPlugin");
    assert_eq!(Plugin::semantic_version(&plugin), "0.1.0");
    assert_eq!(ExamplePlugin::name(&plugin), "TestPlugin");
    assert_eq!(ExamplePlugin::semantic_version(&plugin), "0.1.0");
}

#[test]
fn example_plugin_hooks_wrap_at_limits() {
    let plugin = MyExamplePlugin {};
    let mut data: u32 = u32::MAX;
    plugin.pre_operation(&mut data);
    assert_eq!(data, 0);

    data = 1 << 31;
    plugin.operation(&mut data);
    assert_eq!(data, 0);

    data = 1;
    plugin.post_operation(&mut data);
    assert_eq!(data, u32::MAX);
}
