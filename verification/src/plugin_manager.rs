//! The plugin lifecycle manager.
//!
//! The manager owns an ordered registry of plugin records and, in parallel,
//! the handles of the shared libraries the plugins came from. Opening a
//! library and resolving its factory symbols is operating-system work the
//! host glue performs; the glue reports what it found as a [`LoadProbe`] and
//! [`PluginManager::load_plugin`] turns that report into exactly one registry
//! transition. Dispatch walks the registry in registration order; teardown
//! drains it in two phases, records first, libraries last.
use vstd::prelude::*;

use crate::logger::PluginLogger;
use crate::plugin::ExamplePlugin;

verus! {

/// A registered plugin: the owned plugin object and, where the library
/// exported the optional logger factory, the owned bridge handle.
pub struct PluginRecord {
    /// The polymorphic plugin object constructed by the library's factory.
    pub plugin: Box<dyn ExamplePlugin>,
    /// The forwarding-logger handle, absent when the library does not bridge
    /// its logging to the host sink.
    pub logger: Option<Box<dyn PluginLogger>>,
}

/// Why a load attempt produced no usable plugin.
pub enum LoadPluginError {
    /// The library could not be opened at all; carries the loader's message.
    FailedToLoad(String),
    /// The library opened but lacks the mandatory plugin factory symbol;
    /// carries the resolver's message.
    PluginCreateNotFound(String),
}

/// What the host glue found when it opened a library and resolved its
/// factory symbols. Producing this value is unverifiable operating-system
/// work; consuming it, in [`PluginManager::load_plugin`], is verified.
pub enum LoadProbe<H> {
    /// The library could not be opened; no handle exists.
    OpenFailed(String),
    /// The library opened — the handle is `library` — and the optional
    /// logger factory may have run, but the mandatory plugin factory symbol
    /// is absent.
    MissingPluginFactory { library: H, logger: Option<Box<dyn PluginLogger>>, detail: String },
    /// Both resolutions succeeded: the handle, the constructed plugin, and
    /// the logger-bridge handle if the library exported that factory.
    Resolved { library: H, plugin: Box<dyn ExamplePlugin>, logger: Option<Box<dyn PluginLogger>> },
}

/// Owner of the ordered plugin registry and of the loaded library handles,
/// generic over the handle type `H` so that the lifecycle logic stands apart
/// from the operating-system loader behind it. The host's logging sink is
/// handed to the logger factories by the host glue at probe time, so the
/// manager itself never holds it.
///
/// Not thread-safe: one manager, one thread, operations run to completion.
pub struct PluginManager<H> {
    plugins: Vec<PluginRecord>,
    loaded_libraries: Vec<H>,
}

/// The state the shared integer reaches when each record of `rs`, in order,
/// applies the hook effect `f` to it.
pub open spec fn hook_chain(rs: Seq<PluginRecord>, d: u32, f: spec_fn(PluginRecord, u32) -> u32) -> u32
    decreases rs.len(),
{
    if rs.len() == 0 {
        d
    } else {
        hook_chain(rs.drop_first(), f(rs[0], d), f)
    }
}

/// The effect of one `pre_operation` dispatch pass over `rs`.
pub open spec fn pre_chain(rs: Seq<PluginRecord>, d: u32) -> u32 {
    hook_chain(rs, d, |r: PluginRecord, x: u32| r.plugin.pre_spec(x))
}

/// The effect of one `operation` dispatch pass over `rs`.
pub open spec fn op_chain(rs: Seq<PluginRecord>, d: u32) -> u32 {
    hook_chain(rs, d, |r: PluginRecord, x: u32| r.plugin.op_spec(x))
}

/// The effect of one `post_operation` dispatch pass over `rs`.
pub open spec fn post_chain(rs: Seq<PluginRecord>, d: u32) -> u32 {
    hook_chain(rs, d, |r: PluginRecord, x: u32| r.plugin.post_spec(x))
}

/// Appending a record to a registry makes its hook effect run last.
pub proof fn lemma_hook_chain_push(
    rs: Seq<PluginRecord>,
    r: PluginRecord,
    d: u32,
    f: spec_fn(PluginRecord, u32) -> u32,
)
    ensures
        hook_chain(rs.push(r), d, f) == f(r, hook_chain(rs, d, f)),
    decreases rs.len(),
{
    if rs.len() == 0 {
        assert(rs.push(r)[0] == r);
        assert(rs.push(r).drop_first() =~= Seq::<PluginRecord>::empty());
        assert(hook_chain(Seq::<PluginRecord>::empty(), f(r, d), f) == f(r, d));
    } else {
        assert(rs.push(r)[0] == rs[0]);
        assert(rs.push(r).drop_first() =~= rs.drop_first().push(r));
        lemma_hook_chain_push(rs.drop_first(), r, f(rs[0], d), f);
    }
}

/// Dispatch respects registration order: the registry `rs1 + rs2` first runs
/// `rs1`'s hooks over the state, then `rs2`'s over what they produced.
pub proof fn lemma_hook_chain_concat(
    rs1: Seq<PluginRecord>,
    rs2: Seq<PluginRecord>,
    d: u32,
    f: spec_fn(PluginRecord, u32) -> u32,
)
    ensures
        hook_chain(rs1 + rs2, d, f) == hook_chain(rs2, hook_chain(rs1, d, f), f),
    decreases rs1.len(),
{
    if rs1.len() == 0 {
        assert(rs1 + rs2 =~= rs2);
    } else {
        assert((rs1 + rs2).drop_first() =~= rs1.drop_first() + rs2);
        lemma_hook_chain_concat(rs1.drop_first(), rs2, f(rs1[0], d), f);
    }
}

/// Registration order determines dispatch order: with plugins `a` then `b`
/// registered, one `operation` pass applies `a`'s effect first and `b`'s to
/// its result; registering them the other way round composes the effects the
/// other way round.
pub proof fn lemma_registration_order_determines_dispatch(a: PluginRecord, b: PluginRecord, d: u32)
    ensures
        op_chain(seq![a, b], d) == b.plugin.op_spec(a.plugin.op_spec(d)),
        op_chain(seq![b, a], d) == a.plugin.op_spec(b.plugin.op_spec(d)),
{
    let f = |r: PluginRecord, x: u32| r.plugin.op_spec(x);
    assert(seq![a, b].drop_first() =~= seq![b]);
    assert(seq![b, a].drop_first() =~= seq![a]);
    lemma_hook_chain_singleton(b, f(a, d), f);
    lemma_hook_chain_singleton(a, f(b, d), f);
}

/// A registry of one plugin applies just that plugin's hook effect.
pub proof fn lemma_hook_chain_singleton(r: PluginRecord, d: u32, f: spec_fn(PluginRecord, u32) -> u32)
    ensures
        hook_chain(seq![r], d, f) == f(r, d),
{
    assert(seq![r].drop_first() =~= Seq::<PluginRecord>::empty());
    assert(hook_chain(Seq::<PluginRecord>::empty(), f(r, d), f) == f(r, d));
}

impl<H> PluginManager<H> {
    /// The registered plugin records, in registration order.
    pub closed spec fn records(&self) -> Seq<PluginRecord> {
        self.plugins@
    }

    /// The retained library handles, in registration order. May be longer
    /// than `records()`: a library whose mandatory factory was missing is
    /// retained as a slot with no record.
    pub closed spec fn libraries(&self) -> Seq<H> {
        self.loaded_libraries@
    }

    /// The ownership invariant: every record's code lives in one of the
    /// retained libraries, so records never outnumber libraries, and the
    /// registry must be drained records first.
    pub open spec fn wf(&self) -> bool {
        self.records().len() <= self.libraries().len()
    }

    /// A manager with an empty registry.
    pub fn new() -> (m: PluginManager<H>)
        ensures
            m.records() == Seq::<PluginRecord>::empty(),
            m.libraries() == Seq::<H>::empty(),
            m.wf(),
    {
        PluginManager { plugins: Vec::new(), loaded_libraries: Vec::new() }
    }

    /// How many usable plugins are registered.
    pub fn plugin_count(&self) -> (n: usize)
        ensures
            n == self.records().len(),
    {
        self.plugins.len()
    }

    /// How many library handles are retained.
    pub fn library_count(&self) -> (n: usize)
        ensures
            n == self.libraries().len(),
    {
        self.loaded_libraries.len()
    }

    /// Registers what a probe of one shared library found.
    ///
    /// A library that could not be opened changes nothing and the attempt
    /// fails with `FailedToLoad`. A library that opened but lacks the
    /// mandatory plugin factory is retained as a handle-only slot — its
    /// logger handle, if one was built, is released again — and the attempt
    /// fails with `PluginCreateNotFound`. Otherwise the manager takes
    /// ownership of handle, plugin and optional logger handle, fires the
    /// plugin's `on_plugin_load` hook, and appends the record; this is the
    /// only path that grows the plugin registry.
    pub fn load_plugin(&mut self, probe: LoadProbe<H>) -> (r: Result<(), LoadPluginError>)
        requires
            old(self).wf(),
        ensures
            final(self).wf(),
            probe matches LoadProbe::OpenFailed(detail) ==> {
                &&& r matches Err(e) && e matches LoadPluginError::FailedToLoad(s) && s == detail
                &&& final(self).records() == old(self).records()
                &&& final(self).libraries() == old(self).libraries()
            },
            probe matches LoadProbe::MissingPluginFactory { library, detail, .. } ==> {
                &&& r matches Err(e) && e matches LoadPluginError::PluginCreateNotFound(s) && s
                    == detail
                &&& final(self).records() == old(self).records()
                &&& final(self).libraries() == old(self).libraries().push(library)
                &&& final(self).libraries().len() == old(self).libraries().len() + 1
            },
            probe matches LoadProbe::Resolved { library, plugin, logger } ==> {
                &&& r matches Ok(())
                &&& final(self).records() == old(self).records().push(
                    PluginRecord { plugin, logger },
                )
                &&& final(self).records().len() == old(self).records().len() + 1
                &&& final(self).records().last() == PluginRecord { plugin, logger }
                &&& final(self).libraries() == old(self).libraries().push(library)
                &&& final(self).libraries().len() == old(self).libraries().len() + 1
            },
    {
        match probe {
            LoadProbe::OpenFailed(detail) => Err(LoadPluginError::FailedToLoad(detail)),
            LoadProbe::MissingPluginFactory { library, logger: _, detail } => {
                // The bridge handle, if the logger factory ran, is released
                // again with the probe; only the library handle is retained.
                self.loaded_libraries.push(library);
                Err(LoadPluginError::PluginCreateNotFound(detail))
            },
            LoadProbe::Resolved { library, plugin, logger } => {
                self.loaded_libraries.push(library);
                plugin.on_plugin_load();
                let record = PluginRecord { plugin, logger };
                let ghost rec = record;
                let ghost old_records = self.plugins@;
                self.plugins.push(record);
                proof {
                    vstd::seq::axiom_seq_push_len(old_records, rec);
                    vstd::seq::axiom_seq_push_index_same(old_records, rec, old_records.len() as int);
                }
                Ok(())
            },
        }
    }

    /// Runs every registered plugin's `pre_operation` hook, in registration
    /// order, threading the one shared state value through them.
    pub fn pre_operation(&mut self, data: &mut u32)
        ensures
            final(self).records() == old(self).records(),
            final(self).libraries() == old(self).libraries(),
            *final(data) == pre_chain(old(self).records(), *old(data)),
    {
        let ghost f = |r: PluginRecord, x: u32| r.plugin.pre_spec(x);
        let ghost rs = old(self).records();
        let ghost d0 = *data;
        let n = self.plugins.len();
        let mut i: usize = 0;
        #[verifier::loop_isolation(false)]
        while i < n
            invariant
                i <= n,
                n == rs.len(),
                self.records() == rs,
                self.libraries() == old(self).libraries(),
                *data == hook_chain(rs.take(i as int), d0, f),
            decreases n - i,
        {
            let ghost prefix = rs.take(i as int);
            let ghost before = *data;
            self.plugins[i].plugin.pre_operation(data);
            proof {
                assert(*data == f(rs[i as int], before));
                lemma_hook_chain_push(prefix, rs[i as int], d0, f);
                assert(rs.take(i as int + 1) =~= prefix.push(rs[i as int]));
            }
            i = i + 1;
        }
        proof {
            assert(rs.take(n as int) =~= rs);
        }
    }

    /// Runs every registered plugin's `operation` hook, in registration
    /// order, threading the one shared state value through them.
    pub fn operation(&mut self, data: &mut u32)
        ensures
            final(self).records() == old(self).records(),
            final(self).libraries() == old(self).libraries(),
            *final(data) == op_chain(old(self).records(), *old(data)),
    {
        let ghost f = |r: PluginRecord, x: u32| r.plugin.op_spec(x);
        let ghost rs = old(self).records();
        let ghost d0 = *data;
        let n = self.plugins.len();
        let mut i: usize = 0;
        #[verifier::loop_isolation(false)]
        while i < n
            invariant
                i <= n,
                n == rs.len(),
                self.records() == rs,
                self.libraries() == old(self).libraries(),
                *data == hook_chain(rs.take(i as int), d0, f),
            decreases n - i,
        {
            let ghost prefix = rs.take(i as int);
            let ghost before = *data;
            self.plugins[i].plugin.operation(data);
            proof {
                assert(*data == f(rs[i as int], before));
                lemma_hook_chain_push(prefix, rs[i as int], d0, f);
                assert(rs.take(i as int + 1) =~= prefix.push(rs[i as int]));
            }
            i = i + 1;
        }
        proof {
            assert(rs.take(n as int) =~= rs);
        }
    }

    /// Runs every registered plugin's `post_operation` hook, in registration
    /// order, threading the one shared state value through them.
    pub fn post_operation(&mut self, data: &mut u32)
        ensures
            final(self).records() == old(self).records(),
            final(self).libraries() == old(self).libraries(),
            *final(data) == post_chain(old(self).records(), *old(data)),
    {
        let ghost f = |r: PluginRecord, x: u32| r.plugin.post_spec(x);
        let ghost rs = old(self).records();
        let ghost d0 = *data;
        let n = self.plugins.len();
        let mut i: usize = 0;
        #[verifier::loop_isolation(false)]
        while i < n
            invariant
                i <= n,
                n == rs.len(),
                self.records() == rs,
                self.libraries() == old(self).libraries(),
                *data == hook_chain(rs.take(i as int), d0, f),
            decreases n - i,
        {
            let ghost prefix = rs.take(i as int);
            let ghost before = *data;
            self.plugins[i].plugin.post_operation(data);
            proof {
                assert(*data == f(rs[i as int], before));
                lemma_hook_chain_push(prefix, rs[i as int], d0, f);
                assert(rs.take(i as int + 1) =~= prefix.push(rs[i as int]));
            }
            i = i + 1;
        }
        proof {
            assert(rs.take(n as int) =~= rs);
        }
    }

    /// Drains the whole registry in two phases. First, for each record in
    /// registration order: fire `on_plugin_unload`, then undo that record's
    /// logger bridge, then release the record. Only after every record is
    /// gone are the library handles released, in registration order — no
    /// plugin object survives the library its code lives in. Draining an
    /// already empty registry touches nothing, so teardown is idempotent.
    pub fn unload(&mut self)
        ensures
            final(self).records() == Seq::<PluginRecord>::empty(),
            final(self).libraries() == Seq::<H>::empty(),
            final(self).wf(),
    {
        let n = self.plugins.len();
        let mut i: usize = 0;
        #[verifier::loop_isolation(false)]
        while i < n
            invariant
                i <= n,
                n == self.records().len(),
                self.records() == old(self).records(),
                self.libraries() == old(self).libraries(),
            decreases n - i,
        {
            let record = &self.plugins[i];
            record.plugin.on_plugin_unload();
            match &record.logger {
                Some(logger) => logger.unset(),
                None => (),
            }
            i = i + 1;
        }
        self.plugins.clear();
        self.loaded_libraries.clear();
    }
}

} // verus!
