use vstd::prelude::*;
use crate::accounting::RegionRecord;
use crate::accounting::RegionState;
use crate::catalog::catalog_of;
use crate::catalog::plugin_wf;
use crate::catalog::selected_keys;
use crate::catalog::admitted;
use crate::catalog::admitted_count;
use crate::catalog::catalog_has_name;
use crate::catalog::distinct_names;
use crate::catalog::lemma_name_in_push;
use crate::catalog::lemma_usable_name_step;
use crate::catalog::name_in;
use crate::catalog::usable_name_before;
use crate::catalog::plugin_from;
use crate::catalog::Plugin;
use crate::catalog::PluginProbe;
use crate::error::ErrorCode;

verus! {

/// Where the registry stands in its lifecycle.
#[derive(Clone, Copy, Debug, PartialEq, Eq, Structural)]
pub enum RegistryState {
    Uninitialized,
    Ready,
    Finalized,
}

/// A filter's frozen plugin membership and whether it was released.
pub struct FilterRecord {
    /// One flag per catalog plugin: whether the filter selects it.
    pub members: Vec<bool>,
    pub released: bool,
}

/// The context that owns the plugin catalog and every filter and region
/// built on it. Filters and regions are named by their index, which never
/// changes while the registry is ready.
pub struct Registry {
    pub(crate) state: RegistryState,
    /// How many times the registry was made ready; handles carry the run
    /// they were made in.
    pub(crate) run: u64,
    pub(crate) plugins: Vec<Plugin>,
    pub(crate) filters: Vec<FilterRecord>,
    pub(crate) regions: Vec<RegionRecord>,
}

/// Whether any filter is unreleased or any region unfinalized.
pub open spec fn has_open(filters: Seq<FilterRecord>, regions: Seq<RegionRecord>) -> bool {
    ||| exists|f: int| 0 <= f < filters.len() && !(#[trigger] filters[f]).released
    ||| exists|r: int| 0 <= r < regions.len() && (#[trigger] regions[r]).state != RegionState::Finalized
}

/// Plugin indices in reverse discovery order: the order of teardown.
pub open spec fn teardown_order(count: nat) -> Seq<usize> {
    Seq::new(count, |k: int| (count - 1 - k) as usize)
}

/// Every filter of `pre` is a filter of `post` with the same membership.
pub open spec fn memberships_kept(pre: Seq<FilterRecord>, post: Seq<FilterRecord>) -> bool {
    &&& pre.len() <= post.len()
    &&& forall|f: int| 0 <= f < pre.len() ==> (#[trigger] post[f]).members@ == pre[f].members@
}

/// The two registries hold the same state, catalog, filters and regions.
pub open spec fn unchanged(pre: Registry, post: Registry) -> bool {
    &&& post.state() == pre.state()
    &&& post.run() == pre.run()
    &&& post.plugins() == pre.plugins()
    &&& post.filters() == pre.filters()
    &&& post.regions() == pre.regions()
}

impl Registry {
    /// The lifecycle state.
    pub open(crate) spec fn state(&self) -> RegistryState {
        self.state
    }

    /// The number of the current run: how many times `init` succeeded.
    pub open(crate) spec fn run(&self) -> u64 {
        self.run
    }

    /// The catalog, in discovery order.
    pub open(crate) spec fn plugins(&self) -> Seq<Plugin> {
        self.plugins@
    }

    /// Every filter ever built on this catalog, by index.
    pub open(crate) spec fn filters(&self) -> Seq<FilterRecord> {
        self.filters@
    }

    /// Every region ever defined on this catalog, by index.
    pub open(crate) spec fn regions(&self) -> Seq<RegionRecord> {
        self.regions@
    }

    /// The registry's invariant.
    pub open(crate) spec fn wf(&self) -> bool {
        &&& forall|i: int| 0 <= i < self.plugins@.len() ==> plugin_wf(#[trigger] self.plugins@[i], i)
        &&& distinct_names(self.plugins@)
        &&& forall|r: int|
            0 <= r < self.regions@.len() ==> {
                &&& (#[trigger] self.regions@[r]).wf()
                &&& self.regions@[r].filter < self.filters@.len()
                &&& self.regions@[r].state != RegionState::Finalized
                    ==> !self.filters@[self.regions@[r].filter as int].released
            }
        &&& self.state == RegistryState::Ready ==> forall|f: int|
            0 <= f < self.filters@.len() ==> (#[trigger] self.filters@[f]).members@.len()
                == self.plugins@.len()
        &&& self.state == RegistryState::Ready ==> forall|r: int|
            0 <= r < self.regions@.len() ==> (#[trigger] self.regions@[r]).devices@ == selected_keys(
                self.plugins@,
                self.filters@[self.regions@[r].filter as int].members@,
                self.plugins@.len() as int,
            )
        &&& self.state != RegistryState::Ready ==> !has_open(self.filters@, self.regions@)
            && self.plugins@.len() == 0
    }

    /// A registry before its first `init`: no catalog, no filter, no region.
    pub fn new() -> (registry: Registry)
        ensures
            registry.wf(),
            registry.state() == RegistryState::Uninitialized,
            registry.run() == 0,
            registry.plugins().len() == 0,
            registry.filters().len() == 0,
            registry.regions().len() == 0,
    {
        Registry {
            state: RegistryState::Uninitialized,
            run: 0,
            plugins: Vec::new(),
            filters: Vec::new(),
            regions: Vec::new(),
        }
    }

    /// The lifecycle state.
    pub fn lifecycle(&self) -> (state: RegistryState)
        ensures
            state == self.state(),
    {
        self.state
    }

    /// The number of the current run.
    pub fn run_number(&self) -> (run: u64)
        ensures
            run == self.run(),
    {
        self.run
    }

    /// The number of filters ever built on this catalog.
    pub fn filter_count(&self) -> (count: usize)
        ensures
            count == self.filters().len(),
    {
        self.filters.len()
    }

    /// The number of regions ever defined on this catalog.
    pub fn region_count(&self) -> (count: usize)
        ensures
            count == self.regions().len(),
    {
        self.regions.len()
    }

    /// The record of the filter with the given index, if there is one.
    pub fn filter(&self, id: usize) -> (record: Option<&FilterRecord>)
        ensures
            record.is_some() == (id < self.filters().len()),
            record.is_some() ==> *record.unwrap() == self.filters()[id as int],
    {
        if id < self.filters.len() {
            Some(&self.filters[id])
        } else {
            None
        }
    }

    /// The record of the region with the given index, if there is one.
    pub fn region(&self, id: usize) -> (record: Option<&RegionRecord>)
        ensures
            record.is_some() == (id < self.regions().len()),
            record.is_some() ==> *record.unwrap() == self.regions()[id as int],
    {
        if id < self.regions.len() {
            Some(&self.regions[id])
        } else {
            None
        }
    }

    /// Whether any filter is unreleased or any region unfinalized.
    pub fn has_outstanding(&self) -> (open: bool)
        ensures
            open == has_open(self.filters(), self.regions()),
    {
        let nf: usize = self.filters.len();
        let mut f: usize = 0;
        while f < nf
            invariant
                nf == self.filters@.len(),
                f <= nf,
                forall|k: int| 0 <= k < f ==> (#[trigger] self.filters@[k]).released,
            decreases nf - f,
        {
            if !self.filters[f].released {
                return true;
            }
            f = f + 1;
        }
        let nr: usize = self.regions.len();
        let mut r: usize = 0;
        while r < nr
            invariant
                nr == self.regions@.len(),
                r <= nr,
                forall|k: int| 0 <= k < nf ==> (#[trigger] self.filters@[k]).released,
                nf == self.filters@.len(),
                forall|k: int| 0 <= k < r ==> (#[trigger] self.regions@[k]).state == RegionState::Finalized,
            decreases nr - r,
        {
            match self.regions[r].state {
                RegionState::Finalized => {},
                _ => {
                    return true;
                },
            }
            r = r + 1;
        }
        false
    }
}

/// Builds the catalog from what discovery found and makes the registry
/// ready. A plugin that did not initialize, or that reports a device with
/// an unusable counter width, is left out, and so is a plugin whose name an
/// earlier catalog entry already bears: names in the catalog are unique.
/// Discovery that failed as a whole (`None`) is an error, and so is a
/// registry whose run number has no successor. Filters and regions of an
/// earlier run are dropped, and the run number grows by one, so that no
/// handle of an earlier run names anything of this one.
pub fn init(registry: &mut Registry, discovered: Option<Vec<PluginProbe>>) -> (result: Result<
    (),
    ErrorCode,
>)
    requires
        old(registry).wf(),
    ensures
        final(registry).wf(),
        old(registry).state() == RegistryState::Ready ==> result == Err::<(), ErrorCode>(
            ErrorCode::InvalidState,
        ),
        old(registry).state() != RegistryState::Ready && (discovered.is_none() || old(registry).run()
            == u64::MAX) ==> result == Err::<(), ErrorCode>(ErrorCode::InitError),
        old(registry).state() != RegistryState::Ready && discovered.is_some() && old(registry).run()
            < u64::MAX ==> result.is_ok(),
        result.is_err() ==> unchanged(*old(registry), *final(registry)),
        result.is_ok() ==> {
            &&& final(registry).state() == RegistryState::Ready
            &&& final(registry).run() == old(registry).run() + 1
            &&& catalog_of(final(registry).plugins(), discovered.unwrap()@)
            &&& distinct_names(final(registry).plugins())
            &&& final(registry).filters().len() == 0
            &&& final(registry).regions().len() == 0
        },
{
    match registry.state {
        RegistryState::Ready => {
            return Err(ErrorCode::InvalidState);
        },
        _ => {},
    }
    let probes: Vec<PluginProbe> = match discovered {
        None => {
            return Err(ErrorCode::InitError);
        },
        Some(probes) => probes,
    };
    if registry.run == u64::MAX {
        return Err(ErrorCode::InitError);
    }
    let mut plugins: Vec<Plugin> = Vec::new();
    let n: usize = probes.len();
    let mut i: usize = 0;
    while i < n
        invariant
            n == probes@.len(),
            i <= n,
            plugins@.len() == admitted_count(probes@, i as int),
            plugins@.len() <= i,
            forall|p: int| 0 <= p < plugins@.len() ==> plugin_wf(#[trigger] plugins@[p], p),
            distinct_names(plugins@),
            forall|name: Seq<char>| #[trigger]
                name_in(plugins@, name) == usable_name_before(probes@, i as int, name),
            forall|k: int|
                0 <= k < i && #[trigger] admitted(probes@, k) ==> {
                    &&& admitted_count(probes@, k) < plugins@.len()
                    &&& plugin_from(
                        plugins@[admitted_count(probes@, k) as int],
                        probes@[k],
                        admitted_count(probes@, k) as int,
                    )
                },
        decreases n - i,
    {
        let ghost before = plugins@;
        let enters: bool = probes[i].is_usable() && !catalog_has_name(&plugins, &probes[i].name);
        assert(enters == admitted(probes@, i as int));
        if enters {
            let plugin: Plugin = probes[i].to_plugin(plugins.len());
            plugins.push(plugin);
            proof {
                assert forall|a: int, b: int| 0 <= a < b < plugins@.len() implies (#[trigger] plugins@[a]).name@
                    != (#[trigger] plugins@[b]).name@ by {
                    if b == before.len() {
                        assert(before[a].name@ != probes@[i as int].name@);
                    } else {
                        assert(before[a].name@ != before[b].name@);
                    }
                }
                assert forall|name: Seq<char>| #[trigger]
                    name_in(plugins@, name) == usable_name_before(probes@, i + 1, name) by {
                    lemma_name_in_push(before, plugin, name);
                    lemma_usable_name_step(probes@, i as int, name);
                }
            }
        } else {
            proof {
                assert forall|name: Seq<char>| #[trigger]
                    name_in(plugins@, name) == usable_name_before(probes@, i + 1, name) by {
                    lemma_usable_name_step(probes@, i as int, name);
                }
            }
        }
        i = i + 1;
    }
    registry.plugins = plugins;
    registry.filters = Vec::new();
    registry.regions = Vec::new();
    registry.state = RegistryState::Ready;
    registry.run = registry.run + 1;
    Ok(())
}

/// Tears the registry down and returns the plugin indices in the order in
/// which the plugins are to be finalized: reverse discovery order. Fails
/// while any filter is unreleased or any region unfinalized. The catalog is
/// released; the filter and region records stay readable.
pub fn finalize(registry: &mut Registry) -> (result: Result<Vec<usize>, ErrorCode>)
    requires
        old(registry).wf(),
    ensures
        final(registry).wf(),
        memberships_kept(old(registry).filters(), final(registry).filters()),
        old(registry).state() != RegistryState::Ready ==> result == Err::<Vec<usize>, ErrorCode>(
            ErrorCode::InvalidState,
        ),
        old(registry).state() == RegistryState::Ready && has_open(
            old(registry).filters(),
            old(registry).regions(),
        ) ==> result == Err::<Vec<usize>, ErrorCode>(ErrorCode::OutstandingReferences),
        old(registry).state() == RegistryState::Ready && !has_open(
            old(registry).filters(),
            old(registry).regions(),
        ) ==> result.is_ok(),
        result.is_err() ==> unchanged(*old(registry), *final(registry)),
        result.is_ok() ==> {
            &&& result.unwrap()@ == teardown_order(old(registry).plugins().len())
            &&& final(registry).state() == RegistryState::Finalized
            &&& final(registry).run() == old(registry).run()
            &&& final(registry).plugins().len() == 0
            &&& final(registry).filters() == old(registry).filters()
            &&& final(registry).regions() == old(registry).regions()
        },
{
    match registry.state {
        RegistryState::Ready => {},
        _ => {
            return Err(ErrorCode::InvalidState);
        },
    }
    if registry.has_outstanding() {
        return Err(ErrorCode::OutstandingReferences);
    }
    let n: usize = registry.plugins.len();
    let mut order: Vec<usize> = Vec::new();
    let mut k: usize = 0;
    while k < n
        invariant
            k <= n,
            order@.len() == k,
            forall|j: int| 0 <= j < k ==> #[trigger] order@[j] == n - 1 - j,
        decreases n - k,
    {
        order.push(n - 1 - k);
        k = k + 1;
    }
    proof {
        assert(order@ =~= teardown_order(n as nat));
    }
    registry.plugins = Vec::new();
    registry.state = RegistryState::Finalized;
    Ok(order)
}

} // verus!
