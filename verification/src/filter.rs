use vstd::prelude::*;
use crate::accounting::RegionState;
use crate::accounting::RegionRecord;
use crate::error::ErrorCode;
use crate::registry::memberships_kept;
use crate::registry::FilterRecord;
use crate::registry::unchanged;
use crate::registry::Registry;
use crate::registry::RegistryState;

verus! {

/// A handle to a filter of a registry: the filter's index.
#[derive(Clone, Copy, Debug, PartialEq, Eq, Structural)]
pub struct Filter {
    pub id: usize,
    /// The registry run the filter was built in.
    pub run: u64,
}

/// Whether a filter built with `exclude` selects the plugin called `name`:
/// the empty pattern excludes nothing, any other excludes the plugin of
/// that name.
pub open spec fn included(name: Seq<char>, exclude: Seq<char>) -> bool {
    exclude.len() == 0 || name != exclude
}

/// Whether some unfinalized region is bound to the filter with index `id`.
pub open spec fn in_use(regions: Seq<RegionRecord>, id: int) -> bool {
    exists|r: int|
        0 <= r < regions.len() && (#[trigger] regions[r]).filter == id && regions[r].state
            != RegionState::Finalized
}

impl Filter {
    /// Whether the handle names a filter of the registry's current run.
    pub open spec fn known(&self, registry: Registry) -> bool {
        self.run == registry.run() && self.id < registry.filters().len()
    }

    /// Whether the handle names a filter of the current run that has not
    /// been released.
    pub open spec fn live(&self, registry: Registry) -> bool {
        self.known(registry) && !registry.filters()[self.id as int].released
    }

    /// Builds a filter that selects every catalog plugin but the one named
    /// `exclude`. The membership is computed now and never changes.
    pub fn new(registry: &mut Registry, exclude: &str) -> (result: Result<Filter, ErrorCode>)
        requires
            old(registry).wf(),
        ensures
            final(registry).wf(),
            memberships_kept(old(registry).filters(), final(registry).filters()),
            old(registry).state() != RegistryState::Ready ==> result == Err::<Filter, ErrorCode>(
                ErrorCode::InvalidState,
            ),
            old(registry).state() == RegistryState::Ready ==> result.is_ok(),
            result.is_err() ==> unchanged(*old(registry), *final(registry)),
            result.is_ok() ==> {
                let id = old(registry).filters().len() as int;
                &&& result.unwrap().id == id
                &&& result.unwrap().run == old(registry).run()
                &&& final(registry).run() == old(registry).run()
                &&& final(registry).state() == old(registry).state()
                &&& final(registry).plugins() == old(registry).plugins()
                &&& final(registry).regions() == old(registry).regions()
                &&& final(registry).filters().len() == id + 1
                &&& final(registry).filters().subrange(0, id) == old(registry).filters()
                &&& !final(registry).filters()[id].released
                &&& final(registry).filters()[id].members@.len() == old(registry).plugins().len()
                &&& forall|i: int|
                    0 <= i < old(registry).plugins().len() ==> #[trigger] final(registry).filters()[id].members@[i] == included(old(registry).plugins()[i].name@, exclude@)
            },
    {
        match registry.state {
            RegistryState::Ready => {},
            _ => {
                return Err(ErrorCode::InvalidState);
            },
        }
        let pattern: String = exclude.to_owned();
        let keep_all: bool = exclude.is_empty();
        let n: usize = registry.plugins.len();
        let mut members: Vec<bool> = Vec::new();
        let mut i: usize = 0;
        while i < n
            invariant
                n == registry.plugins@.len(),
                pattern@ == exclude@,
                keep_all == (exclude@.len() == 0),
                i <= n,
                members@.len() == i,
                forall|k: int|
                    0 <= k < i ==> #[trigger] members@[k] == included(registry.plugins@[k].name@, exclude@),
            decreases n - i,
        {
            let selected: bool = keep_all || !(registry.plugins[i].name == pattern);
            members.push(selected);
            i = i + 1;
        }
        let id: usize = registry.filters.len();
        registry.filters.push(FilterRecord { members, released: false });
        proof {
            assert(registry.filters@.subrange(0, id as int) =~= old(registry).filters@);
        }
        Ok(Filter { id, run: registry.run })
    }

    /// Releases the filter. Fails with `InvalidFilter` when the handle names
    /// no filter or the filter was already released, and with `FilterInUse`
    /// while an unfinalized region is bound to it.
    pub fn finalize(&self, registry: &mut Registry) -> (result: Result<(), ErrorCode>)
        requires
            old(registry).wf(),
        ensures
            final(registry).wf(),
            memberships_kept(old(registry).filters(), final(registry).filters()),
            old(registry).state() != RegistryState::Ready ==> result == Err::<(), ErrorCode>(
                ErrorCode::InvalidFilter,
            ),
            !self.live(*old(registry))
                ==> result == Err::<(), ErrorCode>(ErrorCode::InvalidFilter),
            self.live(*old(registry))
                && in_use(old(registry).regions(), self.id as int) ==> result == Err::<(), ErrorCode>(
                ErrorCode::FilterInUse,
            ),
            self.live(*old(registry))
                && !in_use(old(registry).regions(), self.id as int) ==> result.is_ok(),
            result.is_err() ==> unchanged(*old(registry), *final(registry)),
            result.is_ok() ==> {
                &&& final(registry).state() == old(registry).state()
                &&& final(registry).run() == old(registry).run()
                &&& final(registry).plugins() == old(registry).plugins()
                &&& final(registry).regions() == old(registry).regions()
                &&& final(registry).filters().len() == old(registry).filters().len()
                &&& final(registry).filters()[self.id as int].released
                &&& forall|f: int|
                    0 <= f < old(registry).filters().len() && f != self.id ==> #[trigger] final(registry).filters()[f] == old(registry).filters()[f]
            },
    {
        if self.run != registry.run || self.id >= registry.filters.len() {
            return Err(ErrorCode::InvalidFilter);
        }
        if registry.filters[self.id].released {
            return Err(ErrorCode::InvalidFilter);
        }
        let n: usize = registry.regions.len();
        let mut r: usize = 0;
        while r < n
            invariant
                *registry == *old(registry),
                registry.wf(),
                self.run == registry.run,
                self.id < registry.filters@.len(),
                !registry.filters@[self.id as int].released,
                n == registry.regions@.len(),
                r <= n,
                forall|k: int|
                    0 <= k < r ==> !((#[trigger] registry.regions@[k]).filter == self.id
                        && registry.regions@[k].state != RegionState::Finalized),
            decreases n - r,
        {
            if registry.regions[r].filter == self.id {
                match registry.regions[r].state {
                    RegionState::Finalized => {},
                    _ => {
                        return Err(ErrorCode::FilterInUse);
                    },
                }
            }
            r = r + 1;
        }
        registry.filters[self.id].released = true;
        Ok(())
    }

    /// Whether the handle names a filter that has not been released.
    pub fn is_valid(&self, registry: &Registry) -> (valid: bool)
        ensures
            valid == self.live(*registry),
    {
        self.run == registry.run && self.id < registry.filters.len() && !registry.filters[self.id].released
    }

    /// Whether the filter selects the catalog plugin with the given index.
    /// `None` when the handle names no filter or the filter has no such
    /// plugin.
    pub fn selects(&self, registry: &Registry, plugin_id: usize) -> (selected: Option<bool>)
        ensures
            selected.is_some() == (self.known(*registry) && plugin_id
                < registry.filters()[self.id as int].members@.len()),
            selected.is_some() ==> selected.unwrap()
                == registry.filters()[self.id as int].members@[plugin_id as int],
    {
        if self.run == registry.run && self.id < registry.filters.len() && plugin_id
            < registry.filters[self.id].members.len() {
            Some(registry.filters[self.id].members[plugin_id])
        } else {
            None
        }
    }
}

} // verus!
