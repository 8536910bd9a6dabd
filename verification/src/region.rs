use vstd::prelude::*;
use crate::accounting::began;
use crate::accounting::retired;
use crate::accounting::ended;
use crate::accounting::readings_ok;
use crate::accounting::RegionRecord;
use crate::accounting::RegionState;
use crate::catalog::select_devices;
use crate::catalog::selected_keys;
use crate::catalog::DeviceKey;
use crate::error::ErrorCode;
use crate::filter::Filter;
use crate::registry::memberships_kept;
use crate::registry::unchanged;
use crate::registry::Registry;
use crate::registry::RegistryState;

verus! {

/// A handle to a region of a registry: the region's index.
#[derive(Clone, Copy, Debug, PartialEq, Eq, Structural)]
pub struct Region {
    pub id: usize,
    /// The registry run the region was defined in.
    pub run: u64,
}

/// `post` differs from `pre` in the region with index `id` at most.
pub open spec fn only_region_changed(pre: Registry, post: Registry, id: int) -> bool {
    &&& post.state() == pre.state()
    &&& post.run() == pre.run()
    &&& post.plugins() == pre.plugins()
    &&& post.filters() == pre.filters()
    &&& post.regions().len() == pre.regions().len()
    &&& forall|r: int| 0 <= r < pre.regions().len() && r != id ==> #[trigger] post.regions()[r] == pre.regions()[r]
}

impl Region {
    /// Whether the handle names a region of the registry's current run.
    pub open spec fn known(&self, registry: Registry) -> bool {
        self.run == registry.run() && self.id < registry.regions().len()
    }

    /// The region's record; meaningful where the handle is known.
    pub open spec fn record(&self, registry: Registry) -> RegionRecord {
        registry.regions()[self.id as int]
    }

    /// Defines a region bound to `filter`, without starting a measurement.
    /// The devices it measures are those of the plugins that the filter
    /// selected when the filter was built. Every call registers a region of
    /// its own: a definition equal to an earlier one in name and source
    /// location is not merged with it, and a report lists both.
    pub fn new(
        registry: &mut Registry,
        name: &str,
        file: &str,
        line: u32,
        function: &str,
        filter: &Filter,
    ) -> (result: Result<Region, ErrorCode>)
        requires
            old(registry).wf(),
        ensures
            final(registry).wf(),
            memberships_kept(old(registry).filters(), final(registry).filters()),
            old(registry).state() != RegistryState::Ready ==> result == Err::<Region, ErrorCode>(
                ErrorCode::InvalidState,
            ),
            old(registry).state() == RegistryState::Ready && !filter.live(*old(registry)) ==> result == Err::<
                Region,
                ErrorCode,
            >(ErrorCode::InvalidFilter),
            old(registry).state() == RegistryState::Ready && filter.live(*old(registry)) ==> result.is_ok(),
            result.is_err() ==> unchanged(*old(registry), *final(registry)),
            result.is_ok() ==> {
                let id = old(registry).regions().len() as int;
                let record = final(registry).regions()[id];
                &&& result.unwrap().id == id
                &&& result.unwrap().run == old(registry).run()
                &&& final(registry).run() == old(registry).run()
                &&& final(registry).state() == old(registry).state()
                &&& final(registry).plugins() == old(registry).plugins()
                &&& final(registry).filters() == old(registry).filters()
                &&& final(registry).regions().len() == id + 1
                &&& final(registry).regions().subrange(0, id) == old(registry).regions()
                &&& record.name@ == name@
                &&& record.file@ == file@
                &&& record.line == line
                &&& record.function@ == function@
                &&& record.filter == filter.id
                &&& record.fresh()
                &&& record.devices@ == selected_keys(
                    old(registry).plugins(),
                    old(registry).filters()[filter.id as int].members@,
                    old(registry).plugins().len() as int,
                )
            },
    {
        match registry.state {
            RegistryState::Ready => {},
            _ => {
                return Err(ErrorCode::InvalidState);
            },
        }
        if !filter.is_valid(registry) {
            return Err(ErrorCode::InvalidFilter);
        }
        let devices: Vec<DeviceKey> = select_devices(&registry.plugins, &registry.filters[filter.id].members);
        let n: usize = devices.len();
        let mut totals: Vec<u128> = Vec::new();
        let mut d: usize = 0;
        while d < n
            invariant
                d <= n,
                totals@.len() == d,
                forall|k: int| 0 <= k < d ==> #[trigger] totals@[k] == 0,
            decreases n - d,
        {
            totals.push(0);
            d = d + 1;
        }
        let id: usize = registry.regions.len();
        registry.regions.push(
            RegionRecord {
                name: name.to_owned(),
                file: file.to_owned(),
                line,
                function: function.to_owned(),
                filter: filter.id,
                state: RegionState::Defined,
                devices,
                invocations: 0,
                total_elapsed_us: 0,
                total_energy_uj: totals,
                started_at_us: 0,
                snapshot: Vec::new(),
            },
        );
        proof {
            assert(registry.regions@.subrange(0, id as int) =~= old(registry).regions@);
        }
        Ok(Region { id, run: registry.run })
    }

    /// Defines a region as `new` does and opens its first cycle at once, as
    /// `begin` does. Where the cycle cannot be opened the region is not
    /// defined either.
    pub fn create_and_init(
        registry: &mut Registry,
        name: &str,
        file: &str,
        line: u32,
        function: &str,
        filter: &Filter,
        now_us: u64,
        readings: &Vec<Option<u64>>,
    ) -> (result: Result<Region, ErrorCode>)
        requires
            old(registry).wf(),
        ensures
            final(registry).wf(),
            memberships_kept(old(registry).filters(), final(registry).filters()),
            old(registry).state() != RegistryState::Ready ==> result == Err::<Region, ErrorCode>(
                ErrorCode::InvalidState,
            ),
            old(registry).state() == RegistryState::Ready && !filter.live(*old(registry)) ==> result == Err::<
                Region,
                ErrorCode,
            >(ErrorCode::InvalidFilter),
            old(registry).state() == RegistryState::Ready && filter.live(*old(registry)) ==> (if readings_ok(
                selected_keys(
                    old(registry).plugins(),
                    old(registry).filters()[filter.id as int].members@,
                    old(registry).plugins().len() as int,
                ),
                readings@,
            ) {
                result.is_ok()
            } else {
                result == Err::<Region, ErrorCode>(ErrorCode::CounterReadError)
            }),
            result.is_err() ==> unchanged(*old(registry), *final(registry)),
            result.is_ok() ==> {
                let id = old(registry).regions().len() as int;
                let record = final(registry).regions()[id];
                &&& result.unwrap().id == id
                &&& result.unwrap().run == old(registry).run()
                &&& final(registry).run() == old(registry).run()
                &&& final(registry).state() == old(registry).state()
                &&& final(registry).plugins() == old(registry).plugins()
                &&& final(registry).filters() == old(registry).filters()
                &&& final(registry).regions().len() == id + 1
                &&& final(registry).regions().subrange(0, id) == old(registry).regions()
                &&& record.name@ == name@
                &&& record.file@ == file@
                &&& record.line == line
                &&& record.function@ == function@
                &&& record.filter == filter.id
                &&& record.devices@ == selected_keys(
                    old(registry).plugins(),
                    old(registry).filters()[filter.id as int].members@,
                    old(registry).plugins().len() as int,
                )
                &&& record.state == RegionState::Running
                &&& record.started_at_us == now_us
                &&& record.snapshot@.len() == readings@.len()
                &&& forall|d: int| 0 <= d < readings@.len() ==> #[trigger] record.snapshot@[d] == readings@[d].unwrap()
                &&& record.invocations == 0
                &&& record.total_elapsed_us == 0
                &&& record.total_energy_uj@.len() == record.devices@.len()
                &&& forall|d: int| 0 <= d < record.devices@.len() ==> #[trigger] record.total_energy_uj@[d] == 0
            },
    {
        let region: Region = match Region::new(registry, name, file, line, function, filter) {
            Ok(region) => region,
            Err(error) => {
                return Err(error);
            },
        };
        let ghost defined = *registry;
        match region.begin(registry, now_us, readings) {
            Ok(()) => {
                proof {
                    assert(registry.regions@.subrange(0, region.id as int) =~= defined.regions@.subrange(
                        0,
                        region.id as int,
                    ));
                }
                Ok(region)
            },
            Err(error) => {
                registry.regions.pop();
                proof {
                    assert(registry.regions@ =~= old(registry).regions@);
                }
                Err(error)
            },
        }
    }

    /// Opens a cycle of the region at time `now_us`, with one counter
    /// reading per measured device, in the order of the region's devices.
    pub fn begin(&self, registry: &mut Registry, now_us: u64, readings: &Vec<Option<u64>>) -> (result: Result<
        (),
        ErrorCode,
    >)
        requires
            old(registry).wf(),
        ensures
            final(registry).wf(),
            memberships_kept(old(registry).filters(), final(registry).filters()),
            old(registry).state() != RegistryState::Ready ==> result == Err::<(), ErrorCode>(
                ErrorCode::InvalidState,
            ),
            !self.known(*old(registry)) || self.record(*old(registry)).state == RegionState::Finalized
                ==> result == Err::<(), ErrorCode>(ErrorCode::InvalidState),
            self.known(*old(registry)) && self.record(*old(registry)).state == RegionState::Running
                ==> result == Err::<(), ErrorCode>(ErrorCode::AlreadyRunning),
            self.known(*old(registry)) && (self.record(*old(registry)).state == RegionState::Defined
                || self.record(*old(registry)).state == RegionState::Idle) ==> (if readings_ok(
                self.record(*old(registry)).devices@,
                readings@,
            ) {
                result.is_ok()
            } else {
                result == Err::<(), ErrorCode>(ErrorCode::CounterReadError)
            }),
            result.is_err() ==> unchanged(*old(registry), *final(registry)),
            result.is_ok() ==> only_region_changed(*old(registry), *final(registry), self.id as int) && began(
                self.record(*old(registry)),
                self.record(*final(registry)),
                now_us,
                readings@,
            ),
    {
        if self.run != registry.run || self.id >= registry.regions.len() {
            return Err(ErrorCode::InvalidState);
        }
        let result = registry.regions[self.id].begin(now_us, readings);
        proof {
            if result.is_err() {
                assert(registry.regions@ =~= old(registry).regions@);
            }
        }
        result
    }

    /// Whether an `end` at `now_us` can be accounted for: unless the region
    /// is running there is nothing to account; if it is, the time is not
    /// earlier than the cycle's `begin` and the invocation count has room
    /// for one more.
    pub open spec fn accountable(&self, registry: Registry, now_us: u64) -> bool {
        self.known(registry) && self.record(registry).state == RegionState::Running ==> now_us
            >= self.record(registry).started_at_us && self.record(registry).invocations < u64::MAX
    }

    /// What `end` at `now_us` with `readings` makes of `pre`: the result it
    /// gives and the registry `post` it leaves.
    pub open spec fn end_outcome(
        &self,
        pre: Registry,
        post: Registry,
        now_us: u64,
        readings: Seq<Option<u64>>,
        result: Result<(), ErrorCode>,
    ) -> bool {
        &&& pre.state() != RegistryState::Ready ==> result == Err::<(), ErrorCode>(ErrorCode::InvalidState)
        &&& !self.known(pre) || self.record(pre).state == RegionState::Finalized ==> result == Err::<
            (),
            ErrorCode,
        >(ErrorCode::InvalidState)
        &&& self.known(pre) && (self.record(pre).state == RegionState::Defined || self.record(pre).state
            == RegionState::Idle) ==> result == Err::<(), ErrorCode>(ErrorCode::NotRunning)
        &&& self.known(pre) && self.record(pre).state == RegionState::Running ==> (if readings_ok(
            self.record(pre).devices@,
            readings,
        ) {
            result.is_ok()
        } else {
            result == Err::<(), ErrorCode>(ErrorCode::CounterReadError)
        })
        &&& result.is_err() ==> unchanged(pre, post)
        &&& result.is_ok() ==> only_region_changed(pre, post, self.id as int) && ended(
            self.record(pre),
            self.record(post),
            now_us,
            readings,
        )
    }

    /// Closes the open cycle of the region at time `now_us`, with one
    /// counter reading per measured device, and adds the cycle to the
    /// region's totals. The clock is monotonic, so `now_us` is not earlier
    /// than the cycle's `begin`.
    pub fn end(&self, registry: &mut Registry, now_us: u64, readings: &Vec<Option<u64>>) -> (result: Result<
        (),
        ErrorCode,
    >)
        requires
            old(registry).wf(),
            self.accountable(*old(registry), now_us),
        ensures
            final(registry).wf(),
            memberships_kept(old(registry).filters(), final(registry).filters()),
            self.end_outcome(*old(registry), *final(registry), now_us, readings@, result),
    {
        if self.run != registry.run || self.id >= registry.regions.len() {
            return Err(ErrorCode::InvalidState);
        }
        let result = registry.regions[self.id].end(now_us, readings);
        proof {
            if result.is_err() {
                assert(registry.regions@ =~= old(registry).regions@);
            }
        }
        result
    }

    /// As `end`, for callers that cannot vouch for their clock: where the
    /// cycle cannot be accounted for, because `now_us` is earlier than the
    /// cycle's `begin` or the invocation count is exhausted, nothing is
    /// done and `None` is returned.
    pub fn try_end(&self, registry: &mut Registry, now_us: u64, readings: &Vec<Option<u64>>) -> (result: Option<
        Result<(), ErrorCode>,
    >)
        requires
            old(registry).wf(),
        ensures
            final(registry).wf(),
            memberships_kept(old(registry).filters(), final(registry).filters()),
            result.is_some() == self.accountable(*old(registry), now_us),
            result.is_none() ==> unchanged(*old(registry), *final(registry)),
            result.is_some() ==> self.end_outcome(
                *old(registry),
                *final(registry),
                now_us,
                readings@,
                result.unwrap(),
            ),
    {
        if self.run == registry.run && self.id < registry.regions.len() {
            let running: bool = match registry.regions[self.id].state {
                RegionState::Running => true,
                _ => false,
            };
            if running && (now_us < registry.regions[self.id].started_at_us
                || registry.regions[self.id].invocations == u64::MAX) {
                return None;
            }
        }
        Some(self.end(registry, now_us, readings))
    }

    /// Closes the region for further cycles. A running region cannot be
    /// finalized: its open cycle has to be ended first.
    pub fn finalize(&self, registry: &mut Registry) -> (result: Result<(), ErrorCode>)
        requires
            old(registry).wf(),
        ensures
            final(registry).wf(),
            memberships_kept(old(registry).filters(), final(registry).filters()),
            old(registry).state() != RegistryState::Ready ==> result == Err::<(), ErrorCode>(
                ErrorCode::InvalidState,
            ),
            !self.known(*old(registry)) || self.record(*old(registry)).state == RegionState::Finalized
                ==> result == Err::<(), ErrorCode>(ErrorCode::InvalidState),
            self.known(*old(registry)) && self.record(*old(registry)).state == RegionState::Running
                ==> result == Err::<(), ErrorCode>(ErrorCode::AlreadyRunning),
            self.known(*old(registry)) && (self.record(*old(registry)).state == RegionState::Defined
                || self.record(*old(registry)).state == RegionState::Idle) ==> result.is_ok(),
            result.is_err() ==> unchanged(*old(registry), *final(registry)),
            result.is_ok() ==> only_region_changed(*old(registry), *final(registry), self.id as int)
                && retired(self.record(*old(registry)), self.record(*final(registry))),
    {
        if self.run != registry.run || self.id >= registry.regions.len() {
            return Err(ErrorCode::InvalidState);
        }
        let result = registry.regions[self.id].finalize();
        proof {
            if result.is_err() {
                assert(registry.regions@ =~= old(registry).regions@);
            }
        }
        result
    }
}

} // verus!
