use vstd::prelude::*;
use crate::accounting::began;
use crate::accounting::ended;
use crate::accounting::RegionRecord;
use crate::catalog::distinct_names;
use crate::catalog::selected_keys;
use crate::catalog::Plugin;
use crate::filter::included;
use crate::accounting::RegionState;
use crate::counter::counter_modulus;
use crate::counter::lemma_wrapped_delta_bounded;
use crate::counter::wrapped_delta;
use crate::registry::has_open;
use crate::registry::memberships_kept;
use crate::registry::FilterRecord;
use crate::registry::Registry;
use crate::registry::RegistryState;

verus! {

/// The elapsed time of the first `n` cycles, summed.
pub open spec fn sum_elapsed(starts: Seq<u64>, stops: Seq<u64>, n: int) -> int
    decreases n,
{
    if n <= 0 {
        0
    } else {
        sum_elapsed(starts, stops, n - 1) + (stops[n - 1] - starts[n - 1])
    }
}

/// The wrap-corrected energy of device `d` over the first `n` cycles,
/// summed; `opening` and `closing` hold each cycle's readings.
pub open spec fn sum_energy(
    widths: Seq<u32>,
    opening: Seq<Seq<Option<u64>>>,
    closing: Seq<Seq<Option<u64>>>,
    d: int,
    n: int,
) -> int
    decreases n,
{
    if n <= 0 {
        0
    } else {
        sum_energy(widths, opening, closing, d, n - 1) + wrapped_delta(
            closing[n - 1][d].unwrap(),
            opening[n - 1][d].unwrap(),
            widths[d],
        )
    }
}

/// `records` is the history of one region over `n` complete cycles:
/// `records[2k]` is the region before cycle `k`, `records[2k + 1]` after
/// its `begin` and `records[2k + 2]` after its `end`.
pub open spec fn cycle_history(
    records: Seq<RegionRecord>,
    starts: Seq<u64>,
    stops: Seq<u64>,
    opening: Seq<Seq<Option<u64>>>,
    closing: Seq<Seq<Option<u64>>>,
    n: int,
) -> bool {
    &&& records.len() >= 2 * n + 1
    &&& starts.len() >= n
    &&& stops.len() >= n
    &&& opening.len() >= n
    &&& closing.len() >= n
    &&& forall|k: int|
        0 <= k < n ==> {
            &&& began(records[2 * k], records[2 * k + 1], #[trigger] starts[k], opening[k])
            &&& ended(records[2 * k + 1], records[2 * k + 2], stops[k], closing[k])
        }
}

/// The counter widths of a region's devices, in order.
pub open spec fn widths_of(record: RegionRecord) -> Seq<u32> {
    Seq::new(record.devices@.len(), |d: int| record.devices@[d].width_bits)
}

/// Running `begin` and `end` `n` times on a fresh region leaves an
/// invocation count of exactly `n`, a total elapsed time equal to the sum
/// of the cycles' elapsed times, and for each device a total energy equal
/// to the sum of the cycles' wrap-corrected deltas.
pub proof fn lemma_cycles_accumulate(
    records: Seq<RegionRecord>,
    starts: Seq<u64>,
    stops: Seq<u64>,
    opening: Seq<Seq<Option<u64>>>,
    closing: Seq<Seq<Option<u64>>>,
    n: nat,
)
    requires
        records[0].fresh(),
        cycle_history(records, starts, stops, opening, closing, n as int),
    ensures
        records[2 * (n as int)].invocations == n,
        records[2 * (n as int)].total_elapsed_us == sum_elapsed(starts, stops, n as int),
        records[2 * (n as int)].devices@ == records[0].devices@,
        records[2 * (n as int)].total_energy_uj@.len() == records[0].devices@.len(),
        forall|d: int|
            0 <= d < records[0].devices@.len() ==> #[trigger] records[2 * (n as int)].total_energy_uj@[d]
                == sum_energy(widths_of(records[0]), opening, closing, d, n as int),
    decreases n,
{
    if n > 0 {
        let m = (n - 1) as nat;
        assert(cycle_history(records, starts, stops, opening, closing, m as int));
        lemma_cycles_accumulate(records, starts, stops, opening, closing, m);
        let k = m as int;
        assert(began(records[2 * k], records[2 * k + 1], starts[k], opening[k]));
        assert(ended(records[2 * k + 1], records[2 * k + 2], stops[k], closing[k]));
        assert forall|d: int| 0 <= d < records[0].devices@.len() implies #[trigger] records[2 * (n as int)].total_energy_uj@[d] == sum_energy(widths_of(records[0]), opening, closing, d, n as int) by {
            assert(records[2 * k + 1].snapshot@[d] == opening[k][d].unwrap());
            assert(records[2 * k + 2].total_energy_uj@[d] == records[2 * k + 1].total_energy_uj@[d]
                + wrapped_delta(
                closing[k][d].unwrap(),
                records[2 * k + 1].snapshot@[d],
                records[2 * k + 1].devices@[d].width_bits,
            ));
        }
    }
}

/// One successful `end` accounts for exactly one cycle: the region is idle
/// again, its invocation count grows by one, its elapsed time by the time
/// since the cycle's `begin`, and the energy of each device by the
/// difference of the two readings, or, where the counter wrapped, by the
/// distance over the wrap, which is at least one and less than the
/// counter's modulus.
pub proof fn lemma_end_accounts_one_cycle(
    pre: RegionRecord,
    post: RegionRecord,
    now_us: u64,
    readings: Seq<Option<u64>>,
    d: int,
)
    requires
        pre.wf(),
        pre.state == RegionState::Running,
        ended(pre, post, now_us, readings),
        0 <= d < pre.devices@.len(),
    ensures
        post.state == RegionState::Idle,
        post.invocations == pre.invocations + 1,
        post.total_elapsed_us == pre.total_elapsed_us + (now_us - pre.started_at_us),
        readings[d].unwrap() >= pre.snapshot@[d] ==> post.total_energy_uj@[d] == pre.total_energy_uj@[d] + (
        readings[d].unwrap() - pre.snapshot@[d]),
        readings[d].unwrap() < pre.snapshot@[d] ==> {
            let delta = counter_modulus(pre.devices@[d].width_bits) - pre.snapshot@[d] + readings[d].unwrap();
            &&& post.total_energy_uj@[d] == pre.total_energy_uj@[d] + delta
            &&& 1 <= delta <= counter_modulus(pre.devices@[d].width_bits) - 1
        },
{
    assert(readings[d].is_some());
    assert(post.total_energy_uj@[d] == pre.total_energy_uj@[d] + wrapped_delta(
        readings[d].unwrap(),
        pre.snapshot@[d],
        pre.devices@[d].width_bits,
    ));
    lemma_wrapped_delta_bounded(readings[d].unwrap(), pre.snapshot@[d], pre.devices@[d].width_bits);
}

/// Two cycles that run one after the other on the same region, as two
/// callers serialised by exclusive access do, lose no update: the
/// invocation count grows by exactly two, and the elapsed time and each
/// device's energy grow by the sum of the two cycles' own contributions.
pub proof fn lemma_two_cycles_add_up(
    r0: RegionRecord,
    r1: RegionRecord,
    r2: RegionRecord,
    r3: RegionRecord,
    r4: RegionRecord,
    start_a: u64,
    stop_a: u64,
    start_b: u64,
    stop_b: u64,
    opening_a: Seq<Option<u64>>,
    closing_a: Seq<Option<u64>>,
    opening_b: Seq<Option<u64>>,
    closing_b: Seq<Option<u64>>,
)
    requires
        began(r0, r1, start_a, opening_a),
        ended(r1, r2, stop_a, closing_a),
        began(r2, r3, start_b, opening_b),
        ended(r3, r4, stop_b, closing_b),
        r0.wf(),
    ensures
        r4.invocations == r0.invocations + 2,
        r4.total_elapsed_us == r0.total_elapsed_us + (stop_a - start_a) + (stop_b - start_b),
        r4.total_energy_uj@.len() == r0.total_energy_uj@.len(),
        forall|d: int|
            0 <= d < r0.devices@.len() ==> #[trigger] r4.total_energy_uj@[d] == r0.total_energy_uj@[d]
                + wrapped_delta(closing_a[d].unwrap(), opening_a[d].unwrap(), r0.devices@[d].width_bits)
                + wrapped_delta(closing_b[d].unwrap(), opening_b[d].unwrap(), r0.devices@[d].width_bits),
{
    assert forall|d: int| 0 <= d < r0.devices@.len() implies #[trigger] r4.total_energy_uj@[d]
        == r0.total_energy_uj@[d] + wrapped_delta(
        closing_a[d].unwrap(),
        opening_a[d].unwrap(),
        r0.devices@[d].width_bits,
    ) + wrapped_delta(closing_b[d].unwrap(), opening_b[d].unwrap(), r0.devices@[d].width_bits) by {
        assert(r1.snapshot@[d] == opening_a[d].unwrap());
        assert(r3.snapshot@[d] == opening_b[d].unwrap());
        assert(r2.total_energy_uj@[d] == r1.total_energy_uj@[d] + wrapped_delta(
            closing_a[d].unwrap(),
            r1.snapshot@[d],
            r1.devices@[d].width_bits,
        ));
        assert(r3.total_energy_uj@[d] == r2.total_energy_uj@[d]);
        assert(r4.total_energy_uj@[d] == r3.total_energy_uj@[d] + wrapped_delta(
            closing_b[d].unwrap(),
            r3.snapshot@[d],
            r3.devices@[d].width_bits,
        ));
    }
}

/// A filter's membership is frozen: every operation on a ready registry
/// keeps the memberships of the filters built so far, and so does any
/// sequence of such operations.
pub proof fn lemma_memberships_stay_frozen(
    first: Seq<FilterRecord>,
    middle: Seq<FilterRecord>,
    last: Seq<FilterRecord>,
)
    requires
        memberships_kept(first, middle),
        memberships_kept(middle, last),
    ensures
        memberships_kept(first, first),
        memberships_kept(first, last),
{
    assert forall|f: int| 0 <= f < first.len() implies (#[trigger] last[f]).members@ == first[f].members@ by {
        assert(middle[f].members@ == first[f].members@);
    }
}

/// Outside the ready state a registry holds no open filter and no open
/// region, and its catalog is empty: before the first `init` because there
/// is none yet, after `finalize` because it succeeds only when all were
/// closed.
pub proof fn lemma_unready_registry_is_closed(registry: Registry)
    requires
        registry.wf(),
        registry.state() != RegistryState::Ready,
    ensures
        !has_open(registry.filters(), registry.regions()),
        registry.plugins().len() == 0,
{
}

/// While the registry is ready, the devices a region measures are those
/// of the plugins that its filter selected when the filter was built.
pub proof fn lemma_region_devices_follow_filter(registry: Registry, r: int)
    requires
        registry.wf(),
        registry.state() == RegistryState::Ready,
        0 <= r < registry.regions().len(),
    ensures
        registry.regions()[r].filter < registry.filters().len(),
        registry.regions()[r].devices@ == selected_keys(
            registry.plugins(),
            registry.filters()[registry.regions()[r].filter as int].members@,
            registry.plugins().len() as int,
        ),
{
}

/// A plugin's name is its identity: no two plugins of a registry's
/// catalog share a name.
pub proof fn lemma_catalog_names_are_distinct(registry: Registry, a: int, b: int)
    requires
        registry.wf(),
        0 <= a < registry.plugins().len(),
        0 <= b < registry.plugins().len(),
        a != b,
    ensures
        registry.plugins()[a].name@ != registry.plugins()[b].name@,
{
    if a < b {
        assert(registry.plugins()[a].name@ != registry.plugins()[b].name@);
    } else {
        assert(registry.plugins()[b].name@ != registry.plugins()[a].name@);
    }
}

/// On a catalog of distinct names a filter excludes at most one plugin:
/// the one that bears the excluded name.
pub proof fn lemma_filter_excludes_at_most_one(
    plugins: Seq<Plugin>,
    members: Seq<bool>,
    exclude: Seq<char>,
    a: int,
    b: int,
)
    requires
        distinct_names(plugins),
        members.len() == plugins.len(),
        forall|i: int| 0 <= i < plugins.len() ==> #[trigger] members[i] == included(plugins[i].name@, exclude),
        0 <= a < plugins.len(),
        0 <= b < plugins.len(),
        !members[a],
        !members[b],
    ensures
        a == b,
        plugins[a].name@ == exclude,
{
    if a < b {
        assert(plugins[a].name@ != plugins[b].name@);
    }
    if b < a {
        assert(plugins[b].name@ != plugins[a].name@);
    }
}

} // verus!
