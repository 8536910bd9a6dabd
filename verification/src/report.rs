use vstd::prelude::*;
use crate::accounting::RegionRecord;
use crate::registry::Registry;

verus! {

/// One device's share of a region's summary.
pub struct DeviceTotal {
    pub plugin_id: usize,
    pub device_id: usize,
    pub total_energy_uj: u128,
    /// Energy per cycle; `None` before the first completed cycle.
    pub average_energy_uj: Option<u128>,
}

/// What a report says of one region.
pub struct RegionSummary {
    pub name: String,
    pub file: String,
    pub line: u32,
    pub function: String,
    pub invocations: u64,
    pub total_elapsed_us: u128,
    /// Elapsed time per cycle; `None` before the first completed cycle.
    pub average_elapsed_us: Option<u128>,
    pub devices: Vec<DeviceTotal>,
}

/// The total per completed cycle, rounded down; none without a cycle.
pub open spec fn average(total: u128, invocations: u64) -> Option<u128> {
    if invocations > 0 {
        Some((total / (invocations as u128)) as u128)
    } else {
        None
    }
}

/// `summary` reports exactly what `record` holds.
pub open spec fn summarizes(summary: RegionSummary, record: RegionRecord) -> bool {
    &&& summary.name@ == record.name@
    &&& summary.file@ == record.file@
    &&& summary.line == record.line
    &&& summary.function@ == record.function@
    &&& summary.invocations == record.invocations
    &&& summary.total_elapsed_us == record.total_elapsed_us
    &&& summary.average_elapsed_us == average(record.total_elapsed_us, record.invocations)
    &&& summary.devices@.len() == record.devices@.len()
    &&& forall|d: int|
        0 <= d < record.devices@.len() ==> {
            &&& (#[trigger] summary.devices@[d]).plugin_id == record.devices@[d].plugin_id
            &&& summary.devices@[d].device_id == record.devices@[d].device_id
            &&& summary.devices@[d].total_energy_uj == record.total_energy_uj@[d]
            &&& summary.devices@[d].average_energy_uj == average(
                record.total_energy_uj@[d],
                record.invocations,
            )
        }
}

/// The total per completed cycle, rounded down; none without a cycle.
pub fn average_of(total: u128, invocations: u64) -> (mean: Option<u128>)
    ensures
        mean == average(total, invocations),
{
    if invocations > 0 {
        Some(total / (invocations as u128))
    } else {
        None
    }
}

/// Summarizes one region: its definition, its totals and its averages.
pub fn summarize(record: &RegionRecord) -> (summary: RegionSummary)
    requires
        record.wf(),
    ensures
        summarizes(summary, *record),
{
    let n: usize = record.devices.len();
    let mut devices: Vec<DeviceTotal> = Vec::new();
    let mut d: usize = 0;
    while d < n
        invariant
            record.wf(),
            n == record.devices@.len(),
            d <= n,
            devices@.len() == d,
            forall|k: int|
                0 <= k < d ==> {
                    &&& (#[trigger] devices@[k]).plugin_id == record.devices@[k].plugin_id
                    &&& devices@[k].device_id == record.devices@[k].device_id
                    &&& devices@[k].total_energy_uj == record.total_energy_uj@[k]
                    &&& devices@[k].average_energy_uj == average(
                        record.total_energy_uj@[k],
                        record.invocations,
                    )
                },
        decreases n - d,
    {
        let total: u128 = record.total_energy_uj[d];
        devices.push(
            DeviceTotal {
                plugin_id: record.devices[d].plugin_id,
                device_id: record.devices[d].device_id,
                total_energy_uj: total,
                average_energy_uj: average_of(total, record.invocations),
            },
        );
        d = d + 1;
    }
    RegionSummary {
        name: record.name.clone(),
        file: record.file.clone(),
        line: record.line,
        function: record.function.clone(),
        invocations: record.invocations,
        total_elapsed_us: record.total_elapsed_us,
        average_elapsed_us: average_of(record.total_elapsed_us, record.invocations),
        devices,
    }
}

/// Summarizes every region the registry knows, finalized or not, in the
/// order of definition.
pub fn report_all(registry: &Registry) -> (report: Vec<RegionSummary>)
    requires
        registry.wf(),
    ensures
        report@.len() == registry.regions().len(),
        forall|r: int| 0 <= r < report@.len() ==> summarizes(#[trigger] report@[r], registry.regions()[r]),
{
    let n: usize = registry.regions.len();
    let mut report: Vec<RegionSummary> = Vec::new();
    let mut r: usize = 0;
    while r < n
        invariant
            registry.wf(),
            n == registry.regions@.len(),
            r <= n,
            report@.len() == r,
            forall|k: int| 0 <= k < r ==> summarizes(#[trigger] report@[k], registry.regions@[k]),
        decreases n - r,
    {
        report.push(summarize(&registry.regions[r]));
        r = r + 1;
    }
    report
}

} // verus!
