use vstd::prelude::*;
use crate::catalog::DeviceKey;
use crate::counter::fits_width;
use crate::counter::valid_width;
use crate::counter::wrapped_delta;
use crate::counter::reading_fits;
use crate::counter::wrap_corrected_subtract;
use crate::counter::lemma_wrapped_delta_bounded;
use crate::error::ErrorCode;

verus! {

/// Where a region stands in its lifecycle.
#[derive(Clone, Copy, Debug, PartialEq, Eq, Structural)]
pub enum RegionState {
    /// Defined and never begun.
    Defined,
    /// Between `begin` and `end`.
    Running,
    /// After an `end`, ready for another cycle.
    Idle,
    /// Closed for further cycles; the totals stay readable.
    Finalized,
}

/// A region's definition and everything it has accumulated.
pub struct RegionRecord {
    pub name: String,
    pub file: String,
    pub line: u32,
    pub function: String,
    /// Index of the filter the region is bound to.
    pub filter: usize,
    pub state: RegionState,
    /// The devices measured, frozen when the region was defined.
    pub devices: Vec<DeviceKey>,
    /// Completed cycles.
    pub invocations: u64,
    /// Elapsed microseconds, summed over the completed cycles.
    pub total_elapsed_us: u128,
    /// Microjoules per device, summed over the completed cycles.
    pub total_energy_uj: Vec<u128>,
    /// Time of the open cycle's `begin`.
    pub started_at_us: u64,
    /// Counter values of the open cycle's `begin`, one per device.
    pub snapshot: Vec<u64>,
}

/// One reading per device, each present and within its counter's width.
pub open spec fn readings_ok(devices: Seq<DeviceKey>, readings: Seq<Option<u64>>) -> bool {
    &&& readings.len() == devices.len()
    &&& forall|d: int|
        0 <= d < devices.len() ==> (#[trigger] readings[d]).is_some() && fits_width(
            readings[d].unwrap(),
            devices[d].width_bits,
        )
}

/// The two records define the same region.
pub open spec fn same_definition(pre: RegionRecord, post: RegionRecord) -> bool {
    &&& post.name == pre.name
    &&& post.file == pre.file
    &&& post.line == pre.line
    &&& post.function == pre.function
    &&& post.filter == pre.filter
    &&& post.devices@ == pre.devices@
}

/// The two records hold the same totals.
pub open spec fn same_totals(pre: RegionRecord, post: RegionRecord) -> bool {
    &&& post.invocations == pre.invocations
    &&& post.total_elapsed_us == pre.total_elapsed_us
    &&& post.total_energy_uj@ == pre.total_energy_uj@
}

/// `post` is `pre` after a successful `begin` at `now_us` with `readings`.
pub open spec fn began(pre: RegionRecord, post: RegionRecord, now_us: u64, readings: Seq<Option<u64>>) -> bool {
    &&& readings_ok(pre.devices@, readings)
    &&& post.state == RegionState::Running
    &&& post.started_at_us == now_us
    &&& post.snapshot@.len() == readings.len()
    &&& forall|d: int| 0 <= d < readings.len() ==> #[trigger] post.snapshot@[d] == readings[d].unwrap()
    &&& same_totals(pre, post)
    &&& same_definition(pre, post)
}

/// `post` is `pre` after a successful `end` at `now_us` with `readings`.
pub open spec fn ended(pre: RegionRecord, post: RegionRecord, now_us: u64, readings: Seq<Option<u64>>) -> bool {
    &&& readings_ok(pre.devices@, readings)
    &&& post.state == RegionState::Idle
    &&& post.invocations == pre.invocations + 1
    &&& post.total_elapsed_us == pre.total_elapsed_us + (now_us - pre.started_at_us)
    &&& post.total_energy_uj@.len() == pre.total_energy_uj@.len()
    &&& forall|d: int|
        0 <= d < pre.total_energy_uj@.len() ==> #[trigger] post.total_energy_uj@[d]
            == pre.total_energy_uj@[d] + wrapped_delta(
            readings[d].unwrap(),
            pre.snapshot@[d],
            pre.devices@[d].width_bits,
        )
    &&& post.started_at_us == pre.started_at_us
    &&& post.snapshot@ == pre.snapshot@
    &&& same_definition(pre, post)
}

/// `post` is `pre` after a successful `finalize`.
pub open spec fn retired(pre: RegionRecord, post: RegionRecord) -> bool {
    &&& post.state == RegionState::Finalized
    &&& post.started_at_us == pre.started_at_us
    &&& post.snapshot@ == pre.snapshot@
    &&& same_totals(pre, post)
    &&& same_definition(pre, post)
}

impl RegionRecord {
    /// The record's invariant: one total per device, a full and in-range
    /// snapshot while running, and totals that no sum of cycles can overflow.
    pub open spec fn wf(&self) -> bool {
        &&& self.total_energy_uj@.len() == self.devices@.len()
        &&& forall|d: int| 0 <= d < self.devices@.len() ==> valid_width((#[trigger] self.devices@[d]).width_bits)
        &&& self.state == RegionState::Running ==> {
            &&& self.snapshot@.len() == self.devices@.len()
            &&& forall|d: int|
                0 <= d < self.devices@.len() ==> fits_width(
                    #[trigger] self.snapshot@[d],
                    self.devices@[d].width_bits,
                )
        }
        &&& self.total_elapsed_us <= self.invocations * u64::MAX
        &&& forall|d: int|
            0 <= d < self.total_energy_uj@.len() ==> #[trigger] self.total_energy_uj@[d] <= self.invocations
                * u64::MAX
    }

    /// A record as `define` leaves it: no cycle yet, all totals zero.
    pub open spec fn fresh(&self) -> bool {
        &&& self.state == RegionState::Defined
        &&& self.invocations == 0
        &&& self.total_elapsed_us == 0
        &&& self.total_energy_uj@.len() == self.devices@.len()
        &&& forall|d: int| 0 <= d < self.total_energy_uj@.len() ==> #[trigger] self.total_energy_uj@[d] == 0
        &&& self.started_at_us == 0
        &&& self.snapshot@.len() == 0
    }

    /// Whether `readings` holds one in-range reading per device.
    pub fn check_readings(&self, readings: &Vec<Option<u64>>) -> (ok: bool)
        requires
            self.wf(),
        ensures
            ok == readings_ok(self.devices@, readings@),
    {
        let n: usize = self.devices.len();
        if readings.len() != n {
            return false;
        }
        let mut d: usize = 0;
        while d < n
            invariant
                self.wf(),
                n == self.devices@.len(),
                readings@.len() == n,
                d <= n,
                forall|k: int|
                    0 <= k < d ==> (#[trigger] readings@[k]).is_some() && fits_width(
                        readings@[k].unwrap(),
                        self.devices@[k].width_bits,
                    ),
            decreases n - d,
        {
            match readings[d] {
                None => {
                    return false;
                },
                Some(value) => {
                    if !reading_fits(value, self.devices[d].width_bits) {
                        return false;
                    }
                },
            }
            d = d + 1;
        }
        true
    }

    /// Opens a cycle: records the time and one counter snapshot per device.
    pub fn begin(&mut self, now_us: u64, readings: &Vec<Option<u64>>) -> (result: Result<(), ErrorCode>)
        requires
            old(self).wf(),
        ensures
            final(self).wf(),
            old(self).state == RegionState::Finalized ==> result == Err::<(), ErrorCode>(
                ErrorCode::InvalidState,
            ),
            old(self).state == RegionState::Running ==> result == Err::<(), ErrorCode>(
                ErrorCode::AlreadyRunning,
            ),
            (old(self).state == RegionState::Defined || old(self).state == RegionState::Idle) && !readings_ok(
                old(self).devices@,
                readings@,
            ) ==> result == Err::<(), ErrorCode>(ErrorCode::CounterReadError),
            (old(self).state == RegionState::Defined || old(self).state == RegionState::Idle) && readings_ok(
                old(self).devices@,
                readings@,
            ) ==> result.is_ok(),
            result.is_ok() ==> began(*old(self), *final(self), now_us, readings@),
            result.is_err() ==> *final(self) == *old(self),
    {
        match self.state {
            RegionState::Finalized => {
                return Err(ErrorCode::InvalidState);
            },
            RegionState::Running => {
                return Err(ErrorCode::AlreadyRunning);
            },
            _ => {},
        }
        if !self.check_readings(readings) {
            return Err(ErrorCode::CounterReadError);
        }
        let n: usize = self.devices.len();
        let mut snapshot: Vec<u64> = Vec::new();
        let mut d: usize = 0;
        while d < n
            invariant
                n == self.devices@.len(),
                readings_ok(self.devices@, readings@),
                d <= n,
                snapshot@.len() == d,
                forall|k: int| 0 <= k < d ==> #[trigger] snapshot@[k] == readings@[k].unwrap(),
            decreases n - d,
        {
            let value: u64 = readings[d].unwrap();
            snapshot.push(value);
            d = d + 1;
        }
        self.snapshot = snapshot;
        self.started_at_us = now_us;
        self.state = RegionState::Running;
        Ok(())
    }

    /// Closes the open cycle: adds the elapsed time and each device's
    /// wrap-corrected energy delta to the totals and counts the cycle.
    pub fn end(&mut self, now_us: u64, readings: &Vec<Option<u64>>) -> (result: Result<(), ErrorCode>)
        requires
            old(self).wf(),
            old(self).state == RegionState::Running ==> now_us >= old(self).started_at_us
                && old(self).invocations < u64::MAX,
        ensures
            final(self).wf(),
            old(self).state == RegionState::Finalized ==> result == Err::<(), ErrorCode>(
                ErrorCode::InvalidState,
            ),
            (old(self).state == RegionState::Defined || old(self).state == RegionState::Idle) ==> result
                == Err::<(), ErrorCode>(ErrorCode::NotRunning),
            old(self).state == RegionState::Running && !readings_ok(old(self).devices@, readings@) ==> result
                == Err::<(), ErrorCode>(ErrorCode::CounterReadError),
            old(self).state == RegionState::Running && readings_ok(old(self).devices@, readings@)
                ==> result.is_ok(),
            result.is_ok() ==> ended(*old(self), *final(self), now_us, readings@),
            result.is_err() ==> *final(self) == *old(self),
    {
        match self.state {
            RegionState::Finalized => {
                return Err(ErrorCode::InvalidState);
            },
            RegionState::Running => {},
            _ => {
                return Err(ErrorCode::NotRunning);
            },
        }
        if !self.check_readings(readings) {
            return Err(ErrorCode::CounterReadError);
        }
        let n: usize = self.devices.len();
        let mut d: usize = 0;
        while d < n
            invariant
                n == self.devices@.len(),
                readings_ok(self.devices@, readings@),
                old(self).wf(),
                old(self).state == RegionState::Running,
                old(self).invocations < u64::MAX,
                self.devices@ == old(self).devices@,
                self.snapshot@ == old(self).snapshot@,
                self.name == old(self).name,
                self.file == old(self).file,
                self.line == old(self).line,
                self.function == old(self).function,
                self.filter == old(self).filter,
                self.state == old(self).state,
                self.invocations == old(self).invocations,
                self.total_elapsed_us == old(self).total_elapsed_us,
                self.started_at_us == old(self).started_at_us,
                self.total_energy_uj@.len() == n,
                d <= n,
                forall|k: int|
                    0 <= k < d ==> #[trigger] self.total_energy_uj@[k] == old(self).total_energy_uj@[k]
                        + wrapped_delta(
                        readings@[k].unwrap(),
                        old(self).snapshot@[k],
                        old(self).devices@[k].width_bits,
                    ),
                forall|k: int| d <= k < n ==> #[trigger] self.total_energy_uj@[k] == old(self).total_energy_uj@[k],
            decreases n - d,
        {
            let width: u32 = self.devices[d].width_bits;
            let current: u64 = readings[d].unwrap();
            proof {
                lemma_wrapped_delta_bounded(current, self.snapshot@[d as int], width);
                assert(old(self).total_energy_uj@[d as int] <= old(self).invocations * u64::MAX);
            }
            let delta: u64 = wrap_corrected_subtract(current, self.snapshot[d], width);
            let total: u128 = self.total_energy_uj[d];
            self.total_energy_uj.set(d, total + delta as u128);
            d = d + 1;
        }
        self.total_elapsed_us = self.total_elapsed_us + (now_us - self.started_at_us) as u128;
        self.invocations = self.invocations + 1;
        self.state = RegionState::Idle;
        proof {
            assert forall|k: int| 0 <= k < n implies #[trigger] self.total_energy_uj@[k] <= self.invocations
                * u64::MAX by {
                lemma_wrapped_delta_bounded(
                    readings@[k].unwrap(),
                    old(self).snapshot@[k],
                    old(self).devices@[k].width_bits,
                );
            }
        }
        Ok(())
    }

    /// Closes the region for further cycles; its totals stay as they are.
    pub fn finalize(&mut self) -> (result: Result<(), ErrorCode>)
        requires
            old(self).wf(),
        ensures
            final(self).wf(),
            old(self).state == RegionState::Finalized ==> result == Err::<(), ErrorCode>(
                ErrorCode::InvalidState,
            ),
            old(self).state == RegionState::Running ==> result == Err::<(), ErrorCode>(
                ErrorCode::AlreadyRunning,
            ),
            (old(self).state == RegionState::Defined || old(self).state == RegionState::Idle)
                ==> result.is_ok(),
            result.is_ok() ==> retired(*old(self), *final(self)),
            result.is_err() ==> *final(self) == *old(self),
    {
        match self.state {
            RegionState::Finalized => Err(ErrorCode::InvalidState),
            RegionState::Running => Err(ErrorCode::AlreadyRunning),
            _ => {
                self.state = RegionState::Finalized;
                Ok(())
            },
        }
    }
}

} // verus!
