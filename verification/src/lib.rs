//! Energy measurement core: a catalog of power-measurement plugins and their
//! devices, immutable plugin filters, and named regions that accumulate
//! elapsed time and per-device energy over repeated begin/end cycles.
//!
//! Hardware access is left to the caller: counter readings and discovery
//! results are handed in as plain values, and every rule on them is
//! verified here.

pub mod error;
pub mod counter;
pub mod catalog;
pub mod accounting;
pub mod registry;
pub mod filter;
pub mod region;
pub mod listing;
pub mod laws;
pub mod report;
pub mod clock;

pub use crate::accounting::RegionRecord;
pub use crate::accounting::RegionState;
pub use crate::catalog::Device;
pub use crate::catalog::DeviceKey;
pub use crate::catalog::DeviceProbe;
pub use crate::catalog::Plugin;
pub use crate::catalog::PluginProbe;
pub use crate::clock::get_time_in_us;
pub use crate::clock::Clock;
pub use crate::counter::wrap_corrected_subtract;
pub use crate::error::ErrorCode;
pub use crate::filter::Filter;
pub use crate::listing::DeviceList;
pub use crate::listing::PluginList;
pub use crate::region::Region;
pub use crate::registry::finalize;
pub use crate::registry::init;
pub use crate::registry::Registry;
pub use crate::registry::RegistryState;
pub use crate::report::report_all;
