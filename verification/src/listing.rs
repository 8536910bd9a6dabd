use vstd::prelude::*;
use crate::catalog::all_devices;
use crate::catalog::distinct_names;
use crate::catalog::same_plugin;
use crate::catalog::Device;
use crate::catalog::Plugin;
use crate::registry::Registry;

verus! {

/// A snapshot of every device of the catalog, in discovery order.
pub struct DeviceList {
    devices: Vec<Device>,
}

/// A snapshot of the catalog's plugins, in discovery order.
pub struct PluginList {
    plugins: Vec<Plugin>,
}

impl View for DeviceList {
    type V = Seq<Device>;

    closed spec fn view(&self) -> Seq<Device> {
        self.devices@
    }
}

impl View for PluginList {
    type V = Seq<Plugin>;

    closed spec fn view(&self) -> Seq<Plugin> {
        self.plugins@
    }
}

impl DeviceList {
    /// Lists the devices of all plugins of the catalog: plugin by plugin,
    /// each plugin's devices in enumeration order.
    pub fn new(registry: &Registry) -> (list: DeviceList)
        ensures
            list@ == all_devices(registry.plugins(), registry.plugins().len() as int),
    {
        let mut devices: Vec<Device> = Vec::new();
        let n: usize = registry.plugins.len();
        let mut i: usize = 0;
        while i < n
            invariant
                n == registry.plugins@.len(),
                i <= n,
                devices@ == all_devices(registry.plugins@, i as int),
            decreases n - i,
        {
            let m: usize = registry.plugins[i].devices.len();
            let mut j: usize = 0;
            while j < m
                invariant
                    n == registry.plugins@.len(),
                    i < n,
                    m == registry.plugins@[i as int].devices@.len(),
                    j <= m,
                    devices@ == all_devices(registry.plugins@, i as int)
                        + registry.plugins@[i as int].devices@.subrange(0, j as int),
                decreases m - j,
            {
                devices.push(registry.plugins[i].devices[j].duplicate());
                proof {
                    assert(devices@ =~= all_devices(registry.plugins@, i as int)
                        + registry.plugins@[i as int].devices@.subrange(0, j + 1));
                }
                j = j + 1;
            }
            proof {
                assert(registry.plugins@[i as int].devices@.subrange(0, m as int)
                    =~= registry.plugins@[i as int].devices@);
            }
            i = i + 1;
        }
        DeviceList { devices }
    }

    /// The number of devices.
    pub fn size(&self) -> (count: usize)
        ensures
            count == self@.len(),
    {
        self.devices.len()
    }

    /// The devices, in order.
    pub fn iter(&self) -> (devices: &[Device])
        ensures
            devices@ == self@,
    {
        self.devices.as_slice()
    }
}

impl PluginList {
    /// Lists the plugins of the catalog, in discovery order. No two of them
    /// share a name.
    pub fn new(registry: &Registry) -> (list: PluginList)
        ensures
            list@.len() == registry.plugins().len(),
            forall|i: int| 0 <= i < list@.len() ==> same_plugin(#[trigger] list@[i], registry.plugins()[i]),
            registry.wf() ==> distinct_names(list@),
    {
        let mut plugins: Vec<Plugin> = Vec::new();
        let n: usize = registry.plugins.len();
        let mut i: usize = 0;
        while i < n
            invariant
                n == registry.plugins@.len(),
                i <= n,
                plugins@.len() == i,
                forall|k: int| 0 <= k < i ==> same_plugin(#[trigger] plugins@[k], registry.plugins@[k]),
            decreases n - i,
        {
            plugins.push(registry.plugins[i].duplicate());
            i = i + 1;
        }
        proof {
            if registry.wf() {
                assert forall|a: int, b: int| 0 <= a < b < plugins@.len() implies (#[trigger] plugins@[a]).name@
                    != (#[trigger] plugins@[b]).name@ by {
                    assert(same_plugin(plugins@[a], registry.plugins@[a]));
                    assert(same_plugin(plugins@[b], registry.plugins@[b]));
                }
            }
        }
        PluginList { plugins }
    }

    /// The number of plugins.
    pub fn size(&self) -> (count: usize)
        ensures
            count == self@.len(),
    {
        self.plugins.len()
    }

    /// The plugins, in order.
    pub fn iter(&self) -> (plugins: &[Plugin])
        ensures
            plugins@ == self@,
    {
        self.plugins.as_slice()
    }
}

} // verus!
