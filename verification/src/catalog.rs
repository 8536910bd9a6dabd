use vstd::prelude::*;
use crate::counter::valid_width;
use crate::counter::is_valid_width;

verus! {

/// What discovery learned about one device of a plugin.
pub struct DeviceProbe {
    pub name: String,
    /// Width of the device's energy counter, in bits.
    pub width_bits: u32,
}

/// What discovery learned about one plugin.
pub struct PluginProbe {
    pub name: String,
    /// Whether the plugin's own initialization succeeded.
    pub initialized: bool,
    pub devices: Vec<DeviceProbe>,
}

/// A measurable energy source, owned by exactly one plugin.
pub struct Device {
    pub plugin_id: usize,
    pub device_id: usize,
    pub name: String,
    pub width_bits: u32,
}

/// A measurement backend and the devices it owns, in enumeration order.
pub struct Plugin {
    pub name: String,
    pub devices: Vec<Device>,
}

/// The identity of a device together with its counter width: all that
/// accounting needs to know of it.
#[derive(Clone, Copy, Debug, PartialEq, Eq, Structural)]
pub struct DeviceKey {
    pub plugin_id: usize,
    pub device_id: usize,
    pub width_bits: u32,
}

/// A probe can enter the catalog when its plugin initialized and each of
/// its devices reports a usable counter width.
pub open spec fn usable(probe: PluginProbe) -> bool {
    probe.initialized && forall|j: int|
        0 <= j < probe.devices@.len() ==> valid_width((#[trigger] probe.devices@[j]).width_bits)
}

/// Whether some catalog plugin is called `name`.
pub open spec fn name_in(plugins: Seq<Plugin>, name: Seq<char>) -> bool {
    exists|p: int| 0 <= p < plugins.len() && (#[trigger] plugins[p]).name@ == name
}

/// Whether one of the first `upto` probes is usable and called `name`.
pub open spec fn usable_name_before(probes: Seq<PluginProbe>, upto: int, name: Seq<char>) -> bool {
    exists|k: int| 0 <= k < upto && usable(#[trigger] probes[k]) && probes[k].name@ == name
}

/// Probe `i` enters the catalog when it is usable and the first usable
/// probe of its name: a plugin's name is its identity, so a later probe of
/// a name already taken is left out.
pub open spec fn admitted(probes: Seq<PluginProbe>, i: int) -> bool {
    usable(probes[i]) && !usable_name_before(probes, i, probes[i].name@)
}

/// How many of the first `upto` probes enter the catalog.
pub open spec fn admitted_count(probes: Seq<PluginProbe>, upto: int) -> nat
    decreases upto,
{
    if upto <= 0 {
        0
    } else {
        admitted_count(probes, upto - 1) + if admitted(probes, upto - 1) {
            1nat
        } else {
            0nat
        }
    }
}

/// No two plugins of the catalog share a name.
pub open spec fn distinct_names(plugins: Seq<Plugin>) -> bool {
    forall|a: int, b: int|
        0 <= a < b < plugins.len() ==> (#[trigger] plugins[a]).name@ != (#[trigger] plugins[b]).name@
}

/// `plugin` is the catalog entry that `probe` gives at position `plugin_id`.
pub open spec fn plugin_from(plugin: Plugin, probe: PluginProbe, plugin_id: int) -> bool {
    &&& plugin.name@ == probe.name@
    &&& plugin.devices@.len() == probe.devices@.len()
    &&& forall|j: int|
        0 <= j < probe.devices@.len() ==> {
            &&& (#[trigger] plugin.devices@[j]).plugin_id == plugin_id
            &&& plugin.devices@[j].device_id == j
            &&& plugin.devices@[j].name@ == probe.devices@[j].name@
            &&& plugin.devices@[j].width_bits == probe.devices@[j].width_bits
        }
}

/// `plugins` holds exactly the admitted probes, in discovery order.
pub open spec fn catalog_of(plugins: Seq<Plugin>, probes: Seq<PluginProbe>) -> bool {
    &&& plugins.len() == admitted_count(probes, probes.len() as int)
    &&& forall|i: int|
        0 <= i < probes.len() && #[trigger] admitted(probes, i) ==> {
            &&& admitted_count(probes, i) < plugins.len()
            &&& plugin_from(plugins[admitted_count(probes, i) as int], probes[i], admitted_count(probes, i) as int)
        }
}

/// A name is in the catalog after one more plugin exactly when it was
/// there before or is the new plugin's.
pub proof fn lemma_name_in_push(plugins: Seq<Plugin>, plugin: Plugin, name: Seq<char>)
    ensures
        name_in(plugins.push(plugin), name) == (name_in(plugins, name) || plugin.name@ == name),
{
    let longer = plugins.push(plugin);
    if name_in(plugins, name) {
        let p = choose|p: int| 0 <= p < plugins.len() && (#[trigger] plugins[p]).name@ == name;
        assert(longer[p].name@ == name);
    }
    if plugin.name@ == name {
        assert(longer[plugins.len() as int].name@ == name);
    }
    if name_in(longer, name) {
        let p = choose|p: int| 0 <= p < longer.len() && (#[trigger] longer[p]).name@ == name;
        if p < plugins.len() {
            assert(plugins[p].name@ == name);
        }
    }
}

/// A usable probe of the name is among the first `upto + 1` exactly when
/// one is among the first `upto` or probe `upto` is one.
pub proof fn lemma_usable_name_step(probes: Seq<PluginProbe>, upto: int, name: Seq<char>)
    requires
        0 <= upto < probes.len(),
    ensures
        usable_name_before(probes, upto + 1, name) == (usable_name_before(probes, upto, name) || (usable(
            probes[upto],
        ) && probes[upto].name@ == name)),
{
    if usable_name_before(probes, upto, name) {
        let k = choose|k: int| 0 <= k < upto && usable(#[trigger] probes[k]) && probes[k].name@ == name;
        assert(0 <= k < upto + 1 && usable(probes[k]) && probes[k].name@ == name);
    }
    if usable(probes[upto]) && probes[upto].name@ == name {
        assert(0 <= upto < upto + 1 && usable(probes[upto]) && probes[upto].name@ == name);
    }
    if usable_name_before(probes, upto + 1, name) {
        let k = choose|k: int| 0 <= k < upto + 1 && usable(#[trigger] probes[k]) && probes[k].name@ == name;
        if k < upto {
            assert(0 <= k < upto && usable(probes[k]) && probes[k].name@ == name);
        }
    }
}

/// The name to show for a plugin or device: the text where the backend's
/// name could be read, and a fixed placeholder where it could not.
pub fn name_or_placeholder(text: Option<String>) -> (name: String)
    ensures
        name@ == (match text {
            Some(read) => read@,
            None => "<invalid utf8>"@,
        }),
{
    match text {
        Some(read) => read,
        None => "<invalid utf8>".to_owned(),
    }
}

/// Says of each probe whether it enters the catalog: one flag per probe,
/// in discovery order.
pub fn admission(probes: &Vec<PluginProbe>) -> (flags: Vec<bool>)
    ensures
        flags@.len() == probes@.len(),
        forall|i: int| 0 <= i < probes@.len() ==> #[trigger] flags@[i] == admitted(probes@, i),
{
    let n: usize = probes.len();
    let mut flags: Vec<bool> = Vec::new();
    let mut i: usize = 0;
    while i < n
        invariant
            n == probes@.len(),
            i <= n,
            flags@.len() == i,
            forall|k: int| 0 <= k < i ==> #[trigger] flags@[k] == admitted(probes@, k),
        decreases n - i,
    {
        let mut enters: bool = probes[i].is_usable();
        let mut k: usize = 0;
        while enters && k < i
            invariant
                n == probes@.len(),
                i < n,
                k <= i,
                enters ==> usable(probes@[i as int]) && !usable_name_before(
                    probes@,
                    k as int,
                    probes@[i as int].name@,
                ),
                !enters ==> !admitted(probes@, i as int),
            decreases i - k,
        {
            let taken: bool = probes[k].is_usable() && probes[k].name == probes[i].name;
            proof {
                lemma_usable_name_step(probes@, k as int, probes@[i as int].name@);
                if taken {
                    assert(0 <= k < i && usable(probes@[k as int]) && probes@[k as int].name@
                        == probes@[i as int].name@);
                }
            }
            if taken {
                enters = false;
            }
            k = k + 1;
        }
        flags.push(enters);
        i = i + 1;
    }
    flags
}

/// Whether some catalog plugin is called `name`.
pub fn catalog_has_name(plugins: &Vec<Plugin>, name: &String) -> (found: bool)
    ensures
        found == name_in(plugins@, name@),
{
    let n: usize = plugins.len();
    let mut p: usize = 0;
    while p < n
        invariant
            n == plugins@.len(),
            p <= n,
            forall|q: int| 0 <= q < p ==> (#[trigger] plugins@[q]).name@ != name@,
        decreases n - p,
    {
        if plugins[p].name == *name {
            return true;
        }
        p = p + 1;
    }
    false
}

/// A catalog entry is well formed when its devices carry their own
/// position and a usable counter width.
pub open spec fn plugin_wf(plugin: Plugin, plugin_id: int) -> bool {
    forall|j: int|
        0 <= j < plugin.devices@.len() ==> {
            &&& (#[trigger] plugin.devices@[j]).plugin_id == plugin_id
            &&& plugin.devices@[j].device_id == j
            &&& valid_width(plugin.devices@[j].width_bits)
        }
}

/// Two plugins with the same name and the same devices.
pub open spec fn same_plugin(a: Plugin, b: Plugin) -> bool {
    a.name == b.name && a.devices@ == b.devices@
}

/// The keys of one plugin's devices, in enumeration order.
pub open spec fn plugin_keys(plugin: Plugin) -> Seq<DeviceKey> {
    Seq::new(
        plugin.devices@.len(),
        |j: int|
            DeviceKey {
                plugin_id: plugin.devices@[j].plugin_id,
                device_id: plugin.devices@[j].device_id,
                width_bits: plugin.devices@[j].width_bits,
            },
    )
}

/// The keys of all devices of the first `upto` plugins that `members`
/// selects, in discovery order.
pub open spec fn selected_keys(plugins: Seq<Plugin>, members: Seq<bool>, upto: int) -> Seq<DeviceKey>
    decreases upto,
{
    if upto <= 0 {
        Seq::empty()
    } else if members[upto - 1] {
        selected_keys(plugins, members, upto - 1) + plugin_keys(plugins[upto - 1])
    } else {
        selected_keys(plugins, members, upto - 1)
    }
}

/// All devices of the first `upto` plugins, in discovery order.
pub open spec fn all_devices(plugins: Seq<Plugin>, upto: int) -> Seq<Device>
    decreases upto,
{
    if upto <= 0 {
        Seq::empty()
    } else {
        all_devices(plugins, upto - 1) + plugins[upto - 1].devices@
    }
}

/// Whether every plugin of a catalog is well formed at its position.
pub open spec fn catalog_wf(plugins: Seq<Plugin>) -> bool {
    forall|i: int| 0 <= i < plugins.len() ==> plugin_wf(#[trigger] plugins[i], i)
}

/// Collects the keys of the devices of every selected plugin, in discovery
/// order.
pub fn select_devices(plugins: &Vec<Plugin>, members: &Vec<bool>) -> (keys: Vec<DeviceKey>)
    requires
        members@.len() == plugins@.len(),
    ensures
        keys@ == selected_keys(plugins@, members@, plugins@.len() as int),
        catalog_wf(plugins@) ==> forall|d: int|
            0 <= d < keys@.len() ==> valid_width((#[trigger] keys@[d]).width_bits),
{
    let mut keys: Vec<DeviceKey> = Vec::new();
    let n: usize = plugins.len();
    let mut i: usize = 0;
    while i < n
        invariant
            n == plugins@.len(),
            members@.len() == n,
            i <= n,
            keys@ == selected_keys(plugins@, members@, i as int),
            catalog_wf(plugins@) ==> forall|d: int|
                0 <= d < keys@.len() ==> valid_width((#[trigger] keys@[d]).width_bits),
        decreases n - i,
    {
        if members[i] {
            let m: usize = plugins[i].devices.len();
            let mut j: usize = 0;
            while j < m
                invariant
                    n == plugins@.len(),
                    members@.len() == n,
                    i < n,
                    m == plugins@[i as int].devices@.len(),
                    j <= m,
                    keys@ == selected_keys(plugins@, members@, i as int) + plugin_keys(
                        plugins@[i as int],
                    ).subrange(0, j as int),
                    catalog_wf(plugins@) ==> forall|d: int|
                        0 <= d < keys@.len() ==> valid_width((#[trigger] keys@[d]).width_bits),
                decreases m - j,
            {
                let key: DeviceKey = plugins[i].devices[j].key();
                keys.push(key);
                proof {
                    assert(plugin_keys(plugins@[i as int]).subrange(0, j + 1) =~= plugin_keys(
                        plugins@[i as int],
                    ).subrange(0, j as int).push(key));
                    assert(keys@ =~= selected_keys(plugins@, members@, i as int) + plugin_keys(
                        plugins@[i as int],
                    ).subrange(0, j + 1));
                    if catalog_wf(plugins@) {
                        assert(plugin_wf(plugins@[i as int], i as int));
                        assert(valid_width(plugins@[i as int].devices@[j as int].width_bits));
                    }
                }
                j = j + 1;
            }
            proof {
                assert(plugin_keys(plugins@[i as int]).subrange(0, m as int) =~= plugin_keys(
                    plugins@[i as int],
                ));
            }
        }
        i = i + 1;
    }
    keys
}

impl Device {
    /// The device's human-readable name.
    pub fn name(&self) -> (name: &str)
        ensures
            name@ == self.name@,
    {
        self.name.as_str()
    }

    /// The device's identity and counter width.
    pub fn key(&self) -> (key: DeviceKey)
        ensures
            key == (DeviceKey {
                plugin_id: self.plugin_id,
                device_id: self.device_id,
                width_bits: self.width_bits,
            }),
    {
        DeviceKey { plugin_id: self.plugin_id, device_id: self.device_id, width_bits: self.width_bits }
    }

    /// An equal device.
    pub fn duplicate(&self) -> (copy: Device)
        ensures
            copy == *self,
    {
        Device {
            plugin_id: self.plugin_id,
            device_id: self.device_id,
            name: self.name.clone(),
            width_bits: self.width_bits,
        }
    }
}

impl Plugin {
    /// The plugin's name. Within a registry's catalog it is the plugin's
    /// identity: no other plugin of the catalog bears it.
    pub fn name(&self) -> (name: &str)
        ensures
            name@ == self.name@,
    {
        self.name.as_str()
    }

    /// The plugin's devices, in enumeration order.
    pub fn devices(&self) -> (devices: &[Device])
        ensures
            devices@ == self.devices@,
    {
        self.devices.as_slice()
    }

    /// A plugin with the same name and the same devices.
    pub fn duplicate(&self) -> (copy: Plugin)
        ensures
            same_plugin(copy, *self),
    {
        let mut devices: Vec<Device> = Vec::new();
        let n: usize = self.devices.len();
        let mut j: usize = 0;
        while j < n
            invariant
                n == self.devices@.len(),
                j <= n,
                devices@ == self.devices@.subrange(0, j as int),
            decreases n - j,
        {
            devices.push(self.devices[j].duplicate());
            proof {
                assert(devices@ =~= self.devices@.subrange(0, j + 1));
            }
            j = j + 1;
        }
        proof {
            assert(devices@ =~= self.devices@);
        }
        Plugin { name: self.name.clone(), devices }
    }
}

impl PluginProbe {
    /// Whether the probe can enter the catalog.
    pub fn is_usable(&self) -> (ok: bool)
        ensures
            ok == usable(*self),
    {
        if !self.initialized {
            return false;
        }
        let n: usize = self.devices.len();
        let mut j: usize = 0;
        while j < n
            invariant
                n == self.devices@.len(),
                j <= n,
                forall|k: int| 0 <= k < j ==> valid_width((#[trigger] self.devices@[k]).width_bits),
            decreases n - j,
        {
            if !is_valid_width(self.devices[j].width_bits) {
                return false;
            }
            j = j + 1;
        }
        true
    }

    /// The catalog entry that this probe gives at position `plugin_id`.
    pub fn to_plugin(&self, plugin_id: usize) -> (plugin: Plugin)
        ensures
            plugin_from(plugin, *self, plugin_id as int),
            usable(*self) ==> plugin_wf(plugin, plugin_id as int),
    {
        let mut devices: Vec<Device> = Vec::new();
        let n: usize = self.devices.len();
        let mut j: usize = 0;
        while j < n
            invariant
                n == self.devices@.len(),
                j <= n,
                devices@.len() == j,
                forall|k: int|
                    0 <= k < j ==> {
                        &&& (#[trigger] devices@[k]).plugin_id == plugin_id
                        &&& devices@[k].device_id == k
                        &&& devices@[k].name@ == self.devices@[k].name@
                        &&& devices@[k].width_bits == self.devices@[k].width_bits
                    },
            decreases n - j,
        {
            devices.push(
                Device {
                    plugin_id,
                    device_id: j,
                    name: self.devices[j].name.clone(),
                    width_bits: self.devices[j].width_bits,
                },
            );
            j = j + 1;
        }
        Plugin { name: self.name.clone(), devices }
    }
}

} // verus!
