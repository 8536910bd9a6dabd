use ema::accounting::RegionRecord;
use ema::accounting::RegionState;
use ema::catalog::admission;
use ema::catalog::catalog_has_name;
use ema::catalog::select_devices;
use ema::catalog::DeviceProbe;
use ema::catalog::PluginProbe;
use ema::catalog::Device;
use ema::catalog::DeviceKey;
use ema::catalog::Plugin;
use ema::error::ErrorCode;
use ema::report::average_of;
use ema::report::summarize;

fn plugin_with(plugin_id: usize, widths: &[u32]) -> Plugin {
    Plugin {
        name: format!("plugin-{}", plugin_id),
        devices: widths
            .iter()
            .enumerate()
            .map(|(device_id, width)| Device {
                plugin_id,
                device_id,
                name: format!("d{}", device_id),
                width_bits: *width,
            })
            .collect(),
    }
}

fn record(devices: Vec<DeviceKey>) -> RegionRecord {
    let totals = vec![0; devices.len()];
    RegionRecord {
        name: "n".to_string(),
        file: "f".to_string(),
        line: 1,
        function: "g".to_string(),
        filter: 0,
        state: RegionState::Defined,
        devices,
        invocations: 0,
        total_elapsed_us: 0,
        total_energy_uj: totals,
        started_at_us: 0,
        snapshot: Vec::new(),
    }
}

#[test]
fn average_rounds_down_and_needs_a_cycle() {
    assert_eq!(average_of(10, 0), None);
    assert_eq!(average_of(0, 3), Some(0));
    assert_eq!(average_of(10, 3), Some(3));
    assert_eq!(average_of(u128::MAX, 1), Some(u128::MAX));
    assert_eq!(average_of(u64::MAX as u128 * 2, 2), Some(u64::MAX as u128));
}

#[test]
fn select_devices_follows_membership() {
    let plugins = vec![plugin_with(0, &[8, 16]), plugin_with(1, &[]), plugin_with(2, &[64])];
    assert_eq!(select_devices(&plugins, &vec![false, false, false]), Vec::new());
    assert_eq!(
        select_devices(&plugins, &vec![true, true, false]),
        vec![
            DeviceKey { plugin_id: 0, device_id: 0, width_bits: 8 },
            DeviceKey { plugin_id: 0, device_id: 1, width_bits: 16 },
        ]
    );
    assert_eq!(
        select_devices(&plugins, &vec![false, true, true]),
        vec![DeviceKey { plugin_id: 2, device_id: 0, width_bits: 64 }]
    );
    assert_eq!(select_devices(&plugins, &vec![true, true, true]).len(), 3);
}

#[test]
fn record_state_machine_alone() {
    let mut r = record(vec![DeviceKey { plugin_id: 0, device_id: 0, width_bits: 16 }]);
    assert!(r.check_readings(&vec![Some(65_535)]));
    assert!(!r.check_readings(&vec![Some(65_536)]));
    assert!(!r.check_readings(&vec![None]));
    assert!(!r.check_readings(&vec![Some(1), Some(2)]));
    assert_eq!(r.end(5, &vec![Some(1)]), Err(ErrorCode::NotRunning));
    assert_eq!(r.begin(5, &vec![Some(65_000)]), Ok(()));
    assert_eq!(r.begin(6, &vec![Some(65_000)]), Err(ErrorCode::AlreadyRunning));
    assert_eq!(r.finalize(), Err(ErrorCode::AlreadyRunning));
    assert_eq!(r.end(9, &vec![Some(464)]), Ok(()));
    assert_eq!(r.invocations, 1);
    assert_eq!(r.total_elapsed_us, 4);
    assert_eq!(r.total_energy_uj, vec![1_000]);
    assert_eq!(r.finalize(), Ok(()));
    assert_eq!(r.state, RegionState::Finalized);
    assert_eq!(r.begin(10, &vec![Some(1)]), Err(ErrorCode::InvalidState));
    assert_eq!(r.end(10, &vec![Some(1)]), Err(ErrorCode::InvalidState));
    assert_eq!(r.finalize(), Err(ErrorCode::InvalidState));
    assert_eq!(r.total_energy_uj, vec![1_000]);
}

#[test]
fn summary_of_one_record() {
    let mut r = record(vec![
        DeviceKey { plugin_id: 3, device_id: 1, width_bits: 8 },
        DeviceKey { plugin_id: 4, device_id: 0, width_bits: 64 },
    ]);
    assert_eq!(r.begin(0, &vec![Some(255), Some(0)]), Ok(()));
    assert_eq!(r.end(7, &vec![Some(2), Some(9)]), Ok(()));
    assert_eq!(r.begin(7, &vec![Some(2), Some(9)]), Ok(()));
    assert_eq!(r.end(10, &vec![Some(2), Some(10)]), Ok(()));
    let summary = summarize(&r);
    assert_eq!(summary.name, "n");
    assert_eq!(summary.invocations, 2);
    assert_eq!(summary.total_elapsed_us, 10);
    assert_eq!(summary.average_elapsed_us, Some(5));
    assert_eq!(summary.devices[0].plugin_id, 3);
    assert_eq!(summary.devices[0].device_id, 1);
    assert_eq!(summary.devices[0].total_energy_uj, 3);
    assert_eq!(summary.devices[0].average_energy_uj, Some(1));
    assert_eq!(summary.devices[1].total_energy_uj, 10);
    assert_eq!(summary.devices[1].average_energy_uj, Some(5));
}

fn probe(name: &str, initialized: bool, width_bits: u32) -> PluginProbe {
    PluginProbe {
        name: name.to_string(),
        initialized,
        devices: vec![DeviceProbe { name: "d".to_string(), width_bits }],
    }
}

#[test]
fn admission_takes_the_first_usable_probe_of_each_name() {
    let probes = vec![
        probe("A", false, 8),
        probe("A", true, 8),
        probe("B", true, 0),
        probe("A", true, 16),
        probe("B", true, 64),
        probe("B", true, 64),
    ];
    assert_eq!(admission(&probes), vec![false, true, false, false, true, false]);
    assert_eq!(admission(&Vec::new()), Vec::<bool>::new());
}

#[test]
fn catalog_name_lookup() {
    let plugins = vec![plugin_with(0, &[8]), plugin_with(1, &[])];
    assert!(catalog_has_name(&plugins, &"plugin-0".to_string()));
    assert!(catalog_has_name(&plugins, &"plugin-1".to_string()));
    assert!(!catalog_has_name(&plugins, &"PLUGIN-1".to_string()));
    assert!(!catalog_has_name(&Vec::new(), &"plugin-0".to_string()));
}
