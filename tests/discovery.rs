use multi_harp_patina::{
    available_devices, check_serial, list_devices_and_status, DeviceProbe, DeviceRegistry,
    MHDeviceIterator, PatinaError,
};

fn probe(code: i32, serial: &str) -> DeviceProbe {
    DeviceProbe { code, serial: serial.to_string() }
}

#[test]
fn lists_only_devices_that_opened() {
    let probes = vec![
        probe(-1, ""),
        probe(0, "01044272"),
        probe(-2, "01000001"),
        probe(0, "01000002"),
        probe(-11, "01000003"),
    ];
    let devs = available_devices(&probes);
    assert_eq!(devs, vec![(1, "01044272".to_string()), (3, "01000002".to_string())]);
}

#[test]
fn scans_at_most_eight_indices() {
    let probes: Vec<DeviceProbe> = (0..10).map(|i| probe(0, &format!("{}", i))).collect();
    let devs = available_devices(&probes);
    assert_eq!(devs.len(), 8);
    assert_eq!(devs[7], (7, "7".to_string()));
    assert!(available_devices(&Vec::new()).is_empty());
}

#[test]
fn iterator_steps_through_available_devices() {
    let probes = vec![probe(-1, ""), probe(0, "A"), probe(0, "B")];
    let mut it = MHDeviceIterator::new();
    assert_eq!(it.next(&probes), Some((1, "A".to_string())));
    assert_eq!(it.next(&probes), Some((2, "B".to_string())));
    assert_eq!(it.next(&probes), None);
    let mut past = MHDeviceIterator { devidx: 9 };
    assert_eq!(past.next(&probes), None);
    assert_eq!(past.devidx, 9);
    let mut before = MHDeviceIterator { devidx: -3 };
    assert_eq!(before.next(&probes), Some((1, "A".to_string())));
    assert_eq!(before.devidx, 2);
}

#[test]
fn statuses_of_each_index() {
    let probes = vec![probe(0, "S0"), probe(-1, "S1"), probe(-2, "S2"), probe(-11, "S3"), probe(-5, "S4")];
    let all = list_devices_and_status(&probes);
    assert_eq!(all.len(), 5);
    assert_eq!(all[0], (0, "S0".to_string(), "Available".to_string()));
    assert_eq!(all[1], (1, "S1".to_string(), "No device".to_string()));
    assert_eq!(all[2], (2, "S2".to_string(), "Busy".to_string()));
    assert_eq!(all[3], (3, "S3".to_string(), "Locked".to_string()));
    assert_eq!(all[4], (4, "".to_string(), "No device".to_string()));
}

#[test]
fn registry_occupancy() {
    let mut reg = DeviceRegistry::new();
    assert_eq!(reg.open(None), Err(PatinaError::NoDeviceAvailable));
    assert_eq!(reg.open(Some(2)), Ok(2));
    assert!(reg.is_occupied(2));
    assert_eq!(
        reg.open(Some(2)),
        Err(PatinaError::ArgumentError(
            "index".to_string(),
            2,
            "Device already occupied".to_string()
        ))
    );
    assert_eq!(
        reg.open(Some(8)),
        Err(PatinaError::ArgumentError(
            "index".to_string(),
            8,
            "Index must be between 0 and 7".to_string()
        ))
    );
    assert!(matches!(reg.open(Some(-1)), Err(PatinaError::ArgumentError(_, -1, _))));
    assert_eq!(reg.open(Some(0)), Ok(0));
    let probes = reg.probe_all();
    assert_eq!(probes.len(), 8);
    assert_eq!(probes[2].code, -2);
    assert_eq!(probes[1].code, 0);
    assert_eq!(probes[1].serial, "Debug00");
    let devs = available_devices(&probes);
    assert_eq!(devs.iter().map(|d| d.0).collect::<Vec<_>>(), vec![1, 3, 4, 5, 6, 7]);
    reg.release(2);
    assert!(!reg.is_occupied(2));
    assert!(reg.is_occupied(0));
    assert_eq!(reg.open(Some(2)), Ok(2));
}

#[test]
fn serial_length_is_checked() {
    assert!(check_serial("01044272").is_ok());
    assert!(check_serial("").is_ok());
    assert_eq!(
        check_serial("000000000000035321"),
        Err(PatinaError::ArgumentError(
            "serial".to_string(),
            18,
            "Serial number must be 8 characters or less".to_string()
        ))
    );
}

#[test]
fn test_available_devices() {
    let registry = DeviceRegistry::new();
    let probes = registry.probe_all();
    let devs = available_devices(&probes);
    println!("Available devices : {:?}", devs);
    assert_eq!(devs.len(), 8);

    let all_devs = list_devices_and_status(&probes);
    println!("All devices: {:?}", all_devs);
    assert!(all_devs.iter().all(|d| d.2 == "Available"));
}

#[test]
fn test_open_device() {
    let mut registry = DeviceRegistry::new();
    let devs = available_devices(&registry.probe_all());
    let mh = registry.open(devs.first().map(|d| d.0));
    assert!(mh.is_ok());
    println!("Opened device with serial number {}", devs[0].1);
}

#[test]
fn test_open_by_serial() {
    let mh = check_serial("01044272");
    assert!(mh.is_ok());
    let mut registry = DeviceRegistry::new();
    let devs = available_devices(&registry.probe_all());
    assert!(registry.open(devs.first().map(|d| d.0)).is_ok());
}
