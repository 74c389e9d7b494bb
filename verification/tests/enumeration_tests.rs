use craven_control::enumeration::{enumeration_outcome, EnumerationCheck};
use craven_control::registry::{required_modules, DeviceKind};

#[test]
fn enumeration_passes_when_all_identities_match() {
    let devices = required_modules();
    let observed: Vec<u16> = devices.iter().map(|d| d.slave as u16).collect();
    assert_eq!(enumeration_outcome(&devices, &observed), Ok(()));
}

#[test]
fn enumeration_reports_first_mismatch() {
    let devices = required_modules();
    // The second module (the pyro loop source, expected 0x4A) answers as 0x01.
    let observed: Vec<u16> = vec![0x3F, 0x01, 0x1E, 0x1F];
    let err = enumeration_outcome(&devices, &observed).unwrap_err();
    assert_eq!(err.device, DeviceKind::PyroLoopSource);
    assert_eq!(err.expected, 0x4A);
    assert_eq!(err.observed, 0x01);
}

#[test]
fn stepwise_check_stops_probing_after_mismatch() {
    let devices = required_modules();
    let mut check = EnumerationCheck::new(devices);

    // First module answers correctly.
    let (slave, reg) = check.next_probe().unwrap();
    assert_eq!(slave, 0x3F);
    assert_eq!(reg, 0x20);
    assert_eq!(check.record_identity(0x3F), Ok(()));

    // Second module misidentifies itself: the check fails for good.
    let (slave, _reg) = check.next_probe().unwrap();
    assert_eq!(slave, 0x4A);
    let err = check.record_identity(0x7B).unwrap_err();
    assert_eq!(err.device, DeviceKind::PyroLoopSource);
    assert_eq!(err.expected, 0x4A);
    assert_eq!(err.observed, 0x7B);

    // No further bus operation is requested.
    assert_eq!(check.next_probe(), None);
}

#[test]
fn stepwise_check_completes_when_all_match() {
    let devices = required_modules();
    let expected: Vec<u16> = devices.iter().map(|d| d.slave as u16).collect();
    let mut check = EnumerationCheck::new(devices);
    for raw in expected {
        assert!(check.next_probe().is_some());
        assert_eq!(check.record_identity(raw), Ok(()));
    }
    assert_eq!(check.next_probe(), None);
}

#[test]
fn identity_compares_low_byte() {
    let devices = required_modules();
    let mut check = EnumerationCheck::new(devices);
    // The register's high byte is ignored, as the low byte carries the id.
    assert_eq!(check.record_identity(0xAB3F), Ok(()));
}
