use craven_control::bus::{BusOp, BusSession};
use craven_control::codec::Codec;
use craven_control::commission::{
    classify_existing_node_id, needs_multiple_register_write, needs_persist_flush,
    new_node_id_took, wa8tai_mixed_mode_plan, NodeIdCheck,
};
use craven_control::errors::TransportError;
use craven_control::logging::{LogRecord, CSV_HEADER};
use craven_control::registry::{required_modules, validate_registry, DeviceDescriptor, DeviceKind};
use craven_control::sensing::DualReading;

#[test]
fn session_addresses_then_settles() {
    let mut session = BusSession::new();
    let ops = session.address(0x3F, 125);
    assert_eq!(
        ops,
        vec![BusOp::SetSlave { slave: 0x3F }, BusOp::Settle { millis: 125 }]
    );
}

#[test]
fn session_skips_redundant_address_switch() {
    let mut session = BusSession::new();
    let _ = session.address(0x3F, 125);
    assert_eq!(session.address(0x3F, 125), vec![]);
    // A different slave switches again.
    assert_eq!(
        session.address(0x4A, 125),
        vec![BusOp::SetSlave { slave: 0x4A }, BusOp::Settle { millis: 125 }]
    );
}

#[test]
fn session_settles_per_device() {
    // Each module's exchanges are followed by that module's own delay.
    let mut session = BusSession::new();
    let _ = session.address(0x3F, 125);
    assert_eq!(
        session.read_holding(0x00, 2),
        vec![BusOp::ReadRegs { reg: 0x00, count: 2 }, BusOp::Settle { millis: 125 }]
    );
    let ops = session.address(0x2F, 1000);
    assert_eq!(
        ops,
        vec![BusOp::SetSlave { slave: 0x2F }, BusOp::Settle { millis: 1000 }]
    );
    assert_eq!(
        session.write_register(0x10, 7),
        vec![BusOp::WriteReg { reg: 0x10, value: 7 }, BusOp::Settle { millis: 1000 }]
    );
}

#[test]
fn every_exchange_is_followed_by_a_settle() {
    let mut session = BusSession::new();
    let mut stream = session.address(0x1F, 250);
    stream.extend(session.read_holding(0x00, 4));
    stream.extend(session.write_register(0x10, 42));
    for (i, op) in stream.iter().enumerate() {
        if !matches!(op, BusOp::Settle { .. }) {
            assert!(matches!(stream[i + 1], BusOp::Settle { .. }));
        }
    }
    assert_eq!(stream.len(), 6);
}

#[test]
fn transport_error_labels() {
    assert_eq!(TransportError::Timeout.label(), "timeout");
    assert_eq!(TransportError::MalformedFrame.label(), "malformed frame");
    assert_eq!(TransportError::Nack.label(), "nack");
}

#[test]
fn standard_registry_is_valid() {
    let devices = required_modules();
    assert_eq!(devices.len(), 4);
    assert!(validate_registry(&devices));
    assert_eq!(devices[0].kind, DeviceKind::DualTkReader);
    assert_eq!(devices[0].slave, 0x3F);
    assert_eq!(devices[3].kind, DeviceKind::ElectrodeIvAdc);
    assert_eq!(devices[3].reg_count, 4);
}

#[test]
fn registry_rejects_duplicate_addresses() {
    let mut devices = required_modules();
    let mut clash = devices[1];
    clash.slave = devices[0].slave;
    devices[1] = clash;
    assert!(!validate_registry(&devices));
}

#[test]
fn registry_rejects_unusable_descriptor() {
    let devices = vec![DeviceDescriptor {
        kind: DeviceKind::Multimeter,
        slave: 0x1A,
        identity_reg: 0xFD,
        base_reg: 0x00,
        reg_count: 0,
        codec: Codec { res_micro: 10_000, max_raw: 0xFFFF },
        settle_millis: 125,
    }];
    assert!(!validate_registry(&devices));
}

#[test]
fn node_id_classification() {
    // Device still on the old address: reprogram it.
    assert_eq!(classify_existing_node_id(0x01, 0x01, 0x2F), NodeIdCheck::WriteNew);
    // Device already moved: nothing to write.
    assert_eq!(classify_existing_node_id(0x2F, 0x01, 0x2F), NodeIdCheck::AlreadyNew);
    // Some third device answers: refuse to reprogram it.
    assert_eq!(
        classify_existing_node_id(0x3F, 0x01, 0x2F),
        NodeIdCheck::Conflict { observed: 0x3F }
    );
}

#[test]
fn node_id_classification_degenerate_move() {
    // Moving a device onto the address it already reports needs no write,
    // also when the old and new addresses coincide.
    assert_eq!(classify_existing_node_id(0x2F, 0x2F, 0x2F), NodeIdCheck::AlreadyNew);
}

#[test]
fn node_id_verification_after_reconnect() {
    assert!(new_node_id_took(0x2F, 0x2F));
    assert!(!new_node_id_took(0x01, 0x2F));
}

#[test]
fn commissioning_special_cases() {
    // Only the quad relay takes its address by a multiple-register write.
    assert!(needs_multiple_register_write(0x5F));
    assert!(!needs_multiple_register_write(0x2F));
    // Only the precision source needs its configuration flushed.
    assert!(needs_persist_flush(0x2F));
    assert!(!needs_persist_flush(0x5F));
}

#[test]
fn mixed_adc_mode_plan_alternates() {
    let plan = wa8tai_mixed_mode_plan();
    assert_eq!(plan.len(), 8);
    for (i, (reg, mode)) in plan.iter().enumerate() {
        assert_eq!(*reg, 0x1000 + i as u16);
        assert_eq!(*mode, if i % 2 == 0 { 0x0000 } else { 0x0003 });
    }
}

#[test]
fn log_record_columns_in_schema_order() {
    let reading = DualReading { ch1: Some(12_300_000), ch2: None };
    let record = LogRecord::capture(
        reading, 12_300_000, 250_000, 300_000, 1_234_500, 4_200_000, 4_500_000,
    );
    // An absent channel 2 is logged as channel 1's value.
    assert_eq!(record.tk1_micro, 12_300_000);
    assert_eq!(record.tk2_micro, 12_300_000);
    let fields = record.fields();
    assert_eq!(fields.len(), CSV_HEADER.split(',').count());
    assert_eq!(
        fields[1..],
        [12_300_000, 12_300_000, 12_300_000, 250_000, 300_000, 1_234_500, 4_200_000, 4_500_000]
    );
    assert_eq!(fields[0], record.epoch_secs);
}

#[test]
fn log_record_absent_channel_one_is_zero() {
    let reading = DualReading { ch1: None, ch2: Some(500_000) };
    let record = LogRecord::capture(reading, 500_000, 0, 0, 0, 0, 0);
    assert_eq!(record.tk1_micro, 0);
    assert_eq!(record.tk2_micro, 500_000);
}
