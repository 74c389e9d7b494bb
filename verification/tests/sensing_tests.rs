use craven_control::devices::{
    decode_n4aia04_ch1, decode_n4via02, decode_ykdaq1402_iv, decode_ykpvccs0100_monitor,
    encode_n4ioa01_drive, encode_ykpvccs0100_drive,
};
use craven_control::errors::{CodecError, ValueError};
use craven_control::sensing::{
    check_plausible, combine_dual_reading, decode_dual_tk, decode_tk_channel,
    pyro_target_micro_ma, DualReading,
};

#[test]
fn combine_both_valid_is_mean() {
    let reading = DualReading { ch1: Some(100_000_000), ch2: Some(200_000_000) };
    assert_eq!(combine_dual_reading(reading), 150_000_000);
}

#[test]
fn combine_only_channel_one() {
    let reading = DualReading { ch1: Some(321_400_000), ch2: None };
    assert_eq!(combine_dual_reading(reading), 321_400_000);
}

#[test]
fn combine_only_channel_two() {
    let reading = DualReading { ch1: None, ch2: Some(87_600_000) };
    assert_eq!(combine_dual_reading(reading), 87_600_000);
}

#[test]
fn combine_neither_is_failsafe_ceiling() {
    let reading = DualReading { ch1: None, ch2: None };
    assert_eq!(combine_dual_reading(reading), 1_000_000_000);
}

#[test]
fn tk_channel_connected_flag() {
    // Flag word zero means connected: 123 counts of 0.1 degrees.
    assert_eq!(decode_tk_channel(0, 123), Some(12_300_000));
}

#[test]
fn tk_channel_spurious_fault_override() {
    // Flagged disconnected, but the reading stays below the 1000-degree
    // plausibility ceiling: the channel counts as connected anyway.
    assert_eq!(decode_tk_channel(1, 9999), Some(999_900_000));
}

#[test]
fn tk_channel_disconnected_at_ceiling() {
    // Flagged disconnected and at the ceiling: the fault is believed.
    assert_eq!(decode_tk_channel(1, 10000), None);
    assert_eq!(decode_tk_channel(1, 0xFFFF), None);
}

#[test]
fn dual_tk_decodes_both_channels() {
    let flags = [0u16, 1u16];
    let temps = [123u16, 65000u16];
    let reading = decode_dual_tk(&flags, &temps);
    assert_eq!(reading.ch1, Some(12_300_000));
    assert_eq!(reading.ch2, None);
}

#[test]
fn transfer_function_endpoints() {
    // 0 degrees maps to 4 mA, 1000 degrees to 20 mA.
    assert_eq!(pyro_target_micro_ma(0), 4_000_000);
    assert_eq!(pyro_target_micro_ma(1_000_000_000), 20_000_000);
}

#[test]
fn transfer_function_midpoint() {
    // 500 degrees maps to 12 mA.
    assert_eq!(pyro_target_micro_ma(500_000_000), 12_000_000);
}

#[test]
fn transfer_function_clamps_above_span() {
    assert_eq!(pyro_target_micro_ma(2_000_000_000), 20_000_000);
    assert_eq!(pyro_target_micro_ma(u64::MAX), 20_000_000);
}

#[test]
fn electrode_adc_decodes_both_pairs() {
    // Channel 1: 12345 counts of 0.1 mV; channel 2: 42 counts of 0.1 mA.
    let regs = [0u16, 12345u16, 0u16, 42u16];
    let (micro_volts, micro_ma) = decode_ykdaq1402_iv(&regs);
    assert_eq!(micro_volts, 1_234_500);
    assert_eq!(micro_ma, 4_200_000);
}

#[test]
fn precision_source_drive_encoding() {
    // 1.0 mA at 0.1 mA per count is raw 10; 20.0 mA is raw 200.
    assert_eq!(encode_ykpvccs0100_drive(1_000_000), Ok(10));
    assert_eq!(encode_ykpvccs0100_drive(20_000_000), Ok(200));
    // Beyond the 100 mA span is refused.
    assert_eq!(encode_ykpvccs0100_drive(120_000_000), Err(CodecError::OutOfRange));
}

#[test]
fn precision_source_round_trip_within_resolution() {
    // Any demand in the 0-100 mA span comes back from the monitor scale
    // within half of one 0.1 mA count.
    for micro_ma in [0u64, 49_999, 50_000, 1_000_000, 12_345_678, 99_950_000, 100_000_000] {
        let raw = encode_ykpvccs0100_drive(micro_ma).unwrap();
        let back = decode_ykpvccs0100_monitor(raw);
        let distance = if back >= micro_ma { back - micro_ma } else { micro_ma - back };
        assert!(2 * distance <= 100_000);
    }
}

#[test]
fn precision_source_monitor_decoding() {
    assert_eq!(decode_ykpvccs0100_monitor(10), 1_000_000);
    assert_eq!(decode_ykpvccs0100_monitor(1000), 100_000_000);
}

#[test]
fn pyro_loop_drive_encoding() {
    // 4.0 mA at 0.01 mA per count is raw 400; 20.0 mA is raw 2000.
    assert_eq!(encode_n4ioa01_drive(4_000_000), Ok(400));
    assert_eq!(encode_n4ioa01_drive(20_000_000), Ok(2000));
    assert_eq!(encode_n4ioa01_drive(25_000_000), Err(CodecError::OutOfRange));
}

#[test]
fn pyro_loop_ammeter_decoding() {
    assert_eq!(decode_n4aia04_ch1(43), 4_300_000);
}

#[test]
fn implausible_reading_is_an_error() {
    assert_eq!(check_plausible(999_900_000, 1_000_000_000), Ok(999_900_000));
    assert_eq!(
        check_plausible(1_000_000_001, 1_000_000_000),
        Err(ValueError { observed_micro: 1_000_000_001, ceiling_micro: 1_000_000_000 })
    );
}

#[test]
fn multimeter_decoding() {
    // 150 counts of 0.01 V and 2 counts of 1 mA.
    assert_eq!(decode_n4via02(150, 2), (1_500_000, 2_000_000));
}
