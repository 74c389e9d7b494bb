use craven_control::codec::Codec;
use craven_control::errors::CodecError;
use craven_control::registers_to_i32;
use craven_control::sensing::{combine_dual_reading, DualReading};

#[test]
fn wide_value_high_word_first() {
    let regs = [0x0001u16, 0x0000u16];
    assert_eq!(registers_to_i32(&regs, 0), 65536);
}

#[test]
fn wide_value_low_word_only() {
    let regs = [0x0000u16, 0x0001u16];
    assert_eq!(registers_to_i32(&regs, 0), 1);
}

#[test]
fn wide_value_is_signed() {
    let regs = [0x8000u16, 0x0000u16];
    assert_eq!(registers_to_i32(&regs, 0), -2147483648);
    let regs = [0xFFFFu16, 0xFFFFu16];
    assert_eq!(registers_to_i32(&regs, 0), -1);
}

#[test]
fn wide_value_at_offset() {
    let regs = [0xDEADu16, 0x0000u16, 0x0002u16];
    assert_eq!(registers_to_i32(&regs, 1), 2);
}

#[test]
fn encode_rounds_to_resolution() {
    // 0.1-degree resolution in micro-degrees: 12.3 degrees becomes raw 123.
    let tk = Codec { res_micro: 100_000, max_raw: 0xFFFF };
    assert_eq!(tk.encode(12_300_000), Ok(123));
    // Nearest count wins; ties round up.
    assert_eq!(tk.encode(12_340_000), Ok(123));
    assert_eq!(tk.encode(12_350_000), Ok(124));
    assert_eq!(tk.encode(12_360_000), Ok(124));
}

#[test]
fn decode_word_scales_by_resolution() {
    let tk = Codec { res_micro: 100_000, max_raw: 0xFFFF };
    assert_eq!(tk.decode_word(123), 12_300_000);
    assert_eq!(tk.decode_word(0), 0);
}

#[test]
fn round_trip_within_resolution() {
    let tk = Codec { res_micro: 100_000, max_raw: 0xFFFF };
    for phys in [0u64, 49_999, 50_000, 12_300_000, 12_349_999, 6_553_500_000] {
        let raw = tk.encode(phys).unwrap();
        let back = tk.decode_word(raw);
        let distance = if back >= phys { back - phys } else { phys - back };
        assert!(2 * distance <= 100_000);
    }
}

#[test]
fn encode_fails_out_of_range() {
    // Precision source: 0.1 mA per count, at most 100 mA (raw 1000).
    let source = Codec { res_micro: 100_000, max_raw: 1000 };
    assert_eq!(source.encode(100_000_000), Ok(1000));
    // Within half a count above the span still rounds onto it.
    assert_eq!(source.encode(100_049_999), Ok(1000));
    assert_eq!(source.encode(100_050_000), Err(CodecError::OutOfRange));
    assert_eq!(source.encode(150_000_000), Err(CodecError::OutOfRange));
    assert_eq!(source.encode(u64::MAX), Err(CodecError::OutOfRange));
}

#[test]
fn older_pyro_generator_codec() {
    // The retired pyrometer-simulator generator: 0.1 mA per count up to
    // 20.0 mA, so a 4.3 mA demand becomes raw 43.
    let codec = craven_control::devices::pyro_curr_gen_codec();
    assert_eq!(codec.encode(4_300_000), Ok(43));
    assert_eq!(codec.decode_word(43), 4_300_000);
    assert_eq!(codec.encode(20_100_000), Err(CodecError::OutOfRange));
}

#[test]
fn combine_handles_full_scale_readings() {
    // Both channels at the largest decodable temperature.
    let top = 0xFFFFu64 * 100_000;
    let reading = DualReading { ch1: Some(top), ch2: Some(top) };
    assert_eq!(combine_dual_reading(reading), top);
}

#[test]
fn decode_pair_assembles_wide_values() {
    let volts = Codec { res_micro: 100, max_raw: 0xFFFF };
    // 12345 counts of 0.1 mV is 1.2345 V.
    assert_eq!(volts.decode_pair(0x0000, 12345), 1_234_500);
    // A negative wide value scales negatively.
    assert_eq!(volts.decode_pair(0xFFFF, 0xFFFF), -100);
}
