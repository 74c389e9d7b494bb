//! Per-device codecs and register interpretation.
//!
//! Each function here is the compute half of one bus exchange: the
//! unverified transport glue moves the raw words, these functions say
//! exactly what the words mean.

use vstd::prelude::*;

use crate::codec::{
    lemma_encode_decode_round_trip, lemma_representable_encodes, word_pair_value, Codec,
};
use crate::errors::CodecError;

verus! {

/// Electrode ADC voltage channel: 0.1 mV per count over a 10 V range,
/// in micro-volts.
pub fn ykdaq1402_volts_codec() -> (codec: Codec)
    ensures
        codec == (Codec { res_micro: 100u32, max_raw: 0xFFFFu16 }),
        codec.valid(),
{
    Codec { res_micro: 100, max_raw: 0xFFFF }
}

/// Electrode ADC current channel: 0.1 mA per count over a 5 A range,
/// in micro-milliamps.
pub fn ykdaq1402_milliamps_codec() -> (codec: Codec)
    ensures
        codec == (Codec { res_micro: 100_000u32, max_raw: 0xFFFFu16 }),
        codec.valid(),
{
    Codec { res_micro: 100_000, max_raw: 0xFFFF }
}

/// Precision current source drive/monitor registers: 0.1 mA per count,
/// 0 to 100 mA, in micro-milliamps.
pub fn ykpvccs0100_codec() -> (codec: Codec)
    ensures
        codec == (Codec { res_micro: 100_000u32, max_raw: 1000u16 }),
        codec.valid(),
{
    Codec { res_micro: 100_000, max_raw: 1000 }
}

/// Pyrometer-loop source command register: 0.01 mA per count, 0 to 20 mA,
/// in micro-milliamps.
pub fn n4ioa01_codec() -> (codec: Codec)
    ensures
        codec == (Codec { res_micro: 10_000u32, max_raw: 2000u16 }),
        codec.valid(),
{
    Codec { res_micro: 10_000, max_raw: 2000 }
}

/// Pyrometer-loop ammeter current channel: 0.1 mA per count, in
/// micro-milliamps.
pub fn n4aia04_codec() -> (codec: Codec)
    ensures
        codec == (Codec { res_micro: 100_000u32, max_raw: 0xFFFFu16 }),
        codec.valid(),
{
    Codec { res_micro: 100_000, max_raw: 0xFFFF }
}

/// Command register of the older pyrometer-simulator signal generator:
/// 0.1 mA per count, 4 to 20 mA, in micro-milliamps.
pub fn pyro_curr_gen_codec() -> (codec: Codec)
    ensures
        codec == (Codec { res_micro: 100_000u32, max_raw: 200u16 }),
        codec.valid(),
{
    Codec { res_micro: 100_000, max_raw: 200 }
}

/// Multimeter voltage channel: 0.01 V per count, in micro-volts.
pub fn n4via02_volts_codec() -> (codec: Codec)
    ensures
        codec == (Codec { res_micro: 10_000u32, max_raw: 0xFFFFu16 }),
        codec.valid(),
{
    Codec { res_micro: 10_000, max_raw: 0xFFFF }
}

/// What the electrode ADC's four-register value block means: channel 1 is
/// a wide voltage at 0.1 mV per count, channel 2 a wide current at
/// 0.1 mA per count.
pub open spec fn spec_ykdaq1402_iv(regs: Seq<u16>) -> (int, int) {
    (
        word_pair_value(regs[0], regs[1]) * 100,
        word_pair_value(regs[2], regs[3]) * 100_000,
    )
}

/// Decode the electrode ADC's value block into micro-volts and
/// micro-milliamps.
pub fn decode_ykdaq1402_iv(regs: &[u16]) -> (reading: (i64, i64))
    requires
        regs@.len() >= 4,
    ensures
        reading.0 == spec_ykdaq1402_iv(regs@).0,
        reading.1 == spec_ykdaq1402_iv(regs@).1,
{
    let volts_codec = ykdaq1402_volts_codec();
    let ma_codec = ykdaq1402_milliamps_codec();
    let micro_volts = volts_codec.decode_pair(regs[0], regs[1]);
    let micro_ma = ma_codec.decode_pair(regs[2], regs[3]);
    (micro_volts, micro_ma)
}

/// Encode a precision-source drive current, in micro-milliamps, as the
/// raw word its drive register takes. Fails with `OutOfRange` beyond the
/// source's 100 mA span.
pub fn encode_ykpvccs0100_drive(micro_ma: u64) -> (result: Result<u16, CodecError>)
    ensures
        match result {
            Ok(raw) => {
                let codec = (Codec { res_micro: 100_000u32, max_raw: 1000u16 });
                raw == codec.rounded_raw(micro_ma as int) && codec.rounded_raw(micro_ma as int)
                    <= codec.max_raw
            },
            Err(e) => {
                let codec = (Codec { res_micro: 100_000u32, max_raw: 1000u16 });
                e == CodecError::OutOfRange && codec.rounded_raw(micro_ma as int) > codec.max_raw
            },
        },
{
    let codec = ykpvccs0100_codec();
    codec.encode(micro_ma)
}

/// Round trip on the precision current source: every demand within its
/// documented 0-100 mA span encodes to a raw count the device accepts,
/// and decoding that count reproduces the demand to within one 0.1 mA
/// count. A demand beyond the span is refused with `OutOfRange` rather
/// than truncated, so no round trip is owed there.
pub proof fn lemma_ykpvccs0100_round_trip(micro_ma: int)
    requires
        0 <= micro_ma <= 100_000_000,
    ensures
        ({
            let codec = (Codec { res_micro: 100_000u32, max_raw: 1000u16 });
            &&& codec.rounded_raw(micro_ma) <= codec.max_raw
            &&& -(codec.res_micro as int) < 2 * (codec.decoded(codec.rounded_raw(micro_ma))
                - micro_ma)
            &&& 2 * (codec.decoded(codec.rounded_raw(micro_ma)) - micro_ma) <= codec.res_micro
        }),
{
    let codec = Codec { res_micro: 100_000, max_raw: 1000 };
    assert(codec.span_micro() == 100_000_000);
    lemma_representable_encodes(codec, micro_ma);
    lemma_encode_decode_round_trip(codec, micro_ma);
}

/// Decode the precision source's monitor register into the current it
/// reports actually flowing, in micro-milliamps.
pub fn decode_ykpvccs0100_monitor(raw: u16) -> (micro_ma: u64)
    ensures
        micro_ma == raw * 100_000,
{
    let codec = ykpvccs0100_codec();
    codec.decode_word(raw)
}

/// Encode a pyrometer-loop drive current, in micro-milliamps, as the raw
/// word the loop source's command register takes. Fails with `OutOfRange`
/// beyond the source's 20 mA span.
pub fn encode_n4ioa01_drive(micro_ma: u64) -> (result: Result<u16, CodecError>)
    ensures
        match result {
            Ok(raw) => {
                let codec = (Codec { res_micro: 10_000u32, max_raw: 2000u16 });
                raw == codec.rounded_raw(micro_ma as int) && codec.rounded_raw(micro_ma as int)
                    <= codec.max_raw
            },
            Err(e) => {
                let codec = (Codec { res_micro: 10_000u32, max_raw: 2000u16 });
                e == CodecError::OutOfRange && codec.rounded_raw(micro_ma as int) > codec.max_raw
            },
        },
{
    let codec = n4ioa01_codec();
    codec.encode(micro_ma)
}

/// Decode the pyrometer-loop ammeter's first current channel into
/// micro-milliamps.
pub fn decode_n4aia04_ch1(raw: u16) -> (micro_ma: u64)
    ensures
        micro_ma == raw * 100_000,
{
    let codec = n4aia04_codec();
    codec.decode_word(raw)
}

/// Decode one multimeter capture: a voltage word at 0.01 V per count and
/// a current word at 1 mA per count, into micro-volts and micro-milliamps.
pub fn decode_n4via02(volt_raw: u16, ma_raw: u16) -> (reading: (u64, u64))
    ensures
        reading.0 == volt_raw * 10_000,
        reading.1 == ma_raw * 1_000_000,
{
    let volts_codec = n4via02_volts_codec();
    let ma_codec = Codec { res_micro: 1_000_000, max_raw: 0xFFFF };
    (volts_codec.decode_word(volt_raw), ma_codec.decode_word(ma_raw))
}

} // verus!
