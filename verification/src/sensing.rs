//! Sensor-side interpretation: per-channel validity, the spurious-fault
//! override, dual-channel combination, and the pyrometer transfer function.

use vstd::prelude::*;

use crate::codec::Codec;
use crate::errors::ValueError;

verus! {

/// Resolution of the dual thermocouple reader: 0.1 degrees Celsius per
/// count, in micro-degrees.
pub const TK_RES_MICRO: u32 = 100_000;

/// Plausibility ceiling for a thermocouple channel, in micro-degrees
/// (1000.0 degrees Celsius). The reader sometimes raises its
/// disconnected flag while still reporting a plausible temperature; a
/// flagged channel whose decoded value stays below this ceiling is
/// treated as connected anyway. This override is deliberate policy for
/// that device, not a workaround to be removed.
pub const TK_PLAUSIBILITY_CEILING_MICRO: u64 = 1_000_000_000;

/// Fail-safe combined reading when no channel is valid, in micro-degrees
/// (1000.0 degrees Celsius): no signal from this sensor class means
/// "assume worst case", never "assume nominal".
pub const FAILSAFE_TEMP_MICRO: u64 = 1_000_000_000;

/// The codec of the dual thermocouple reader.
pub fn tk_codec() -> (codec: Codec)
    ensures
        codec == (Codec { res_micro: TK_RES_MICRO, max_raw: 0xFFFF }),
        codec.valid(),
{
    Codec { res_micro: TK_RES_MICRO, max_raw: 0xFFFF }
}

/// What one thermocouple channel means: its flag word (zero means
/// connected, nonzero means disconnected) and raw temperature decode to
/// `Some(micro_degrees)` when the channel counts as connected — because
/// the flag says so, or because the override keeps a plausible reading.
pub open spec fn spec_tk_channel(flag: u16, raw: u16) -> Option<u64> {
    let micro = ((raw as int) * (TK_RES_MICRO as int)) as u64;
    if flag == 0 || micro < TK_PLAUSIBILITY_CEILING_MICRO {
        Some(micro)
    } else {
        None
    }
}

/// Decode one thermocouple channel from its flag and raw temperature words.
pub fn decode_tk_channel(flag: u16, raw: u16) -> (reading: Option<u64>)
    ensures
        reading == spec_tk_channel(flag, raw),
{
    let codec = tk_codec();
    let micro = codec.decode_word(raw);
    if flag == 0 || micro < TK_PLAUSIBILITY_CEILING_MICRO {
        Some(micro)
    } else {
        None
    }
}

/// One capture of both thermocouple channels, each either a connected
/// reading in micro-degrees or absent.
#[derive(Clone, Copy, Debug, PartialEq, Eq, Structural)]
pub struct DualReading {
    pub ch1: Option<u64>,
    pub ch2: Option<u64>,
}

impl DualReading {
    /// Channel values a decode can produce never exceed what sixteen raw
    /// bits can denote at the reader's resolution.
    pub open spec fn wf(self) -> bool {
        &&& (self.ch1 matches Some(v) ==> v <= 0xFFFF * TK_RES_MICRO)
        &&& (self.ch2 matches Some(v) ==> v <= 0xFFFF * TK_RES_MICRO)
    }
}

/// Decode both channels of the dual thermocouple reader from its validity
/// block and its temperature block, channel 1 first in each.
pub fn decode_dual_tk(flags: &[u16], temps: &[u16]) -> (reading: DualReading)
    requires
        flags@.len() >= 2,
        temps@.len() >= 2,
    ensures
        reading.ch1 == spec_tk_channel(flags@[0], temps@[0]),
        reading.ch2 == spec_tk_channel(flags@[1], temps@[1]),
        reading.wf(),
{
    DualReading {
        ch1: decode_tk_channel(flags[0], temps[0]),
        ch2: decode_tk_channel(flags[1], temps[1]),
    }
}

/// How two channels combine into one reading: both valid gives their mean,
/// one valid gives that one, none valid gives the fail-safe ceiling.
pub open spec fn spec_combine(reading: DualReading) -> u64 {
    match (reading.ch1, reading.ch2) {
        (Some(a), Some(b)) => (((a + b) / 2) as u64),
        (Some(a), None) => a,
        (None, Some(b)) => b,
        (None, None) => FAILSAFE_TEMP_MICRO,
    }
}

/// Combine both thermocouple channels into the working temperature.
pub fn combine_dual_reading(reading: DualReading) -> (combined: u64)
    requires
        reading.wf(),
    ensures
        combined == spec_combine(reading),
{
    match (reading.ch1, reading.ch2) {
        (Some(a), Some(b)) => (a + b) / 2,
        (Some(a), None) => a,
        (None, Some(b)) => b,
        (None, None) => FAILSAFE_TEMP_MICRO,
    }
}

/// Hold a decoded reading against a device's plausibility ceiling:
/// readings up to the ceiling pass unchanged, anything beyond it is an
/// implausible value the caller must not act on.
pub fn check_plausible(micro: u64, ceiling_micro: u64) -> (result: Result<u64, ValueError>)
    ensures
        match result {
            Ok(v) => micro <= ceiling_micro && v == micro,
            Err(e) => micro > ceiling_micro && e == (ValueError {
                observed_micro: micro,
                ceiling_micro,
            }),
        },
{
    if micro <= ceiling_micro {
        Ok(micro)
    } else {
        Err(ValueError { observed_micro: micro, ceiling_micro })
    }
}

/// Lower end of the pyrometer simulator's output domain, in micro-milliamps
/// (4 mA).
pub const PYRO_MIN_MICRO_MA: u64 = 4_000_000;

/// Upper end of the pyrometer simulator's output domain, in micro-milliamps
/// (20 mA).
pub const PYRO_MAX_MICRO_MA: u64 = 20_000_000;

/// Upper end of the temperature domain the transfer function maps, in
/// micro-degrees (1000 degrees Celsius).
pub const PYRO_TEMP_SPAN_MICRO: u64 = 1_000_000_000;

/// The fixed linear transfer function from working temperature to loop
/// current: 0 to 1000 degrees Celsius maps onto 4 to 20 mA, clamped at
/// both ends of the temperature domain. The slope is 16 mA per 1000
/// degrees; in fixed point, 16 micro-milliamps per 1000 micro-degrees.
pub open spec fn spec_pyro_target(temp_micro: u64) -> u64 {
    if temp_micro >= PYRO_TEMP_SPAN_MICRO {
        PYRO_MAX_MICRO_MA
    } else {
        ((PYRO_MIN_MICRO_MA + 16 * temp_micro / 1000) as u64)
    }
}

/// Map the working temperature onto the pyrometer loop's 4-20 mA domain.
pub fn pyro_target_micro_ma(temp_micro: u64) -> (target: u64)
    ensures
        target == spec_pyro_target(temp_micro),
        PYRO_MIN_MICRO_MA <= target <= PYRO_MAX_MICRO_MA,
{
    if temp_micro >= PYRO_TEMP_SPAN_MICRO {
        PYRO_MAX_MICRO_MA
    } else {
        PYRO_MIN_MICRO_MA + 16 * temp_micro / 1000
    }
}

} // verus!
