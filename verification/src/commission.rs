//! Commissioning decisions: assigning a device its bus node address.
//!
//! Most modules ship answering the factory-default address; before a bus
//! can carry several of them, each must be moved to its assigned address
//! once. The reads, writes and reconnects run in unverified glue; the
//! decisions — whether the device may be reprogrammed, whether the new
//! address took, whether it must be flushed to persistent storage — are
//! made here.

use vstd::prelude::*;

use crate::registry::{NODEID_QUAD_RELAY, NODEID_YKPVCCS010_CURR_SRC};

verus! {

/// What the identity read before reprogramming allows.
#[derive(Clone, Copy, Debug, PartialEq, Eq, Structural)]
pub enum NodeIdCheck {
    /// The device answers under the old address: write the new one.
    WriteNew,
    /// The device already answers under the new address: nothing to write.
    AlreadyNew,
    /// The device reports some third address: reprogramming it would be
    /// writing to an unverified device, which is refused.
    Conflict { observed: u8 },
}

/// The identity a device reported, as the low byte of its identity register.
pub fn reported_node_id(raw: u16) -> (id: u8)
    ensures
        id == crate::enumeration::reported_identity(raw),
{
    proof {
        assert(raw & 0xFF <= 0xFF) by (bit_vector);
    }
    (raw & 0xFF) as u8
}

/// Classify the identity word read from a device about to be moved from
/// `old_id` to `new_id`. A device that already reports the new address
/// needs no write — also when the old and new addresses coincide, where
/// re-issuing the write would be a pointless bus operation.
pub fn classify_existing_node_id(raw: u16, old_id: u8, new_id: u8) -> (check: NodeIdCheck)
    ensures
        check == {
            let observed = crate::enumeration::reported_identity(raw);
            if observed == new_id {
                NodeIdCheck::AlreadyNew
            } else if observed == old_id {
                NodeIdCheck::WriteNew
            } else {
                NodeIdCheck::Conflict { observed }
            }
        },
{
    let observed = reported_node_id(raw);
    if observed == new_id {
        NodeIdCheck::AlreadyNew
    } else if observed == old_id {
        NodeIdCheck::WriteNew
    } else {
        NodeIdCheck::Conflict { observed }
    }
}

/// After reconnecting under the new address, did the device take it?
pub fn new_node_id_took(raw: u16, new_id: u8) -> (took: bool)
    ensures
        took == (crate::enumeration::reported_identity(raw) == new_id),
{
    reported_node_id(raw) == new_id
}

/// The quad relay board takes its node address only through a
/// multiple-register write; every other module takes a single-register one.
pub fn needs_multiple_register_write(new_id: u8) -> (multiple: bool)
    ensures
        multiple == (new_id == NODEID_QUAD_RELAY),
{
    new_id == NODEID_QUAD_RELAY
}

/// The precision current source forgets an address change unless its
/// save-configuration register is written afterwards.
pub fn needs_persist_flush(new_id: u8) -> (flush: bool)
    ensures
        flush == (new_id == NODEID_YKPVCCS010_CURR_SRC),
{
    new_id == NODEID_YKPVCCS010_CURR_SRC
}

/// Input-mode word selecting the 0-10 V voltage range on one channel of
/// the eight-channel mixed ADC.
pub const WA8TAI_MODE_VOLTS_10V: u16 = 0x0000;

/// Input-mode word selecting the 4-20 mA current range on one channel of
/// the eight-channel mixed ADC.
pub const WA8TAI_MODE_AMPS_0420: u16 = 0x0003;

/// First input-mode register of the eight-channel mixed ADC.
pub const WA8TAI_FIRST_MODE_REG: u16 = 0x1000;

/// The register writes that put the eight-channel mixed ADC into its
/// mixed layout: even channels read voltage, odd channels read current.
pub fn wa8tai_mixed_mode_plan() -> (plan: Vec<(u16, u16)>)
    ensures
        plan@.len() == 8,
        forall|i: int|
            0 <= i < 8 ==> (#[trigger] plan@[i]).0 == WA8TAI_FIRST_MODE_REG + i,
        forall|i: int|
            0 <= i < 8 ==> (#[trigger] plan@[i]).1 == if i % 2 == 0 {
                WA8TAI_MODE_VOLTS_10V
            } else {
                WA8TAI_MODE_AMPS_0420
            },
{
    let mut plan: Vec<(u16, u16)> = Vec::new();
    let mut ch: u16 = 0;
    while ch < 8
        invariant
            ch <= 8,
            plan@.len() == ch,
            forall|i: int|
                0 <= i < ch ==> (#[trigger] plan@[i]).0 == WA8TAI_FIRST_MODE_REG + i,
            forall|i: int|
                0 <= i < ch ==> (#[trigger] plan@[i]).1 == if i % 2 == 0 {
                    WA8TAI_MODE_VOLTS_10V
                } else {
                    WA8TAI_MODE_AMPS_0420
                },
        decreases 8 - ch,
    {
        let mode = if ch % 2 == 0 {
            WA8TAI_MODE_VOLTS_10V
        } else {
            WA8TAI_MODE_AMPS_0420
        };
        plan.push((WA8TAI_FIRST_MODE_REG + ch, mode));
        ch += 1;
    }
    plan
}

} // verus!
