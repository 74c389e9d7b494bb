//! Device registry: the static table of addressable modules on the bus.
//!
//! Each module is described once, at startup, by a descriptor holding its
//! bus address, the register that reports its identity, where its values
//! live, its codec, and the settle delay the bus needs after talking to it.

use vstd::prelude::*;

use crate::codec::Codec;

verus! {

/// Bus node addresses.
pub const NODEID_BROADCAST_0: u8 = 0x00;
/// The node address most devices ship with.
pub const NODEID_DEFAULT: u8 = 0x01;
pub const NODEID_N4VIA02_IV_ADC: u8 = 0x1A;
pub const NODEID_N4AIA04_IV_ADC: u8 = 0x1E;
pub const NODEID_YKDAQ1402_IV_ADC: u8 = 0x1F;
pub const NODEID_YKPVCCS010_CURR_SRC: u8 = 0x2F;
pub const NODEID_YKKTC1202_DUAL_TK: u8 = 0x3F;
/// 4-20 mA current loop source (signal generator).
pub const NODEID_N4IOA01_CURR_GEN: u8 = 0x4A;
pub const NODEID_PYRO_CURR_GEN: u8 = 0x4F;
pub const NODEID_QUAD_RELAY: u8 = 0x5F;
pub const NODEID_MAX: u8 = 0x7F;

/// Register addresses.
pub const REG_NODEID_YKKTC1202_DUAL_TK: u16 = 0x20;
pub const REG_NODEID_YKDAQ1402_IV_ADC: u16 = 64;
/// Configuration parameter block of the two-channel multimeter.
pub const REG_CFG_N4VIA02: u16 = 0xFA;
pub const REG_NODEID_N4VIA02: u16 = 0xFD;
pub const REG_NODEID_N4AIA04: u16 = 0x0E;
pub const REG_NODEID_YKPVCCS010_CURR_SRC: u16 = 0x00;
/// Causes the precision current source to persist its parameters.
pub const REG_SAVE_CFG_YKPVCCS010_CURR_SRC: u16 = 0x02;
/// Where the 2-channel current/voltage ADC stores its readings.
pub const REG_IV_ADC_2CH_VALS: u16 = 0x00;
pub const REG_N4VIA02_CURR_VALS: u16 = 0x00;
pub const REG_N4VIA02_VOLT_VALS: u16 = 0x20;
pub const REG_NODEID_N4IOA01: u16 = 0x0E;
pub const REG_N4IOA01_CURR_VAL: u16 = 0x00;
/// The dual thermocouple reader's temperature values.
pub const REG_YKKTC1202_TEMP_VALS: u16 = 0x00;
/// The dual thermocouple reader's per-channel connection state.
pub const REG_YKKTC1202_VALIDITY: u16 = 0x10;
pub const REG_N4AIA04_CH1_CURR: u16 = 0x0002;
pub const REG_YKPVCCS010_DRIVE_MILLIAMPS: u16 = 0x10;
pub const REG_YKPVCCS010_MONITOR_MILLIAMPS: u16 = 0x11;

/// The logical modules this controller knows.
#[derive(Clone, Copy, Debug, PartialEq, Eq, Structural)]
pub enum DeviceKind {
    /// Dual type-K thermocouple reader (YK-KTC1202).
    DualTkReader,
    /// 4-20 mA current loop source simulating a pyrometer (N4IOA01).
    PyroLoopSource,
    /// 4-20 mA current loop ammeter verifying the simulated signal (N4AIA04).
    PyroLoopAdc,
    /// Electrode current/voltage ADC (YK-DAQ1402).
    ElectrodeIvAdc,
    /// Precision current source driving the electrode (YK-PVCCS0100).
    PrecisionCurrentSource,
    /// Two-channel current/voltage multimeter (N4VIA02).
    Multimeter,
}

impl DeviceKind {
    /// A short diagnostic name for this module.
    pub fn label(&self) -> &'static str {
        match self {
            DeviceKind::DualTkReader => "dual thermocouple reader",
            DeviceKind::PyroLoopSource => "pyro loop source",
            DeviceKind::PyroLoopAdc => "pyro loop adc",
            DeviceKind::ElectrodeIvAdc => "electrode iv adc",
            DeviceKind::PrecisionCurrentSource => "precision current source",
            DeviceKind::Multimeter => "multimeter",
        }
    }
}

/// One module's place on the bus and how to interpret its registers.
#[derive(Clone, Copy, Debug, PartialEq, Eq, Structural)]
pub struct DeviceDescriptor {
    /// Which module this is.
    pub kind: DeviceKind,
    /// Its bus node address.
    pub slave: u8,
    /// The register that reports the module's own node address.
    pub identity_reg: u16,
    /// First register of the module's value block.
    pub base_reg: u16,
    /// How many registers the value block spans.
    pub reg_count: u16,
    /// How raw counts scale to physical micro-units.
    pub codec: Codec,
    /// Pause the bus needs after an operation on this module, in milliseconds.
    pub settle_millis: u64,
}

/// A usable node address: node addresses run from 1 to 127; 0 is broadcast.
pub open spec fn valid_slave_addr(slave: u8) -> bool {
    1 <= slave <= NODEID_MAX
}

impl DeviceDescriptor {
    /// A descriptor is well formed when its address is usable, its codec is
    /// well formed, and it exposes at least one value register.
    pub open spec fn valid(self) -> bool {
        &&& valid_slave_addr(self.slave)
        &&& self.codec.valid()
        &&& self.reg_count >= 1
    }
}

/// A registry is well formed when every descriptor is, and no two modules
/// claim the same node address.
pub open spec fn registry_valid(devices: Seq<DeviceDescriptor>) -> bool {
    &&& forall|i: int| 0 <= i < devices.len() ==> (#[trigger] devices[i]).valid()
    &&& forall|i: int, j: int|
        0 <= i < j < devices.len() ==> (#[trigger] devices[i]).slave != (#[trigger] devices[j]).slave
}

/// Check a registry once, at startup: true exactly when every descriptor is
/// well formed and node addresses are pairwise distinct.
pub fn validate_registry(devices: &Vec<DeviceDescriptor>) -> (ok: bool)
    ensures
        ok == registry_valid(devices@),
{
    let n = devices.len();
    let mut i: usize = 0;
    while i < n
        invariant
            n == devices@.len(),
            i <= n,
            forall|k: int| 0 <= k < i ==> (#[trigger] devices@[k]).valid(),
            forall|k: int, l: int|
                0 <= k < l < i ==> (#[trigger] devices@[k]).slave != (#[trigger] devices@[l]).slave,
        decreases n - i,
    {
        let d = devices[i];
        if !(1 <= d.slave && d.slave <= NODEID_MAX) {
            return false;
        }
        if !(1 <= d.codec.res_micro && d.codec.res_micro <= crate::codec::MAX_RES_MICRO) {
            return false;
        }
        if d.reg_count < 1 {
            return false;
        }
        let mut j: usize = 0;
        while j < i
            invariant
                n == devices@.len(),
                i < n,
                j <= i,
                d == devices@[i as int],
                forall|k: int| 0 <= k < j ==> (#[trigger] devices@[k]).slave != devices@[i as int].slave,
            decreases i - j,
        {
            if devices[j].slave == d.slave {
                assert(!registry_valid(devices@)) by {
                    assert(devices@[j as int].slave == devices@[i as int].slave);
                }
                return false;
            }
            j += 1;
        }
        i += 1;
    }
    true
}

/// The modules a run requires, in the order enumeration probes them:
/// the thermocouple reader, the pyrometer-loop source, the loop ammeter
/// that verifies it, and the electrode ADC.
pub fn required_modules() -> (devices: Vec<DeviceDescriptor>)
    ensures
        devices@.len() == 4,
        registry_valid(devices@),
        devices@[0] == (DeviceDescriptor {
            kind: DeviceKind::DualTkReader,
            slave: NODEID_YKKTC1202_DUAL_TK,
            identity_reg: REG_NODEID_YKKTC1202_DUAL_TK,
            base_reg: REG_YKKTC1202_TEMP_VALS,
            reg_count: 2u16,
            codec: (Codec { res_micro: 100_000u32, max_raw: 0xFFFFu16 }),
            settle_millis: 125u64,
        }),
        devices@[1] == (DeviceDescriptor {
            kind: DeviceKind::PyroLoopSource,
            slave: NODEID_N4IOA01_CURR_GEN,
            identity_reg: REG_NODEID_N4IOA01,
            base_reg: REG_N4IOA01_CURR_VAL,
            reg_count: 1u16,
            codec: (Codec { res_micro: 10_000u32, max_raw: 2000u16 }),
            settle_millis: 125u64,
        }),
        devices@[2] == (DeviceDescriptor {
            kind: DeviceKind::PyroLoopAdc,
            slave: NODEID_N4AIA04_IV_ADC,
            identity_reg: REG_NODEID_N4AIA04,
            base_reg: REG_N4AIA04_CH1_CURR,
            reg_count: 2u16,
            codec: (Codec { res_micro: 100_000u32, max_raw: 0xFFFFu16 }),
            settle_millis: 125u64,
        }),
        devices@[3] == (DeviceDescriptor {
            kind: DeviceKind::ElectrodeIvAdc,
            slave: NODEID_YKDAQ1402_IV_ADC,
            identity_reg: REG_NODEID_YKDAQ1402_IV_ADC,
            base_reg: REG_IV_ADC_2CH_VALS,
            reg_count: 4u16,
            codec: (Codec { res_micro: 100u32, max_raw: 0xFFFFu16 }),
            settle_millis: 125u64,
        }),
{
    let mut devices: Vec<DeviceDescriptor> = Vec::new();
    devices.push(
        DeviceDescriptor {
            kind: DeviceKind::DualTkReader,
            slave: NODEID_YKKTC1202_DUAL_TK,
            identity_reg: REG_NODEID_YKKTC1202_DUAL_TK,
            base_reg: REG_YKKTC1202_TEMP_VALS,
            reg_count: 2,
            codec: Codec { res_micro: 100_000, max_raw: 0xFFFF },
            settle_millis: 125,
        },
    );
    devices.push(
        DeviceDescriptor {
            kind: DeviceKind::PyroLoopSource,
            slave: NODEID_N4IOA01_CURR_GEN,
            identity_reg: REG_NODEID_N4IOA01,
            base_reg: REG_N4IOA01_CURR_VAL,
            reg_count: 1,
            codec: Codec { res_micro: 10_000, max_raw: 2000 },
            settle_millis: 125,
        },
    );
    devices.push(
        DeviceDescriptor {
            kind: DeviceKind::PyroLoopAdc,
            slave: NODEID_N4AIA04_IV_ADC,
            identity_reg: REG_NODEID_N4AIA04,
            base_reg: REG_N4AIA04_CH1_CURR,
            reg_count: 2,
            codec: Codec { res_micro: 100_000, max_raw: 0xFFFF },
            settle_millis: 125,
        },
    );
    devices.push(
        DeviceDescriptor {
            kind: DeviceKind::ElectrodeIvAdc,
            slave: NODEID_YKDAQ1402_IV_ADC,
            identity_reg: REG_NODEID_YKDAQ1402_IV_ADC,
            base_reg: REG_IV_ADC_2CH_VALS,
            reg_count: 4,
            codec: Codec { res_micro: 100, max_raw: 0xFFFF },
            settle_millis: 125,
        },
    );
    devices
}

} // verus!
