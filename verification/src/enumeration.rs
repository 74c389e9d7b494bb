//! Startup enumeration: confirm that every required module is present and
//! answers under its expected node address before any control traffic runs.
//!
//! Each module's identity register is read and compared with the address
//! the registry expects. Any mismatch is fatal for the run: an actuator
//! command sent to a misidentified device is a physical-safety hazard, so
//! on the first mismatch no further device is probed and the caller gets a
//! typed error naming the device and both identities.

use vstd::prelude::*;

use crate::registry::{DeviceDescriptor, DeviceKind};

verus! {

/// A module reported an identity other than the one the registry expects.
#[derive(Clone, Copy, Debug, PartialEq, Eq, Structural)]
pub struct TopologyError {
    /// The mismatching device.
    pub device: DeviceKind,
    /// The node address the registry expects the device to report.
    pub expected: u8,
    /// The node address the device reported.
    pub observed: u8,
}

/// The identity a device reported, as the low byte of its identity register.
pub open spec fn reported_identity(raw: u16) -> u8 {
    (raw & 0xFF) as u8
}

/// Whether the device at `index` matches its expected identity under the
/// observation `raw`.
pub open spec fn identity_matches(devices: Seq<DeviceDescriptor>, index: int, raw: u16) -> bool {
    reported_identity(raw) == devices[index].slave
}

/// The error a mismatch at `index` produces.
pub open spec fn mismatch_error(devices: Seq<DeviceDescriptor>, index: int, raw: u16)
    -> TopologyError {
    TopologyError {
        device: devices[index].kind,
        expected: devices[index].slave,
        observed: reported_identity(raw),
    }
}

/// The step-by-step health check. The unverified glue asks which device to
/// probe next, performs the one read, and hands the observation back; after
/// a mismatch the check asks for no further probe.
pub struct EnumerationCheck {
    /// The required devices, probed in registry order.
    pub devices: Vec<DeviceDescriptor>,
    /// How many devices matched so far.
    pub next: usize,
    /// Set by the first mismatch; no probe is requested once set.
    pub failed: bool,
}

impl EnumerationCheck {
    pub open spec fn wf(self) -> bool {
        self.next <= self.devices@.len()
    }

    /// All required devices matched their identity.
    pub open spec fn complete(self) -> bool {
        !self.failed && self.next == self.devices@.len()
    }

    /// Begin a check over the required devices.
    pub fn new(devices: Vec<DeviceDescriptor>) -> (check: EnumerationCheck)
        ensures
            check.devices == devices,
            check.next == 0,
            !check.failed,
            check.wf(),
    {
        EnumerationCheck { devices, next: 0, failed: false }
    }

    /// The next device to probe: its node address and identity register.
    /// No probe is requested after a mismatch or once every device matched.
    pub fn next_probe(&self) -> (probe: Option<(u8, u16)>)
        requires
            self.wf(),
        ensures
            match probe {
                Some(p) => !self.failed && self.next < self.devices@.len() && p.0
                    == self.devices@[self.next as int].slave && p.1
                    == self.devices@[self.next as int].identity_reg,
                None => self.failed || self.next == self.devices@.len(),
            },
    {
        if self.failed || self.next >= self.devices.len() {
            None
        } else {
            let d = self.devices[self.next];
            Some((d.slave, d.identity_reg))
        }
    }

    /// Record the identity word read from the device last asked for.
    /// A match moves the check on; a mismatch fails it for good and
    /// reports the device with both identities.
    pub fn record_identity(&mut self, raw: u16) -> (result: Result<(), TopologyError>)
        requires
            old(self).wf(),
            !old(self).failed,
            old(self).next < old(self).devices@.len(),
        ensures
            final(self).devices == old(self).devices,
            final(self).wf(),
            match result {
                Ok(()) => identity_matches(old(self).devices@, old(self).next as int, raw)
                    && !final(self).failed && final(self).next == old(self).next + 1,
                Err(e) => !identity_matches(old(self).devices@, old(self).next as int, raw) && e
                    == mismatch_error(old(self).devices@, old(self).next as int, raw)
                    && final(self).failed && final(self).next == old(self).next,
            },
    {
        let d = self.devices[self.next];
        proof {
            assert(raw & 0xFF <= 0xFF) by (bit_vector);
        }
        let observed = (raw & 0xFF) as u8;
        if observed == d.slave {
            assert(self.next < self.devices.len());
            self.next += 1;
            Ok(())
        } else {
            self.failed = true;
            Err(TopologyError { device: d.kind, expected: d.slave, observed })
        }
    }
}

/// Index of the first device whose observation mismatches, or the length
/// of the run when every observed device matches.
pub open spec fn first_mismatch(devices: Seq<DeviceDescriptor>, observed: Seq<u16>, from: int)
    -> int
    decreases observed.len() - from,
{
    if from >= observed.len() || from >= devices.len() {
        from
    } else if !identity_matches(devices, from, observed[from]) {
        from
    } else {
        first_mismatch(devices, observed, from + 1)
    }
}

/// Check a whole run of identity observations, one per required device, in
/// registry order: succeeds exactly when every device matched, and
/// otherwise reports the first mismatching device with both identities.
pub fn enumeration_outcome(devices: &Vec<DeviceDescriptor>, observed: &Vec<u16>) -> (result: Result<
    (),
    TopologyError,
>)
    requires
        observed@.len() == devices@.len(),
    ensures
        match result {
            Ok(()) => forall|i: int|
                0 <= i < devices@.len() ==> identity_matches(devices@, i, #[trigger] observed@[i]),
            Err(e) => {
                let m = first_mismatch(devices@, observed@, 0);
                &&& m < devices@.len()
                &&& !identity_matches(devices@, m, observed@[m])
                &&& forall|i: int|
                    0 <= i < m ==> identity_matches(devices@, i, #[trigger] observed@[i])
                &&& e == mismatch_error(devices@, m, observed@[m])
            },
        },
{
    let ghost gdevices = devices@;
    let ghost gobserved = observed@;
    let n = devices.len();
    let mut i: usize = 0;
    while i < n
        invariant
            gdevices == devices@,
            gobserved == observed@,
            n == devices@.len(),
            observed@.len() == devices@.len(),
            i <= n,
            forall|k: int| 0 <= k < i ==> identity_matches(devices@, k, #[trigger] observed@[k]),
        decreases n - i,
    {
        let d = devices[i];
        let raw = observed[i];
        proof {
            assert(raw & 0xFF <= 0xFF) by (bit_vector);
        }
        let reported = (raw & 0xFF) as u8;
        if reported != d.slave {
            proof {
                lemma_first_mismatch_stops(devices@, observed@, 0, i as int);
            }
            return Err(TopologyError { device: d.kind, expected: d.slave, observed: reported });
        }
        i += 1;
    }
    Ok(())
}

/// If every device before `stop` matches and `stop` mismatches, the first
/// mismatch from `from` is `stop`.
proof fn lemma_first_mismatch_stops(
    devices: Seq<DeviceDescriptor>,
    observed: Seq<u16>,
    from: int,
    stop: int,
)
    requires
        observed.len() == devices.len(),
        0 <= from <= stop < devices.len(),
        forall|k: int| from <= k < stop ==> identity_matches(devices, k, #[trigger] observed[k]),
        !identity_matches(devices, stop, observed[stop]),
    ensures
        first_mismatch(devices, observed, from) == stop,
    decreases stop - from,
{
    if from < stop {
        lemma_first_mismatch_stops(devices, observed, from + 1, stop);
    }
}

} // verus!
