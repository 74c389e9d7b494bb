//! The cyclic control-loop state machine.
//!
//! Each running cycle reads the dual thermocouple, combines the channels,
//! derives the pyrometer-loop target through the fixed transfer function,
//! applies it under hysteresis, and records one fixed-schema log row. An
//! operator interrupt is consulted once at the top of each cycle; on
//! observing it the loop drives every registered actuator to its safe
//! value, in fixed order and regardless of individual write failures,
//! before the transport disconnects.

use vstd::arithmetic::div_mod::lemma_div_is_ordered;
use vstd::prelude::*;

use crate::codec::Codec;
use crate::registry::{valid_slave_addr, DeviceKind};
use crate::sensing::{
    combine_dual_reading, pyro_target_micro_ma, spec_combine, spec_pyro_target, DualReading,
    PYRO_MAX_MICRO_MA,
};
use crate::setpoint::Setpoint;

verus! {

/// Where the loop stands in its life.
#[derive(Clone, Copy, Debug, PartialEq, Eq, Structural)]
pub enum Phase {
    /// Created, not yet cycling.
    Init,
    /// Cycling normally.
    Running,
    /// Cancellation observed; driving actuators to their safe values.
    ShuttingDown,
    /// Safe values issued and transport released. Terminal.
    Terminated,
}

/// One controllable actuator the shutdown sequence must reach.
#[derive(Clone, Copy, Debug, PartialEq, Eq, Structural)]
pub struct ActuatorChannel {
    /// Which module this drives.
    pub device: DeviceKind,
    /// Its bus node address.
    pub slave: u8,
    /// The register its command value is written to.
    pub command_reg: u16,
    /// How physical values scale for this actuator.
    pub codec: Codec,
    /// The documented safe raw value, written once during shutdown.
    pub safe_raw: u16,
}

impl ActuatorChannel {
    pub open spec fn valid(self) -> bool {
        valid_slave_addr(self.slave) && self.codec.valid()
    }
}

/// One step of the fail-safe shutdown sequence.
#[derive(Clone, Copy, Debug, PartialEq, Eq, Structural)]
pub enum ShutdownAction {
    /// Write this actuator's documented safe value.
    SafeWrite { device: DeviceKind, slave: u8, reg: u16, raw: u16 },
    /// All actuators safed: release the transport. The loop is over.
    Disconnect,
}

/// The safe-value write owed to one actuator.
pub open spec fn safe_write_of(actuator: ActuatorChannel) -> ShutdownAction {
    ShutdownAction::SafeWrite {
        device: actuator.device,
        slave: actuator.slave,
        reg: actuator.command_reg,
        raw: actuator.safe_raw,
    }
}

/// The remaining shutdown actions when actuators from `from` on are still
/// owed their safe write: one write each, in order, then the disconnect.
pub open spec fn shutdown_trace(actuators: Seq<ActuatorChannel>, from: int) -> Seq<ShutdownAction>
    decreases actuators.len() - from,
{
    if from >= actuators.len() {
        seq![ShutdownAction::Disconnect]
    } else {
        seq![safe_write_of(actuators[from])] + shutdown_trace(actuators, from + 1)
    }
}

/// What one cycle decided.
#[derive(Clone, Copy, Debug, PartialEq, Eq, Structural)]
pub struct CycleDecision {
    /// The combined working temperature, in micro-degrees.
    pub combined_micro: u64,
    /// The transfer function's output, in micro-milliamps.
    pub target_micro: u64,
    /// The raw command actually to be written this cycle, if the target
    /// moved at least epsilon since the last applied value.
    pub write_raw: Option<u16>,
}

/// A fixed or ramped test demand for an independent second actuator:
/// each cycle it yields the current demand, then steps it, wrapping back
/// to `reset_micro` once it would pass `max_micro`.
#[derive(Clone, Copy, Debug, PartialEq, Eq, Structural)]
pub struct RampPattern {
    /// The demand the next cycle will use, in micro-units.
    pub current_micro: u64,
    /// How far each cycle moves the demand.
    pub step_micro: u64,
    /// Largest demand the pattern may reach.
    pub max_micro: u64,
    /// Where the pattern restarts after passing its maximum.
    pub reset_micro: u64,
}

impl RampPattern {
    /// The pattern never holds a demand beyond its maximum, and stepping
    /// from the maximum stays within machine range.
    pub open spec fn wf(self) -> bool {
        &&& self.current_micro <= self.max_micro
        &&& self.reset_micro <= self.max_micro
        &&& self.max_micro + self.step_micro <= u64::MAX
    }

    /// Yield this cycle's demand and advance the pattern.
    pub fn advance(&mut self) -> (demand: u64)
        requires
            old(self).wf(),
        ensures
            demand == old(self).current_micro,
            final(self).wf(),
            final(self).step_micro == old(self).step_micro,
            final(self).max_micro == old(self).max_micro,
            final(self).reset_micro == old(self).reset_micro,
            final(self).current_micro == if old(self).current_micro + old(self).step_micro > old(
                self,
            ).max_micro {
                old(self).reset_micro
            } else {
                (old(self).current_micro + old(self).step_micro) as u64
            },
    {
        let demand = self.current_micro;
        let stepped = self.current_micro + self.step_micro;
        self.current_micro = if stepped > self.max_micro {
            self.reset_micro
        } else {
            stepped
        };
        demand
    }
}

/// The control loop's whole state between cycles.
pub struct ControlEngine {
    /// Where the loop stands.
    pub phase: Phase,
    /// Every controllable actuator the shutdown sequence must reach.
    pub actuators: Vec<ActuatorChannel>,
    /// The first actuator still owed its safe write while shutting down.
    pub shutdown_next: usize,
    /// Hysteresis state of the pyrometer-loop drive.
    pub pyro_setpoint: Setpoint,
    /// Codec of the pyrometer-loop drive register.
    pub pyro_codec: Codec,
}

impl ControlEngine {
    pub open spec fn wf(self) -> bool {
        &&& forall|i: int|
            0 <= i < self.actuators@.len() ==> (#[trigger] self.actuators@[i]).valid()
        &&& self.pyro_codec.valid()
        &&& self.pyro_codec.rounded_raw(PYRO_MAX_MICRO_MA as int) <= self.pyro_codec.max_raw
        &&& self.shutdown_next <= self.actuators@.len()
    }

    /// Build an engine over the given actuators, with the pyrometer drive
    /// scaled by `pyro_codec` and re-written only on changes of at least
    /// `epsilon_micro`. Yields nothing when an actuator address or codec
    /// is unusable, or when the codec cannot represent the top of the
    /// transfer function's output domain.
    pub fn new(actuators: Vec<ActuatorChannel>, pyro_codec: Codec, epsilon_micro: u64) -> (engine:
        Option<ControlEngine>)
        ensures
            match engine {
                Some(e) => {
                    &&& e.wf()
                    &&& e.phase == Phase::Init
                    &&& e.actuators == actuators
                    &&& e.shutdown_next == 0
                    &&& e.pyro_setpoint == (Setpoint {
                        epsilon_micro,
                        last_applied_micro: None::<u64>,
                    })
                    &&& e.pyro_codec == pyro_codec
                },
                None => !(forall|i: int|
                    0 <= i < actuators@.len() ==> (#[trigger] actuators@[i]).valid())
                    || !pyro_codec.valid() || pyro_codec.rounded_raw(PYRO_MAX_MICRO_MA as int)
                    > pyro_codec.max_raw,
            },
    {
        if !(1 <= pyro_codec.res_micro && pyro_codec.res_micro <= crate::codec::MAX_RES_MICRO) {
            return None;
        }
        let top_raw = (PYRO_MAX_MICRO_MA + (pyro_codec.res_micro / 2) as u64)
            / pyro_codec.res_micro as u64;
        if top_raw > pyro_codec.max_raw as u64 {
            return None;
        }
        let n = actuators.len();
        let mut i: usize = 0;
        while i < n
            invariant
                n == actuators@.len(),
                i <= n,
                forall|k: int| 0 <= k < i ==> (#[trigger] actuators@[k]).valid(),
            decreases n - i,
        {
            let a = actuators[i];
            if !(1 <= a.slave && a.slave <= crate::registry::NODEID_MAX) {
                return None;
            }
            if !(1 <= a.codec.res_micro && a.codec.res_micro <= crate::codec::MAX_RES_MICRO) {
                return None;
            }
            i += 1;
        }
        Some(
            ControlEngine {
                phase: Phase::Init,
                actuators,
                shutdown_next: 0,
                pyro_setpoint: Setpoint { epsilon_micro, last_applied_micro: None },
                pyro_codec,
            },
        )
    }

    /// Enumeration passed: enter the running phase.
    pub fn start(&mut self)
        requires
            old(self).phase == Phase::Init,
        ensures
            final(self).phase == Phase::Running,
            final(self).actuators == old(self).actuators,
            final(self).shutdown_next == old(self).shutdown_next,
            final(self).pyro_setpoint == old(self).pyro_setpoint,
            final(self).pyro_codec == old(self).pyro_codec,
    {
        self.phase = Phase::Running;
    }

    /// Consult the cancellation flag once, at the top of a cycle. The
    /// cycle runs exactly when no cancellation was observed; otherwise the
    /// loop enters shutdown with every actuator still owed its safe write.
    pub fn begin_cycle(&mut self, cancelled: bool) -> (run: bool)
        requires
            old(self).phase == Phase::Running,
        ensures
            run == !cancelled,
            final(self).actuators == old(self).actuators,
            final(self).pyro_setpoint == old(self).pyro_setpoint,
            final(self).pyro_codec == old(self).pyro_codec,
            !cancelled ==> final(self).phase == Phase::Running && final(self).shutdown_next == old(
                self,
            ).shutdown_next,
            cancelled ==> final(self).phase == Phase::ShuttingDown && final(self).shutdown_next
                == 0,
    {
        if cancelled {
            self.phase = Phase::ShuttingDown;
            self.shutdown_next = 0;
            false
        } else {
            true
        }
    }

    /// Decide one running cycle from this capture of the thermocouple
    /// channels: combine them, map the result through the transfer
    /// function, and issue a write exactly when the target moved at least
    /// epsilon from the last applied value.
    pub fn plan_cycle(&mut self, reading: DualReading) -> (decision: CycleDecision)
        requires
            old(self).wf(),
            old(self).phase == Phase::Running,
            reading.wf(),
        ensures
            final(self).wf(),
            final(self).phase == Phase::Running,
            final(self).actuators == old(self).actuators,
            final(self).shutdown_next == old(self).shutdown_next,
            final(self).pyro_codec == old(self).pyro_codec,
            decision.combined_micro == spec_combine(reading),
            decision.target_micro == spec_pyro_target(spec_combine(reading)),
            final(self).pyro_setpoint == old(self).pyro_setpoint.after(decision.target_micro),
            decision.write_raw == if old(self).pyro_setpoint.should_write(decision.target_micro) {
                Some((old(self).pyro_codec.rounded_raw(decision.target_micro as int) as u16))
            } else {
                None::<u16>
            },
    {
        let combined = combine_dual_reading(reading);
        let target = pyro_target_micro_ma(combined);
        let write = self.pyro_setpoint.offer(target);
        let write_raw = if write {
            proof {
                lemma_div_is_ordered(
                    target as int + (self.pyro_codec.res_micro / 2) as int,
                    PYRO_MAX_MICRO_MA as int + (self.pyro_codec.res_micro / 2) as int,
                    self.pyro_codec.res_micro as int,
                );
            }
            match self.pyro_codec.encode(target) {
                Ok(raw) => Some(raw),
                Err(_) => None,
            }
        } else {
            None
        };
        CycleDecision { combined_micro: combined, target_micro: target, write_raw }
    }

    /// The next shutdown step: while actuators remain, the safe write owed
    /// to the next one in registration order — whatever became of earlier
    /// writes — and, once every actuator was reached, the disconnect,
    /// which ends the loop.
    pub fn next_shutdown_action(&mut self) -> (action: ShutdownAction)
        requires
            old(self).wf(),
            old(self).phase == Phase::ShuttingDown,
        ensures
            final(self).wf(),
            final(self).actuators == old(self).actuators,
            final(self).pyro_setpoint == old(self).pyro_setpoint,
            final(self).pyro_codec == old(self).pyro_codec,
            action == shutdown_trace(old(self).actuators@, old(self).shutdown_next as int)[0],
            old(self).shutdown_next < old(self).actuators@.len() ==> {
                &&& action == safe_write_of(old(self).actuators@[old(self).shutdown_next as int])
                &&& final(self).phase == Phase::ShuttingDown
                &&& final(self).shutdown_next == old(self).shutdown_next + 1
            },
            old(self).shutdown_next == old(self).actuators@.len() ==> {
                &&& action == ShutdownAction::Disconnect
                &&& final(self).phase == Phase::Terminated
                &&& final(self).shutdown_next == old(self).shutdown_next
            },
    {
        if self.shutdown_next < self.actuators.len() {
            let a = self.actuators[self.shutdown_next];
            self.shutdown_next += 1;
            ShutdownAction::SafeWrite {
                device: a.device,
                slave: a.slave,
                reg: a.command_reg,
                raw: a.safe_raw,
            }
        } else {
            self.phase = Phase::Terminated;
            ShutdownAction::Disconnect
        }
    }
}

/// Fail-safe shutdown is complete: from the moment cancellation is
/// observed, the actions the loop issues are exactly one safe-value write
/// per registered actuator, in registration order, followed by the
/// disconnect — and nothing in the sequence depends on whether any of
/// those writes succeeds.
pub proof fn lemma_shutdown_trace_complete(actuators: Seq<ActuatorChannel>)
    ensures
        shutdown_trace(actuators, 0).len() == actuators.len() + 1,
        forall|i: int|
            0 <= i < actuators.len() ==> shutdown_trace(actuators, 0)[i] == safe_write_of(
                actuators[i],
            ),
        shutdown_trace(actuators, 0)[actuators.len() as int] == ShutdownAction::Disconnect,
{
    lemma_shutdown_trace_from(actuators, 0);
}

/// The shape of the remaining trace from any position.
proof fn lemma_shutdown_trace_from(actuators: Seq<ActuatorChannel>, from: int)
    requires
        0 <= from <= actuators.len(),
    ensures
        shutdown_trace(actuators, from).len() == actuators.len() - from + 1,
        forall|i: int|
            0 <= i < actuators.len() - from ==> shutdown_trace(actuators, from)[i]
                == safe_write_of(actuators[from + i]),
        shutdown_trace(actuators, from)[actuators.len() - from] == ShutdownAction::Disconnect,
    decreases actuators.len() - from,
{
    if from < actuators.len() {
        lemma_shutdown_trace_from(actuators, from + 1);
        let tail = shutdown_trace(actuators, from + 1);
        let whole = shutdown_trace(actuators, from);
        assert(whole == seq![safe_write_of(actuators[from])] + tail);
        assert forall|i: int| 0 <= i < actuators.len() - from implies whole[i] == safe_write_of(
            actuators[from + i],
        ) by {
            if i > 0 {
                assert(whole[i] == tail[i - 1]);
            }
        }
    }
}

} // verus!
