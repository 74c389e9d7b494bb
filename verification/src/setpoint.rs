//! Actuator setpoints with anti-chatter hysteresis.
//!
//! Re-issuing an unchanged or near-identical command can cause a momentary
//! output dropout on some devices, so a new target is written only when it
//! differs from the last applied value by at least the setpoint's epsilon.

use vstd::prelude::*;

verus! {

/// Magnitude of the difference between two physical values.
pub open spec fn distance(a: u64, b: u64) -> int {
    if a >= b {
        a - b
    } else {
        b - a
    }
}

/// One actuator's target state: the minimum change that justifies a new
/// write, and the value last actually written, if any.
#[derive(Clone, Copy, Debug, PartialEq, Eq, Structural)]
pub struct Setpoint {
    /// Smallest change, in micro-units, that re-issues a write.
    pub epsilon_micro: u64,
    /// The physical value last written to the device, in micro-units.
    pub last_applied_micro: Option<u64>,
}

impl Setpoint {
    /// A target is written when nothing was ever applied, or when it moved
    /// at least epsilon away from what was.
    pub open spec fn should_write(self, target_micro: u64) -> bool {
        match self.last_applied_micro {
            None => true,
            Some(last) => distance(target_micro, last) >= self.epsilon_micro,
        }
    }

    /// The setpoint after one target was offered: applied targets are
    /// remembered, skipped ones leave it unchanged.
    pub open spec fn after(self, target_micro: u64) -> Setpoint {
        if self.should_write(target_micro) {
            Setpoint { epsilon_micro: self.epsilon_micro, last_applied_micro: Some(target_micro) }
        } else {
            self
        }
    }

    /// A fresh setpoint that will write its first target unconditionally.
    pub fn new(epsilon_micro: u64) -> (sp: Setpoint)
        ensures
            sp == (Setpoint { epsilon_micro, last_applied_micro: None::<u64> }),
    {
        Setpoint { epsilon_micro, last_applied_micro: None }
    }

    /// Offer a new target: decide whether it is written this cycle, and
    /// remember it exactly when it is.
    pub fn offer(&mut self, target_micro: u64) -> (write: bool)
        ensures
            write == old(self).should_write(target_micro),
            *final(self) == old(self).after(target_micro),
    {
        let write = match self.last_applied_micro {
            None => true,
            Some(last) => {
                let diff = if target_micro >= last {
                    target_micro - last
                } else {
                    last - target_micro
                };
                diff >= self.epsilon_micro
            },
        };
        if write {
            self.last_applied_micro = Some(target_micro);
        }
        write
    }
}

/// How many writes a run of offered targets causes, starting from `sp`.
pub open spec fn writes_for(sp: Setpoint, targets: Seq<u64>) -> nat
    decreases targets.len(),
{
    if targets.len() == 0 {
        0
    } else {
        (if sp.should_write(targets[0]) {
            1nat
        } else {
            0nat
        }) + writes_for(sp.after(targets[0]), targets.drop_first())
    }
}

/// The setpoint left behind by a run of offered targets.
pub open spec fn after_all(sp: Setpoint, targets: Seq<u64>) -> Setpoint
    decreases targets.len(),
{
    if targets.len() == 0 {
        sp
    } else {
        after_all(sp.after(targets[0]), targets.drop_first())
    }
}

/// Offering one more target after a run adds at most that target's write.
pub proof fn lemma_writes_push(sp: Setpoint, targets: Seq<u64>, extra: u64)
    ensures
        writes_for(sp, targets.push(extra)) == writes_for(sp, targets) + (if after_all(
            sp,
            targets,
        ).should_write(extra) {
            1nat
        } else {
            0nat
        }),
        after_all(sp, targets.push(extra)) == after_all(sp, targets).after(extra),
    decreases targets.len(),
{
    let pushed = targets.push(extra);
    assert(pushed.len() == targets.len() + 1);
    if targets.len() == 0 {
        assert(pushed[0] == extra);
        assert(pushed.drop_first() =~= Seq::<u64>::empty());
        assert(writes_for(sp, pushed) == (if sp.should_write(extra) {
            1nat
        } else {
            0nat
        }) + writes_for(sp.after(extra), pushed.drop_first()));
        assert(writes_for(sp.after(extra), pushed.drop_first()) == 0);
        assert(after_all(sp, pushed) == after_all(sp.after(extra), pushed.drop_first()));
    } else {
        assert(pushed[0] == targets[0]);
        assert(pushed.drop_first() =~= targets.drop_first().push(extra));
        lemma_writes_push(sp.after(targets[0]), targets.drop_first(), extra);
    }
}

/// Targets that all stay within epsilon of the applied value cause no
/// write at all and leave the setpoint as it was.
pub proof fn lemma_hysteresis_holds(sp: Setpoint, applied: u64, targets: Seq<u64>)
    requires
        sp.last_applied_micro == Some(applied),
        forall|i: int|
            0 <= i < targets.len() ==> distance(#[trigger] targets[i], applied)
                < sp.epsilon_micro,
    ensures
        writes_for(sp, targets) == 0,
        after_all(sp, targets) == sp,
    decreases targets.len(),
{
    if targets.len() > 0 {
        assert(distance(targets[0], applied) < sp.epsilon_micro);
        assert(forall|i: int|
            0 <= i < targets.drop_first().len() ==> distance(
                #[trigger] targets.drop_first()[i],
                applied,
            ) < sp.epsilon_micro);
        lemma_hysteresis_holds(sp, applied, targets.drop_first());
    }
}

/// A fresh setpoint offered a run of targets that all stay within epsilon
/// of the first sees exactly one write over the whole run.
pub proof fn lemma_hysteresis_single_write(sp: Setpoint, targets: Seq<u64>)
    requires
        sp.last_applied_micro is None,
        targets.len() >= 1,
        forall|i: int|
            0 <= i < targets.len() ==> distance(#[trigger] targets[i], targets[0])
                < sp.epsilon_micro,
    ensures
        writes_for(sp, targets) == 1,
        after_all(sp, targets).last_applied_micro == Some(targets[0]),
        after_all(sp, targets).epsilon_micro == sp.epsilon_micro,
{
    let applied = sp.after(targets[0]);
    assert(forall|i: int|
        0 <= i < targets.drop_first().len() ==> distance(
            #[trigger] targets.drop_first()[i],
            targets[0],
        ) < sp.epsilon_micro);
    lemma_hysteresis_holds(applied, targets[0], targets.drop_first());
}

/// One further target at least epsilon away from the first triggers
/// exactly one additional write.
pub proof fn lemma_hysteresis_one_more_write(sp: Setpoint, targets: Seq<u64>, beyond: u64)
    requires
        sp.last_applied_micro is None,
        targets.len() >= 1,
        forall|i: int|
            0 <= i < targets.len() ==> distance(#[trigger] targets[i], targets[0])
                < sp.epsilon_micro,
        distance(beyond, targets[0]) >= sp.epsilon_micro,
    ensures
        writes_for(sp, targets.push(beyond)) == 2,
{
    lemma_hysteresis_single_write(sp, targets);
    lemma_writes_push(sp, targets, beyond);
}

} // verus!
