//! Bus session manager.
//!
//! One half-duplex, multi-drop bus serves every module, so all operations
//! against the transport must run strictly one at a time, in program
//! order, and every address switch, read or write must be followed by a
//! settle delay before the next exchange: a response obtained without the
//! delay may be stale or garbled, which is a hazard, not a slowdown.
//!
//! The session owns the addressed-slave state and turns each request into
//! a short, ordered run of transport operations. The unverified transport
//! glue performs those operations exactly in order, one at a time; the
//! session itself never retries, since retry policy belongs to callers.

use vstd::prelude::*;

use crate::registry::valid_slave_addr;

verus! {

/// One primitive operation handed to the transport, in the order issued.
#[derive(Clone, Copy, Debug, PartialEq, Eq, Structural)]
pub enum BusOp {
    /// Switch the addressed slave.
    SetSlave { slave: u8 },
    /// Read `count` holding registers starting at `reg` from the
    /// addressed slave.
    ReadRegs { reg: u16, count: u16 },
    /// Write one holding register on the addressed slave.
    WriteReg { reg: u16, value: u16 },
    /// Let the bus and the device settle for this many milliseconds.
    Settle { millis: u64 },
}

/// An operation that actually exchanges frames on the wire.
pub open spec fn is_exchange(op: BusOp) -> bool {
    !(op matches BusOp::Settle { .. })
}

/// A stream of operations in which every exchange is immediately followed
/// by a settle delay.
pub open spec fn settled_stream(ops: Seq<BusOp>) -> bool {
    forall|i: int|
        0 <= i < ops.len() && is_exchange(#[trigger] ops[i]) ==> i + 1 < ops.len() && (ops[i
            + 1] matches BusOp::Settle { .. })
}

/// Appending one settled stream to another yields a settled stream.
pub proof fn lemma_settled_concat(a: Seq<BusOp>, b: Seq<BusOp>)
    requires
        settled_stream(a),
        settled_stream(b),
    ensures
        settled_stream(a + b),
{
    assert forall|i: int| 0 <= i < (a + b).len() && is_exchange(#[trigger] (a + b)[i]) implies i + 1
        < (a + b).len() && ((a + b)[i + 1] matches BusOp::Settle { .. }) by {
        if i < a.len() {
            assert((a + b)[i] == a[i]);
            assert(i + 1 < a.len());
            assert((a + b)[i + 1] == a[i + 1]);
        } else {
            assert((a + b)[i] == b[i - a.len()]);
            assert((a + b)[i + 1] == b[i + 1 - a.len()]);
        }
    }
}

/// The session: which slave the bus is addressed to, and that device's
/// settle delay, inserted after every exchange with it. Exactly one slave
/// is addressed at any instant once the first switch happened, and exactly
/// one operation is in flight at a time, because the ops of each request
/// run in order and each request's ops are produced only after the
/// previous run completed.
pub struct BusSession {
    /// The currently addressed slave, if any switch happened yet.
    pub addressed: Option<u8>,
    /// The addressed device's settle delay, in milliseconds; meaningful
    /// once a slave is addressed.
    pub settle_millis: u64,
}

impl BusSession {
    /// A session on a freshly connected transport: no slave addressed yet.
    pub fn new() -> (session: BusSession)
        ensures
            session.addressed is None,
    {
        BusSession { addressed: None, settle_millis: 0 }
    }

    /// Address a slave, adopting that device's settle delay for every
    /// exchange until the next switch. Switching to the slave already
    /// addressed is a no-op on the wire; otherwise the switch goes out
    /// followed by the device's settle delay.
    pub fn address(&mut self, slave: u8, settle_millis: u64) -> (ops: Vec<BusOp>)
        requires
            valid_slave_addr(slave),
        ensures
            final(self).addressed == Some(slave),
            final(self).settle_millis == settle_millis,
            old(self).addressed == Some(slave) ==> ops@ =~= Seq::<BusOp>::empty(),
            old(self).addressed != Some(slave) ==> ops@ =~= seq![
                BusOp::SetSlave { slave },
                BusOp::Settle { millis: settle_millis },
            ],
            settled_stream(ops@),
    {
        let mut ops: Vec<BusOp> = Vec::new();
        let already = match self.addressed {
            Some(current) => current == slave,
            None => false,
        };
        self.settle_millis = settle_millis;
        if !already {
            ops.push(BusOp::SetSlave { slave });
            ops.push(BusOp::Settle { millis: self.settle_millis });
        }
        self.addressed = Some(slave);
        ops
    }

    /// Read holding registers from the addressed slave, then settle.
    pub fn read_holding(&self, reg: u16, count: u16) -> (ops: Vec<BusOp>)
        requires
            self.addressed is Some,
            count >= 1,
        ensures
            ops@ =~= seq![
                BusOp::ReadRegs { reg, count },
                BusOp::Settle { millis: self.settle_millis },
            ],
            settled_stream(ops@),
    {
        let mut ops: Vec<BusOp> = Vec::new();
        ops.push(BusOp::ReadRegs { reg, count });
        ops.push(BusOp::Settle { millis: self.settle_millis });
        ops
    }

    /// Write one holding register on the addressed slave, then settle.
    pub fn write_register(&self, reg: u16, value: u16) -> (ops: Vec<BusOp>)
        requires
            self.addressed is Some,
        ensures
            ops@ =~= seq![
                BusOp::WriteReg { reg, value },
                BusOp::Settle { millis: self.settle_millis },
            ],
            settled_stream(ops@),
    {
        let mut ops: Vec<BusOp> = Vec::new();
        ops.push(BusOp::WriteReg { reg, value });
        ops.push(BusOp::Settle { millis: self.settle_millis });
        ops
    }
}

} // verus!
