use vstd::prelude::*;

use crate::transport::I2cTransport;

verus! {

/// A deterministic in-memory transport for driving the scanners without a
/// physical bus: a probe of address `a` acknowledges iff entry `a` of the
/// acknowledgment table is `true` (addresses beyond the table never
/// acknowledge). Every probe issued is kept, in order, so a caller can audit
/// how the bus was driven.
pub struct SimTransport {
    acks: Vec<bool>,
    issued: Vec<u16>,
}

impl SimTransport {
    /// Creates a transport that acknowledges exactly the addresses whose
    /// entry in `acks` is `true`, with no transactions performed yet.
    pub fn new(acks: Vec<bool>) -> (t: Self)
        ensures
            t.trace() == Seq::<(u16, bool)>::empty(),
            forall|a: u16| #[trigger]
                t.would_ack(a) == ((a as int) < acks@.len() && acks@[a as int]),
    {
        let t = Self { acks, issued: Vec::new() };
        proof {
            assert(t.trace() =~= Seq::<(u16, bool)>::empty());
        }
        t
    }

    /// How many probes have been issued on this transport so far.
    pub fn transaction_count(&self) -> (n: usize)
        ensures
            n as int == self.trace().len(),
    {
        self.issued.len()
    }

    /// On this transport every probe's reported outcome is determined by the
    /// acknowledgment table alone: each trace entry's outcome is whether a
    /// device would acknowledge the address that was probed. Together with
    /// the scanners' trace contracts this pins every concrete presence-map
    /// entry down to the table the transport was created with.
    pub proof fn lemma_outcomes_follow_table(&self)
        ensures
            forall|i: int|
                0 <= i < self.trace().len() ==> (#[trigger] self.trace()[i]).1 == self.would_ack(
                    self.trace()[i].0,
                ),
    {
    }

    /// The address the `i`-th probe was issued to.
    pub fn issued_address(&self, i: usize) -> (a: u16)
        requires
            (i as int) < self.trace().len(),
        ensures
            a == self.trace()[i as int].0,
    {
        self.issued[i]
    }
}

impl I2cTransport for SimTransport {
    closed spec fn trace(&self) -> Seq<(u16, bool)> {
        self.issued@.map(|i: int, a: u16| (a, self.would_ack(a)))
    }

    closed spec fn would_ack(&self, addr: u16) -> bool {
        (addr as int) < self.acks@.len() && self.acks@[addr as int]
    }

    fn probe(&mut self, addr: u16) -> (r: bool) {
        self.issued.push(addr);
        let r = (addr as usize) < self.acks.len() && self.acks[addr as usize];
        proof {
            assert(self.trace() =~= old(self).trace().push((addr, r)));
        }
        r
    }
}

} // verus!
