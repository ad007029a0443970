use vstd::prelude::*;

verus! {

/// One sweep of an address domain, kept as explicit state: the driver that
/// owns the bus asks which address is pending, performs the probe in
/// whichever way its execution model calls for (a direct call, or a
/// transaction the caller suspends on), and hands the outcome back. The
/// scanners drive it against an `I2cTransport`; a driver whose bus the
/// library cannot call directly can drive it step by step instead.
pub struct Sweep {
    domain: u16,
    outcomes: Vec<bool>,
}

impl Sweep {
    /// How many addresses this sweep covers.
    pub closed spec fn domain_spec(&self) -> int {
        self.domain as int
    }

    /// The outcomes recorded so far: entry `i` is the outcome of the one
    /// probe of address `i`.
    pub closed spec fn outcomes(&self) -> Seq<bool> {
        self.outcomes@
    }

    /// A sweep never holds more outcomes than its domain has addresses.
    pub closed spec fn wf(&self) -> bool {
        self.outcomes@.len() <= self.domain as int
    }

    /// Starts a sweep of the addresses `0 .. domain`, none probed yet.
    pub fn new(domain: u16) -> (s: Sweep)
        ensures
            s.wf(),
            s.domain_spec() == domain as int,
            s.outcomes() == Seq::<bool>::empty(),
    {
        Sweep { domain, outcomes: Vec::new() }
    }

    /// The next address to probe, in ascending order; `None` once every
    /// address of the domain has been probed exactly once.
    pub fn pending(&self) -> (a: Option<u16>)
        requires
            self.wf(),
        ensures
            (match a {
                Some(addr) => self.outcomes().len() < self.domain_spec() && addr as int
                    == self.outcomes().len(),
                None => self.outcomes().len() == self.domain_spec(),
            }),
    {
        let n: usize = self.outcomes.len();
        if n < self.domain as usize {
            Some(n as u16)
        } else {
            None
        }
    }

    /// Records the outcome of the pending address's probe. A failure is
    /// recorded like any other outcome: it never shortens the sweep.
    pub fn record(&mut self, ok: bool)
        requires
            old(self).wf(),
            old(self).outcomes().len() < old(self).domain_spec(),
        ensures
            final(self).wf(),
            final(self).domain_spec() == old(self).domain_spec(),
            final(self).outcomes() == old(self).outcomes().push(ok),
    {
        self.outcomes.push(ok);
    }

    /// The finished sweep's outcomes, one per address probed.
    pub fn into_flags(self) -> (r: Vec<bool>)
        ensures
            r@ == self.outcomes(),
    {
        self.outcomes
    }
}

} // verus!
