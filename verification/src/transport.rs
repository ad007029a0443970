use vstd::prelude::*;

use crate::sweep::Sweep;

verus! {

/// Capability contract that a caller-supplied bus transport must satisfy: an
/// addressed read probe that either completes (the device acknowledged) or
/// fails (no acknowledgment, or any other transport error).
///
/// The abstract state of a transport is its transaction trace: every probe it
/// has performed so far, in order, each entry holding the probed address and
/// whether the transport reported success. A probe appends exactly one entry
/// and promises nothing about its outcome: whether a device answers is the
/// bus's business, not the scanner's.
pub trait I2cTransport {
    /// The transactions performed so far, in order: probed address and
    /// reported outcome (`true` means the device acknowledged).
    spec fn trace(&self) -> Seq<(u16, bool)>;

    /// Whether a device would currently acknowledge a probe of `addr`: the
    /// transport's persistent bus state. The trait does not promise that a
    /// reported outcome follows this predicate — a bus may time out or lose
    /// arbitration — but a deterministic transport can tie the two.
    spec fn would_ack(&self, addr: u16) -> bool;

    /// Issues exactly one addressed read probe and reports whether the
    /// transaction completed without a transport error. A probe, failed or
    /// not, never corrupts the persistent bus state: subsequent probes find
    /// the same devices answering.
    fn probe(&mut self, addr: u16) -> (r: bool)
        ensures
            final(self).trace() == old(self).trace().push((addr, r)),
            forall|a: u16| #[trigger] final(self).would_ack(a) == old(self).would_ack(a),
    ;
}

/// The transport went from trace `pre` to trace `post` by probing the `n`
/// addresses `0, 1, ..., n - 1` once each, in ascending order, with nothing
/// before them disturbed and nothing else issued.
pub open spec fn probed_segment(pre: Seq<(u16, bool)>, post: Seq<(u16, bool)>, n: int) -> bool {
    &&& post.len() == pre.len() + n
    &&& forall|i: int| 0 <= i < pre.len() ==> post[i] == pre[i]
    &&& forall|i: int| 0 <= i < n ==> (#[trigger] post[pre.len() + i]).0 == i as u16
}

/// The one-byte presence flag recorded for a probe outcome.
pub open spec fn flag_byte(ok: bool) -> u8 {
    if ok {
        1
    } else {
        0
    }
}

/// The two-byte presence flag recorded for a probe outcome.
pub open spec fn flag_word(ok: bool) -> u16 {
    if ok {
        1
    } else {
        0
    }
}

/// The one probing algorithm every scanner variant shares: sweep the addresses
/// `0 .. domain` in ascending order, probe each exactly once, and record each
/// outcome. A failed probe is recorded as absent and never stops the sweep.
pub fn scan_flags<T: I2cTransport>(bus: &mut T, domain: u16) -> (flags: Vec<bool>)
    ensures
        flags@.len() == domain as int,
        probed_segment(old(bus).trace(), final(bus).trace(), domain as int),
        forall|i: int| 0 <= i < domain as int ==> flags@[i]
            == (#[trigger] final(bus).trace()[old(bus).trace().len() + i]).1,
        forall|a: u16| #[trigger] final(bus).would_ack(a) == old(bus).would_ack(a),
{
    let ghost pre: Seq<(u16, bool)> = bus.trace();
    let ghost bus0: T = *bus;
    let mut sweep = Sweep::new(domain);
    loop
        invariant
            sweep.wf(),
            sweep.domain_spec() == domain as int,
            forall|a: u16| #[trigger] bus.would_ack(a) == bus0.would_ack(a),
            bus.trace().len() == pre.len() + sweep.outcomes().len(),
            forall|i: int| 0 <= i < pre.len() ==> bus.trace()[i] == pre[i],
            forall|i: int|
                0 <= i < sweep.outcomes().len() ==> (#[trigger] bus.trace()[pre.len() + i]).0
                    == i as u16,
            forall|i: int|
                0 <= i < sweep.outcomes().len() ==> sweep.outcomes()[i] == (#[trigger] bus.trace()[pre.len()
                    + i]).1,
        ensures
            sweep.outcomes().len() == domain as int,
            forall|a: u16| #[trigger] bus.would_ack(a) == bus0.would_ack(a),
            bus.trace().len() == pre.len() + domain as int,
            forall|i: int| 0 <= i < pre.len() ==> bus.trace()[i] == pre[i],
            forall|i: int|
                0 <= i < domain as int ==> (#[trigger] bus.trace()[pre.len() + i]).0 == i as u16,
            forall|i: int|
                0 <= i < domain as int ==> sweep.outcomes()[i] == (#[trigger] bus.trace()[pre.len()
                    + i]).1,
        decreases domain as int - sweep.outcomes().len(),
    {
        match sweep.pending() {
            Some(addr) => {
                let ok = bus.probe(addr);
                sweep.record(ok);
            },
            None => {
                break;
            },
        }
    }
    sweep.into_flags()
}

/// Records a sweep's outcomes as one-byte presence flags, index for index.
pub fn flags_to_bytes(flags: &Vec<bool>) -> (r: Vec<u8>)
    ensures
        r@.len() == flags@.len(),
        forall|i: int| 0 <= i < flags@.len() ==> r@[i] == flag_byte(flags@[i]),
{
    let mut r: Vec<u8> = Vec::new();
    let mut i: usize = 0;
    while i < flags.len()
        invariant
            i <= flags@.len(),
            r@.len() == i as int,
            forall|j: int| 0 <= j < i as int ==> r@[j] == flag_byte(flags@[j]),
        decreases flags@.len() - i,
    {
        if flags[i] {
            r.push(1);
        } else {
            r.push(0);
        }
        i = i + 1;
    }
    r
}

/// Records a sweep's outcomes as two-byte presence flags, index for index.
pub fn flags_to_words(flags: &Vec<bool>) -> (r: Vec<u16>)
    ensures
        r@.len() == flags@.len(),
        forall|i: int| 0 <= i < flags@.len() ==> r@[i] == flag_word(flags@[i]),
{
    let mut r: Vec<u16> = Vec::new();
    let mut i: usize = 0;
    while i < flags.len()
        invariant
            i <= flags@.len(),
            r@.len() == i as int,
            forall|j: int| 0 <= j < i as int ==> r@[j] == flag_word(flags@[j]),
        decreases flags@.len() - i,
    {
        if flags[i] {
            r.push(1);
        } else {
            r.push(0);
        }
        i = i + 1;
    }
    r
}

} // verus!
