use vstd::prelude::*;

use crate::transport::flag_word;
use crate::transport::flags_to_words;
use crate::transport::probed_segment;
use crate::transport::scan_flags;
use crate::transport::I2cTransport;

verus! {

/// Scanner over the extended 10-bit address space (addresses 0 to 1023).
pub struct TenBitScanner<T: I2cTransport> {
    i2c: T,
}

impl<T: I2cTransport> TenBitScanner<T> {
    /// The transport handle this scanner owns.
    pub closed spec fn transport(&self) -> T {
        self.i2c
    }

    /// Creates a new scanner instance using the given bus transport.
    pub fn new(i2c: T) -> (s: Self)
        ensures
            s.transport() == i2c,
    {
        Self { i2c }
    }

    /// Destroys the scanner and returns the bus transport it owned.
    pub fn destroy(self) -> (r: T)
        ensures
            r == self.transport(),
    {
        self.i2c
    }

    /// Checks for a device at a specific 10-bit address: issues exactly one
    /// probe and returns `true` iff the transport reported no error.
    pub fn check(&mut self, addr: u16) -> (r: bool)
        ensures
            final(self).transport().trace() == old(self).transport().trace().push((addr, r)),
            forall|a: u16| #[trigger] final(self).transport().would_ack(a) == old(
                self,
            ).transport().would_ack(a),
    {
        self.i2c.probe(addr)
    }

    /// Scans all 1024 available 10-bit addresses in ascending order, one
    /// probe each, and returns the presence map: entry `i` is `1` iff the
    /// probe of address `i` succeeded, `0` otherwise.
    pub fn scan(&mut self) -> (r: Vec<u16>)
        ensures
            r@.len() == 1024,
            probed_segment(old(self).transport().trace(), final(self).transport().trace(), 1024),
            forall|i: int|
                0 <= i < 1024 ==> r@[i] == flag_word(
                    (#[trigger] final(self).transport().trace()[old(
                        self,
                    ).transport().trace().len() + i]).1,
                ),
            forall|a: u16| #[trigger] final(self).transport().would_ack(a) == old(
                self,
            ).transport().would_ack(a),
    {
        let flags = scan_flags(&mut self.i2c, 1024);
        flags_to_words(&flags)
    }
}

} // verus!
