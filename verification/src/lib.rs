//! Bus-probing utility for a two-wire addressable bus: given a transport
//! capable of addressed read transactions, it determines which addresses
//! currently have a responding device and reports the result as a
//! fixed-length presence map. Scanners exist for the ambient (7-bit), the
//! restricted 7-bit and the extended 10-bit address space; all of them drive
//! the same verified sweep.

use vstd::prelude::*;

pub mod seven_bit;
pub mod sim;
pub mod sweep;
pub mod ten_bit;
pub mod transport;

use transport::flag_byte;
use transport::flags_to_bytes;
use transport::probed_segment;
use transport::scan_flags;
use transport::I2cTransport;

verus! {

/// Scanner over the ambient (7-bit) address space: wraps a bus transport and
/// probes addresses for a responding device.
pub struct I2cScanner<T: I2cTransport> {
    i2c: T,
}

impl<T: I2cTransport> I2cScanner<T> {
    /// The transport handle this scanner owns.
    pub closed spec fn transport(&self) -> T {
        self.i2c
    }

    /// Creates a new scanner instance using the given bus transport.
    pub fn new(i2c: T) -> (s: Self)
        ensures
            s.transport() == i2c,
    {
        Self { i2c }
    }

    /// Destroys the scanner and returns the bus transport it owned.
    pub fn destroy(self) -> (r: T)
        ensures
            r == self.transport(),
    {
        self.i2c
    }

    /// Checks for a device at a specific 7-bit address: issues exactly one
    /// probe and returns `true` iff the transport reported no error.
    pub fn check(&mut self, addr: u8) -> (r: bool)
        ensures
            final(self).transport().trace() == old(self).transport().trace().push(
                ((addr as u16), r),
            ),
            forall|a: u16| #[trigger] final(self).transport().would_ack(a) == old(
                self,
            ).transport().would_ack(a),
    {
        self.i2c.probe(addr as u16)
    }

    /// Scans all 128 available 7-bit addresses in ascending order, one probe
    /// each, and returns the presence map: entry `i` is `1` iff the probe of
    /// address `i` succeeded, `0` otherwise.
    pub fn scan(&mut self) -> (r: Vec<u8>)
        ensures
            r@.len() == 128,
            probed_segment(old(self).transport().trace(), final(self).transport().trace(), 128),
            forall|i: int|
                0 <= i < 128 ==> r@[i] == flag_byte(
                    (#[trigger] final(self).transport().trace()[old(
                        self,
                    ).transport().trace().len() + i]).1,
                ),
            forall|a: u16| #[trigger] final(self).transport().would_ack(a) == old(
                self,
            ).transport().would_ack(a),
    {
        let flags = scan_flags(&mut self.i2c, 128);
        flags_to_bytes(&flags)
    }
}

} // verus!
