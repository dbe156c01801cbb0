//! A memory-mapped UART.

use vstd::prelude::*;

verus! {

/// A memory-mapped UART driver for LoongArch: where its registers lie, the
/// registers that the driver reads, and the bytes that it has sent.
#[derive(Debug)]
pub struct Serial {
    /// The address of the first register.
    pub base_address: u64,
    /// The line status register.
    pub line_status: u8,
    /// The byte that the device has received last.
    pub receive_buffer: u8,
    /// The bytes handed to the device, in order.
    pub sent: Vec<u8>,
}

impl Serial {
    /// The bit of the line status that says that a received byte waits.
    pub const DATA_READY: u8 = 0x01;

    /// The bit of the line status that says that the device takes a byte.
    pub const TRANSMIT_EMPTY: u8 = 0x20;

    /// Whether the device takes a byte.
    pub open spec fn can_send(self) -> bool {
        self.line_status & Self::TRANSMIT_EMPTY != 0
    }

    /// Whether a received byte waits.
    pub open spec fn has_data(self) -> bool {
        self.line_status & Self::DATA_READY != 0
    }

    /// A UART at `base_address` that is ready to send and has received
    /// nothing.
    pub fn new(base_address: u64) -> (r: Self)
        ensures
            r.base_address == base_address,
            r.line_status == Self::TRANSMIT_EMPTY,
            r.receive_buffer == 0,
            r.sent@.len() == 0,
            r.can_send(),
            !r.has_data(),
    {
        assert(0x20u8 & 0x20u8 != 0 && 0x20u8 & 0x01u8 == 0) by (bit_vector);
        Serial {
            base_address,
            line_status: Self::TRANSMIT_EMPTY,
            receive_buffer: 0,
            sent: Vec::new(),
        }
    }

    /// Sends data to the UART. The driver waits until the device takes a
    /// byte, so the device has to be ready at some time.
    pub fn send(&mut self, c: u8)
        requires
            old(self).can_send(),
        ensures
            final(self).sent@ == old(self).sent@.push(c),
            final(self).base_address == old(self).base_address,
            final(self).line_status == old(self).line_status,
            final(self).receive_buffer == old(self).receive_buffer,
    {
        self.sent.push(c);
    }

    /// Receives data from the UART: the received byte where one waits.
    pub fn recv(&mut self) -> (r: Option<u8>)
        ensures
            r == (if old(self).has_data() {
                Some(old(self).receive_buffer)
            } else {
                None
            }),
            final(self).sent@ == old(self).sent@,
            final(self).base_address == old(self).base_address,
            final(self).line_status == old(self).line_status,
            final(self).receive_buffer == old(self).receive_buffer,
    {
        if self.line_status & Self::DATA_READY == 0 {
            None
        } else {
            Some(self.receive_buffer)
        }
    }
}

} // verus!
