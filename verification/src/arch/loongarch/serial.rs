//! The console I/O.

use vstd::prelude::*;
use crate::arch::loongarch::device::serial::Serial;

verus! {

/// The UART address.
pub const UART_ADDR: u64 = 0x800000001FE001E0;

/// The line feed.
pub const LINE_FEED: u8 = 0x0a;

/// The carriage return.
pub const CARRIAGE_RETURN: u8 = 0x0d;

/// The bytes that go to the device for `data`: a line feed is sent as a
/// carriage return and a line feed, every other byte as itself.
pub open spec fn wire_bytes(data: u8) -> Seq<u8> {
    if data == LINE_FEED {
        seq![CARRIAGE_RETURN, LINE_FEED]
    } else {
        seq![data]
    }
}

/// Initializes the serial port. The device needs no setup.
pub fn init() {
}

/// Sends a byte on the serial port.
pub fn send(uart: &mut Serial, data: u8)
    requires
        old(uart).can_send(),
    ensures
        final(uart).sent@ == old(uart).sent@ + wire_bytes(data),
        final(uart).base_address == old(uart).base_address,
        final(uart).line_status == old(uart).line_status,
        final(uart).receive_buffer == old(uart).receive_buffer,
{
    if data == LINE_FEED {
        uart.send(CARRIAGE_RETURN);
        uart.send(LINE_FEED);
        assert(old(uart).sent@.push(CARRIAGE_RETURN).push(LINE_FEED) == old(uart).sent@
            + wire_bytes(data));
    } else {
        uart.send(data);
        assert(old(uart).sent@.push(data) == old(uart).sent@ + wire_bytes(data));
    }
}

} // verus!
