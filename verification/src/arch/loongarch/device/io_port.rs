//! The I/O ports of the machine.

use vstd::prelude::*;
use crate::bits::{le16, le32};

verus! {

/// Marks a port that can only be written.
pub struct WriteOnlyAccess;

/// Marks a port that can be read and written.
pub struct ReadWriteAccess;

/// The access markers of ports that can be written.
pub trait IoPortWriteAccess {

}

/// The access markers of ports that can be read.
pub trait IoPortReadAccess {

}

impl IoPortWriteAccess for WriteOnlyAccess {

}

impl IoPortWriteAccess for ReadWriteAccess {

}

impl IoPortReadAccess for ReadWriteAccess {

}

/// The I/O port space: one byte behind each port number. A value of more
/// than one byte lies in consecutive ports, low byte first.
#[derive(Debug)]
pub struct PortSpace {
    pub bytes: Vec<u8>,
}

impl PortSpace {
    /// The number of ports.
    pub const PORTS: usize = 0x1_0000;

    /// The space has a byte for every port number.
    pub open spec fn wf(self) -> bool {
        self.bytes@.len() == Self::PORTS
    }

    /// The port space with every byte zero.
    pub fn new() -> (r: Self)
        ensures
            r.wf(),
            forall|i: int| 0 <= i < Self::PORTS ==> r.bytes@[i] == 0,
    {
        let mut bytes: Vec<u8> = Vec::new();
        let mut i: usize = 0;
        while i < Self::PORTS
            invariant
                i <= Self::PORTS,
                bytes@.len() == i,
                forall|j: int| 0 <= j < i ==> bytes@[j] == 0,
            decreases Self::PORTS - i,
        {
            bytes.push(0u8);
            i += 1;
        }
        PortSpace { bytes }
    }
}

/// A value that can be read from a port.
pub trait PortRead: Sized {
    /// The number of ports that the value takes.
    spec fn width() -> int;

    /// The value that lies at `port`.
    spec fn stored(space: PortSpace, port: u16) -> Self;

    /// Reads the value at `port`.
    fn read_from_port(space: &PortSpace, port: u16) -> (r: Self)
        requires
            space.wf(),
            port + Self::width() <= PortSpace::PORTS,
        ensures
            r == Self::stored(*space, port),
    ;
}

/// A value that can be written to a port.
pub trait PortWrite: Sized {
    /// The number of ports that the value takes.
    spec fn width() -> int;

    /// The bytes of the space after `value` has been written at `port`.
    spec fn store(bytes: Seq<u8>, port: u16, value: Self) -> Seq<u8>;

    /// Writes `value` at `port`. No other port changes.
    fn write_to_port(space: &mut PortSpace, port: u16, value: Self)
        requires
            old(space).wf(),
            port + Self::width() <= PortSpace::PORTS,
        ensures
            final(space).wf(),
            final(space).bytes@ == Self::store(old(space).bytes@, port, value),
    ;
}

impl PortRead for u8 {
    open spec fn width() -> int {
        1
    }

    open spec fn stored(space: PortSpace, port: u16) -> u8 {
        space.bytes@[port as int]
    }

    fn read_from_port(space: &PortSpace, port: u16) -> (r: u8) {
        space.bytes[port as usize]
    }
}

impl PortWrite for u8 {
    open spec fn width() -> int {
        1
    }

    open spec fn store(bytes: Seq<u8>, port: u16, value: u8) -> Seq<u8> {
        bytes.update(port as int, value)
    }

    fn write_to_port(space: &mut PortSpace, port: u16, value: u8) {
        space.bytes[port as usize] = value;
    }
}

impl PortRead for u16 {
    open spec fn width() -> int {
        2
    }

    open spec fn stored(space: PortSpace, port: u16) -> u16 {
        le16(space.bytes@[port as int], space.bytes@[port + 1])
    }

    fn read_from_port(space: &PortSpace, port: u16) -> (r: u16) {
        let at: usize = port as usize;
        (space.bytes[at] as u16) | ((space.bytes[at + 1] as u16) << 8)
    }
}

impl PortWrite for u16 {
    open spec fn width() -> int {
        2
    }

    open spec fn store(bytes: Seq<u8>, port: u16, value: u16) -> Seq<u8> {
        bytes.update(port as int, (value & 0xff) as u8).update(
            port + 1,
            ((value >> 8) & 0xff) as u8,
        )
    }

    fn write_to_port(space: &mut PortSpace, port: u16, value: u16) {
        let at: usize = port as usize;
        space.bytes[at] = #[verifier::truncate] ((value & 0xff) as u8);
        space.bytes[at + 1] = #[verifier::truncate] (((value >> 8) & 0xff) as u8);
    }
}

impl PortRead for u32 {
    open spec fn width() -> int {
        4
    }

    open spec fn stored(space: PortSpace, port: u16) -> u32 {
        le32(
            space.bytes@[port as int],
            space.bytes@[port + 1],
            space.bytes@[port + 2],
            space.bytes@[port + 3],
        )
    }

    fn read_from_port(space: &PortSpace, port: u16) -> (r: u32) {
        let at: usize = port as usize;
        (space.bytes[at] as u32) | ((space.bytes[at + 1] as u32) << 8) | ((space.bytes[at
            + 2] as u32) << 16) | ((space.bytes[at + 3] as u32) << 24)
    }
}

impl PortWrite for u32 {
    open spec fn width() -> int {
        4
    }

    open spec fn store(bytes: Seq<u8>, port: u16, value: u32) -> Seq<u8> {
        bytes.update(port as int, ((value >> 0) & 0xff) as u8).update(
            port + 1,
            ((value >> 8) & 0xff) as u8,
        ).update(port + 2, ((value >> 16) & 0xff) as u8).update(
            port + 3,
            ((value >> 24) & 0xff) as u8,
        )
    }

    fn write_to_port(space: &mut PortSpace, port: u16, value: u32) {
        let at: usize = port as usize;
        space.bytes[at] = #[verifier::truncate] (((value >> 0) & 0xff) as u8);
        space.bytes[at + 1] = #[verifier::truncate] (((value >> 8) & 0xff) as u8);
        space.bytes[at + 2] = #[verifier::truncate] (((value >> 16) & 0xff) as u8);
        space.bytes[at + 3] = #[verifier::truncate] (((value >> 24) & 0xff) as u8);
    }
}

} // verus!
