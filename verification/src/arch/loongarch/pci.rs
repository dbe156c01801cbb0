//! PCI bus access

use vstd::prelude::*;
use crate::io_mem::{IoError, IoMem};

verus! {

/// Where a function of a PCI device sits on the bus.
#[derive(Clone, Copy, Debug, PartialEq, Eq, Structural)]
pub struct PciDeviceLocation {
    /// The bus, 0 to 255.
    pub bus: u8,
    /// The device on the bus, 0 to 31.
    pub device: u8,
    /// The function of the device, 0 to 7.
    pub function: u8,
}

/// The register window of the PCI configuration space: empty until `init`
/// fills it, and never emptied after that.
#[derive(Debug)]
pub struct PciIoMem {
    pub io_mem: Option<IoMem>,
}

/// The address of the configuration space.
pub const PCI_BASE_ADDR: u64 = 0x2000_0000;

/// The size of the configuration space in bytes.
pub const PCI_BASE_SIZE: usize = 0x800_0000;

/// The address that message-signalled interrupts are sent to.
pub const MSIX_DEFAULT_MSG_ADDR: u32 = 0x2ff0_0000;

/// The offset of the configuration registers of `location`.
pub open spec fn address_offset(location: PciDeviceLocation) -> u32 {
    ((location.bus as u32) << 16) | ((location.device as u32) << 11) | ((location.function as u32)
        << 8)
}

/// The offset of the 32-bit register that holds byte `offset` of the
/// configuration registers of `location`.
pub open spec fn register_offset(location: PciDeviceLocation, offset: u32) -> u32 {
    address_offset(location) | (offset & 0xfc)
}

/// Whether the machine has a PCI bus: the configuration space is set up.
pub fn has_pci_bus(pci: &PciIoMem) -> (r: bool)
    ensures
        r == pci.io_mem is Some,
{
    pci.io_mem.is_some()
}

/// Writes a 32-bit configuration register of `location`. Fails where the
/// configuration space is not set up or does not hold the register.
pub fn write32(pci: &mut PciIoMem, location: &PciDeviceLocation, offset: u32, value: u32) -> (r:
    Result<(), IoError>)
    ensures
        old(pci).io_mem is None ==> r == Err::<(), IoError>(IoError::IoError)
            && final(pci).io_mem is None,
        old(pci).io_mem is Some ==> {
            &&& final(pci).io_mem is Some
            &&& final(pci).io_mem->0.base == old(pci).io_mem->0.base
            &&& if old(pci).io_mem->0.holds(register_offset(*location, offset) as int) {
                r is Ok && final(pci).io_mem->0.words@ == old(pci).io_mem->0.words@.update(
                    register_offset(*location, offset) as int / 4,
                    value,
                )
            } else {
                r == Err::<(), IoError>(IoError::InvalidArgs) && final(pci).io_mem->0.words@
                    == old(pci).io_mem->0.words@
            }
        },
{
    match pci.io_mem.take() {
        None => Err(IoError::IoError),
        Some(mut io_mem) => {
            let at: u32 = encode_as_address_offset(location) | (offset & 0xfc);
            let r = io_mem.write_once(at as usize, value);
            pci.io_mem = Some(io_mem);
            r
        },
    }
}

/// Reads a 32-bit configuration register of `location`. Fails where the
/// configuration space is not set up or does not hold the register.
pub fn read32(pci: &PciIoMem, location: &PciDeviceLocation, offset: u32) -> (r: Result<
    u32,
    IoError,
>)
    ensures
        r == (match pci.io_mem {
            None => Err::<u32, IoError>(IoError::IoError),
            Some(io_mem) => if io_mem.holds(register_offset(*location, offset) as int) {
                Ok::<u32, IoError>(io_mem.word(register_offset(*location, offset) as int))
            } else {
                Err::<u32, IoError>(IoError::InvalidArgs)
            },
        }),
{
    match &pci.io_mem {
        None => Err(IoError::IoError),
        Some(io_mem) => {
            let at: u32 = encode_as_address_offset(location) | (offset & 0xfc);
            io_mem.read_once(at as usize)
        },
    }
}

/// Encodes the bus, device, and function into an address offset in the PCI MMIO region.
pub fn encode_as_address_offset(location: &PciDeviceLocation) -> (r: u32)
    ensures
        r == address_offset(*location),
{
    ((location.bus as u32) << 16) | ((location.device as u32) << 11) | ((location.function as u32)
        << 8)
}

/// Sets up the configuration space on the first call; later calls keep it
/// as it is. Always succeeds.
pub fn init(pci: &mut PciIoMem) -> (r: Result<(), IoError>)
    ensures
        r is Ok,
        final(pci).io_mem is Some,
        old(pci).io_mem is Some ==> final(pci).io_mem == old(pci).io_mem,
        old(pci).io_mem is None ==> {
            &&& final(pci).io_mem->0.wf()
            &&& final(pci).io_mem->0.base == PCI_BASE_ADDR
            &&& final(pci).io_mem->0.words@.len() == PCI_BASE_SIZE / 4
            &&& forall|i: int|
                0 <= i < final(pci).io_mem->0.words@.len() ==> final(pci).io_mem->0.words@[i] == 0
        },
{
    if pci.io_mem.is_none() {
        pci.io_mem = Some(IoMem::new(PCI_BASE_ADDR, PCI_BASE_SIZE));
    }
    Ok(())
}

} // verus!
