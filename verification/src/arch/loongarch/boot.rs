//! What the kernel learns at boot on LoongArch.

use vstd::prelude::*;

verus! {

/// What a region of physical memory is used for.
#[derive(Clone, Copy, Debug, PartialEq, Eq, Structural)]
pub enum MemoryRegionType {
    /// Free for the kernel to use.
    Usable,
    /// Holds the kernel itself.
    Kernel,
    /// Holds a module that the bootloader has loaded.
    Module,
}

/// A region of physical memory.
#[derive(Clone, Copy, Debug, PartialEq, Eq, Structural)]
pub struct MemoryRegion {
    pub base: usize,
    pub len: usize,
    pub typ: MemoryRegionType,
}

/// Whether the bootloader has handed over the ACPI tables.
#[derive(Clone, Copy, Debug, PartialEq, Eq, Structural)]
pub enum BootloaderAcpiArg {
    /// The bootloader has handed over nothing.
    NotProvided,
}

/// The frame buffer that the bootloader has set up.
#[derive(Clone, Copy, Debug, PartialEq, Eq, Structural)]
pub struct BootloaderFramebufferArg {
    pub address: usize,
    pub width: usize,
    pub height: usize,
    pub bpp: usize,
}

/// The start of the usable memory of the machine.
pub const USABLE_BASE: usize = 0x8000_0000;

/// The size of the usable memory of the machine.
pub const USABLE_LEN: usize = 0x7000_0000;

/// The width of physical and virtual addresses that the kernel is built for.
pub const ADDRESS_BITS: usize = 48;

/// The name of the bootloader. The machine does not tell.
pub fn parse_bootloader_name() -> (r: &'static str)
    ensures
        r@ == "Unknown"@,
{
    "Unknown"
}

/// The command line of the kernel. The machine hands over none, so the
/// kernel starts a shell that lists the root directory.
pub fn parse_kernel_commandline() -> (r: &'static str)
    ensures
        r@
            == "SHELL=/bin/sh LOGNAME=root HOME=/ USER=root PATH=/bin init=/bin/busybox ostd.log_level=trace -- ls -alh /"@,
{
    "SHELL=/bin/sh LOGNAME=root HOME=/ USER=root PATH=/bin init=/bin/busybox ostd.log_level=trace -- ls -alh /"
}

/// The ACPI tables. The machine hands over none.
pub fn parse_acpi_arg() -> (r: BootloaderAcpiArg)
    ensures
        r == BootloaderAcpiArg::NotProvided,
{
    BootloaderAcpiArg::NotProvided
}

/// The frame buffer. The machine sets up none.
pub fn parse_framebuffer_info() -> (r: Option<BootloaderFramebufferArg>)
    ensures
        r is None,
{
    None
}

/// The first and the last address of the initial file system in memory.
/// The machine loads none.
pub fn parse_initramfs_range() -> (r: Option<(usize, usize)>)
    ensures
        r is None,
{
    None
}

/// The regions of physical memory: the usable memory, then the region of
/// the kernel as `kernel` gives it, then the initial file system where
/// `initramfs` gives its first and last address.
pub fn parse_memory_regions(kernel: MemoryRegion, initramfs: Option<(usize, usize)>) -> (regions:
    Vec<MemoryRegion>)
    requires
        match initramfs {
            Some((start, end)) => start <= end,
            None => true,
        },
    ensures
        regions@.len() == (if initramfs is Some {
            3int
        } else {
            2int
        }),
        regions@[0] == (MemoryRegion {
            base: USABLE_BASE,
            len: USABLE_LEN,
            typ: MemoryRegionType::Usable,
        }),
        regions@[1] == kernel,
        match initramfs {
            Some((start, end)) => regions@[2] == (MemoryRegion {
                base: start,
                len: (end - start) as usize,
                typ: MemoryRegionType::Module,
            }),
            None => true,
        },
{
    let mut regions: Vec<MemoryRegion> = Vec::new();
    regions.push(MemoryRegion { base: USABLE_BASE, len: USABLE_LEN, typ: MemoryRegionType::Usable });
    regions.push(kernel);
    match initramfs {
        Some((start, end)) => {
            regions.push(MemoryRegion { base: start, len: end - start, typ: MemoryRegionType::Module });
        },
        None => {},
    }
    regions
}

/// Whether the processor has the address widths that the kernel is built
/// for: 48 bits for physical and for virtual addresses.
pub fn cpu_config_supported(palen: usize, valen: usize) -> (r: bool)
    ensures
        r == (palen == ADDRESS_BITS && valen == ADDRESS_BITS),
{
    palen == ADDRESS_BITS && valen == ADDRESS_BITS
}

} // verus!
