use hal_core::arch::loongarch::boot::{
    cpu_config_supported, parse_acpi_arg, parse_bootloader_name, parse_framebuffer_info,
    parse_initramfs_range, parse_kernel_commandline, parse_memory_regions, BootloaderAcpiArg,
    MemoryRegion, MemoryRegionType,
};
use hal_core::arch::loongarch::device::io_port::{PortRead, PortSpace, PortWrite};
use hal_core::arch::loongarch::device::serial::Serial;
use hal_core::arch::loongarch::mm::{current_page_table_paddr, is_valid_root, PagingConsts};
use hal_core::arch::loongarch::pci::{
    encode_as_address_offset, has_pci_bus, read32, write32, PciDeviceLocation, PciIoMem,
    MSIX_DEFAULT_MSG_ADDR,
};
use hal_core::arch::loongarch::qemu::{exit_value, QemuExitCode, EXIT_ADDR};
use hal_core::arch::loongarch::serial::{send, UART_ADDR};
use hal_core::arch::loongarch::{enable_cpu_features, read_random};
use hal_core::ext4::{
    block_offset, check_link, check_writable, device_id, ioctl, is_block_aligned, lookup,
    read_len, readdir_at, stored_secs, DirEntry, Dirent, Errno, FileType, InodeType, BLOCK_SIZE,
    NAME_MAX, ROOT_INO,
};
use hal_core::io_mem::IoError;
use hal_core::logger::{level_color, timestamp, Color, Level, Timestamp};
use hal_core::rtc::{RtcLoongarch, RtcLoongson, SystemTime};

#[test]
fn console_sends_line_feed_as_two_bytes() {
    let mut uart = Serial::new(UART_ADDR);
    hal_core::arch::loongarch::serial::init();
    send(&mut uart, b'a');
    send(&mut uart, b'\n');
    send(&mut uart, b'\r');
    send(&mut uart, 0);
    assert_eq!(uart.sent, vec![b'a', b'\r', b'\n', b'\r', 0]);
    assert_eq!(uart.base_address, 0x8000_0000_1FE0_01E0);
}

#[test]
fn uart_receives_when_data_is_ready() {
    let mut uart = Serial::new(0x1000);
    assert_eq!(uart.recv(), None);
    uart.receive_buffer = b'x';
    assert_eq!(uart.recv(), None);
    uart.line_status |= Serial::DATA_READY;
    assert_eq!(uart.recv(), Some(b'x'));
    uart.send(b'y');
    assert_eq!(uart.sent, vec![b'y']);
}

#[test]
fn ports_hold_values_low_byte_first() {
    let mut space = PortSpace::new();
    assert_eq!(space.bytes.len(), 0x1_0000);
    u32::write_to_port(&mut space, 0x10, 0x1122_3344);
    assert_eq!(&space.bytes[0x10..0x14], &[0x44, 0x33, 0x22, 0x11]);
    assert_eq!(u32::read_from_port(&space, 0x10), 0x1122_3344);
    assert_eq!(u16::read_from_port(&space, 0x11), 0x2233);
    assert_eq!(u8::read_from_port(&space, 0x13), 0x11);
    u16::write_to_port(&mut space, 0xfffe, 0xabcd);
    assert_eq!(u16::read_from_port(&space, 0xfffe), 0xabcd);
    u8::write_to_port(&mut space, 0xffff, 0x01);
    assert_eq!(u16::read_from_port(&space, 0xfffe), 0x01cd);
    assert_eq!(u8::read_from_port(&space, 0), 0);
}

#[test]
fn pci_offset_packs_bus_device_function() {
    let loc = PciDeviceLocation { bus: 1, device: 2, function: 3 };
    assert_eq!(encode_as_address_offset(&loc), 0x1_1300);
    let top = PciDeviceLocation { bus: 255, device: 31, function: 7 };
    assert_eq!(encode_as_address_offset(&top), 0xff_ff00);
    assert_eq!(MSIX_DEFAULT_MSG_ADDR, 0x2ff0_0000);
}

#[test]
fn pci_access_needs_the_configuration_space() {
    let loc = PciDeviceLocation { bus: 0, device: 1, function: 0 };
    let mut pci = PciIoMem { io_mem: None };
    assert!(!has_pci_bus(&pci));
    assert_eq!(read32(&pci, &loc, 0), Err(IoError::IoError));
    assert_eq!(write32(&mut pci, &loc, 0, 1), Err(IoError::IoError));
    assert_eq!(hal_core::arch::loongarch::pci::init(&mut pci), Ok(()));
    assert!(has_pci_bus(&pci));
    assert_eq!(pci.io_mem.as_ref().unwrap().paddr(), 0x2000_0000);
    assert_eq!(pci.io_mem.as_ref().unwrap().words.len(), 0x800_0000 / 4);
    assert_eq!(write32(&mut pci, &loc, 0x13, 0xcafe), Ok(()));
    // The low two bits of the offset are dropped.
    assert_eq!(read32(&pci, &loc, 0x10), Ok(0xcafe));
    assert_eq!(pci.io_mem.as_ref().unwrap().read_once(0x810), Ok(0xcafe));
    assert_eq!(read32(&pci, &loc, 0x14), Ok(0));
    // Only the low byte of the offset counts.
    assert_eq!(read32(&pci, &loc, 0x110), Ok(0xcafe));
    assert_eq!(hal_core::arch::loongarch::pci::init(&mut pci), Ok(()));
    assert_eq!(read32(&pci, &loc, 0x10), Ok(0xcafe));
    let far = PciDeviceLocation { bus: 255, device: 31, function: 7 };
    assert_eq!(read32(&pci, &far, 0), Ok(0));
    let mut small = PciIoMem { io_mem: Some(hal_core::io_mem::IoMem::new(0, 0x100)) };
    assert_eq!(read32(&small, &loc, 0), Err(IoError::InvalidArgs));
    assert_eq!(write32(&mut small, &loc, 0, 1), Err(IoError::InvalidArgs));
}

#[test]
fn boot_parameters() {
    assert_eq!(parse_bootloader_name(), "Unknown");
    assert_eq!(
        parse_kernel_commandline(),
        "SHELL=/bin/sh LOGNAME=root HOME=/ USER=root PATH=/bin init=/bin/busybox ostd.log_level=trace -- ls -alh /"
    );
    assert_eq!(parse_acpi_arg(), BootloaderAcpiArg::NotProvided);
    assert_eq!(parse_framebuffer_info(), None);
    assert_eq!(parse_initramfs_range(), None);
    assert!(cpu_config_supported(48, 48));
    assert!(!cpu_config_supported(48, 39));
    assert!(!cpu_config_supported(40, 48));
}

#[test]
fn memory_regions_in_order() {
    let kernel = MemoryRegion { base: 0x9000_0000, len: 0x20_0000, typ: MemoryRegionType::Kernel };
    let usable = MemoryRegion { base: 0x8000_0000, len: 0x7000_0000, typ: MemoryRegionType::Usable };
    assert_eq!(parse_memory_regions(kernel, None), vec![usable, kernel]);
    assert_eq!(
        parse_memory_regions(kernel, Some((0xa000_0000, 0xa010_0000))),
        vec![
            usable,
            kernel,
            MemoryRegion { base: 0xa000_0000, len: 0x10_0000, typ: MemoryRegionType::Module }
        ]
    );
}

#[test]
fn page_table_root() {
    assert_eq!(current_page_table_paddr(0x0000_0000_9000_0123, 0x0000_0000_9000_0123), 0x9000_0000);
    assert_eq!(current_page_table_paddr(u64::MAX, u64::MAX), 0x0000_ffff_ffff_f000);
    assert!(is_valid_root(0x9000_0000));
    assert!(!is_valid_root(0x9000_0800));
    assert_eq!(PagingConsts::NR_LEVELS, 4);
    assert_eq!(PagingConsts::ADDRESS_WIDTH, 48);
    assert_eq!(PagingConsts::PTE_SIZE, 8);
}

#[test]
fn small_constants() {
    assert_eq!(read_random(), None);
    enable_cpu_features();
    assert_eq!(exit_value(QemuExitCode::Success), 0x34);
    assert_eq!(exit_value(QemuExitCode::Failed), 0x34);
    assert_eq!(EXIT_ADDR, 0x8000_0000_100e_001c);
}

#[test]
fn clocks_stand_at_new_year() {
    let la = RtcLoongarch::try_new().unwrap();
    assert_eq!(
        la.read_rtc(),
        SystemTime { year: 2023, month: 1, day: 1, hour: 0, minute: 0, second: 0, nanos: 0 }
    );
    let ls = RtcLoongson::try_new().unwrap();
    assert_eq!(
        ls.read_rtc(),
        SystemTime { year: 2025, month: 1, day: 1, hour: 0, minute: 0, second: 0, nanos: 0 }
    );
}

#[test]
fn log_timestamp_and_colours() {
    assert_eq!(timestamp(0), Timestamp { secs: 0, millis: 0 });
    assert_eq!(timestamp(999), Timestamp { secs: 0, millis: 999 });
    assert_eq!(timestamp(12_345), Timestamp { secs: 12, millis: 345 });
    assert_eq!(timestamp(u64::MAX), Timestamp { secs: 18_446_744_073_709_551, millis: 615 });
    assert_eq!(level_color(Level::Error), Color::Red);
    assert_eq!(level_color(Level::Warn), Color::BrightYellow);
    assert_eq!(level_color(Level::Info), Color::Blue);
    assert_eq!(level_color(Level::Debug), Color::BrightGreen);
    assert_eq!(level_color(Level::Trace), Color::BrightBlack);
}

#[test]
fn file_types_convert_both_ways() {
    let pairs = [
        (FileType::RegularFile, InodeType::File),
        (FileType::Directory, InodeType::Dir),
        (FileType::CharacterDev, InodeType::CharDevice),
        (FileType::BlockDev, InodeType::BlockDevice),
        (FileType::Fifo, InodeType::NamedPipe),
        (FileType::Socket, InodeType::Socket),
        (FileType::SymLink, InodeType::SymLink),
    ];
    for (f, i) in pairs {
        assert_eq!(InodeType::from_file_type(f), i);
        assert_eq!(FileType::from_inode_type(i), f);
    }
}

#[test]
fn file_system_sizes_and_offsets() {
    assert_eq!(BLOCK_SIZE, 4096);
    assert_eq!(ROOT_INO, 2);
    assert_eq!(NAME_MAX, 255);
    assert!(is_block_aligned(0));
    assert!(is_block_aligned(8192));
    assert!(!is_block_aligned(8191));
    assert_eq!(block_offset(0), 0);
    assert_eq!(block_offset(3), 12288);
    assert_eq!(read_len(100, 40, 1000), 60);
    assert_eq!(read_len(100, 40, 10), 10);
    assert_eq!(read_len(100, 100, 10), 0);
    assert_eq!(read_len(100, 0, 100), 100);
    assert_eq!(device_id(InodeType::BlockDevice), 0);
    assert_eq!(device_id(InodeType::File), 0);
    assert_eq!(stored_secs(5), 5);
    assert_eq!(stored_secs(0x1_0000_0007), 7);
}

#[test]
fn file_type_checks() {
    assert_eq!(check_writable(InodeType::File), Ok(()));
    assert_eq!(check_writable(InodeType::Dir), Err(Errno::EISDIR));
    assert_eq!(check_writable(InodeType::SymLink), Err(Errno::EISDIR));
    assert_eq!(check_link(InodeType::SymLink), Ok(()));
    assert_eq!(check_link(InodeType::File), Err(Errno::EISDIR));
    assert_eq!(lookup(Some(11)), Ok(11));
    assert_eq!(lookup(None), Err(Errno::ENOENT));
    assert_eq!(ioctl(0x5401, 0), Err(Errno::EINVAL));
}

#[test]
fn super_block_from_counts() {
    let sb = hal_core::ext4::super_block(1000, 400, 64, 60);
    assert_eq!(
        sb,
        hal_core::ext4::SuperBlock {
            magic: 0,
            bsize: 4096,
            blocks: 1000,
            bfree: 400,
            bavail: 400,
            files: 64,
            ffree: 60,
            fsid: 0,
            namelen: 255,
            frsize: 4096,
            flags: 0
        }
    );
}

fn dir() -> Vec<DirEntry> {
    vec![
        DirEntry { inode: 2, file_type: FileType::Directory, rec_len: 12 },
        DirEntry { inode: 2, file_type: FileType::Directory, rec_len: 12 },
        DirEntry { inode: 11, file_type: FileType::RegularFile, rec_len: 20 },
        DirEntry { inode: 12, file_type: FileType::SymLink, rec_len: 4052 },
    ]
}

#[test]
fn readdir_from_the_start() {
    let r = readdir_at(&dir(), 0, 10);
    assert_eq!(r.read, Some(4096));
    assert_eq!(r.first, 0);
    assert_eq!(
        r.visited,
        vec![
            Dirent { index: 0, ino: 2, type_: InodeType::Dir, rec_len: 12 },
            Dirent { index: 1, ino: 2, type_: InodeType::Dir, rec_len: 12 },
            Dirent { index: 2, ino: 11, type_: InodeType::File, rec_len: 20 },
            Dirent { index: 3, ino: 12, type_: InodeType::SymLink, rec_len: 4052 },
        ]
    );
}

#[test]
fn readdir_skips_what_lies_before_the_offset() {
    let r = readdir_at(&dir(), 24, 10);
    assert_eq!(r.first, 2);
    assert_eq!(r.visited.iter().map(|d| d.index).collect::<Vec<_>>(), vec![2, 3]);
    assert_eq!(r.read, Some(4096));
    // An offset inside an entry starts at the next entry.
    let r = readdir_at(&dir(), 13, 10);
    assert_eq!(r.first, 2);
    let r = readdir_at(&dir(), 5000, 10);
    assert_eq!(r.first, 4);
    assert!(r.visited.is_empty());
    assert_eq!(r.read, Some(4096));
}

#[test]
fn readdir_stops_when_the_reader_is_full() {
    let r = readdir_at(&dir(), 0, 2);
    assert_eq!(r.visited.len(), 2);
    assert_eq!(r.read, Some(24));
    let r = readdir_at(&dir(), 12, 1);
    assert_eq!(r.first, 1);
    assert_eq!(r.visited.iter().map(|d| d.index).collect::<Vec<_>>(), vec![1]);
    assert_eq!(r.read, Some(24));
    // A reader that takes nothing at the very start fails.
    let r = readdir_at(&dir(), 0, 0);
    assert_eq!(r.read, None);
    assert!(r.visited.is_empty());
    let r = readdir_at(&dir(), 12, 0);
    assert_eq!(r.read, Some(12));
    let r = readdir_at(&Vec::new(), 0, 0);
    assert_eq!(r.read, Some(0));
    assert_eq!(r.first, 0);
}
