//! What the file system adapter decides by itself: types, sizes and
//! offsets. Reading and writing the disk is left to its caller.

use vstd::prelude::*;

verus! {

/// The size of a block of the file system in bytes.
pub const BLOCK_SIZE: usize = 4096;

/// The number of the root directory.
pub const ROOT_INO: usize = 2;

/// The greatest length of a file name in bytes.
pub const NAME_MAX: usize = 255;

/// The type of a file as the file system on disk records it.
#[derive(Clone, Copy, Debug, PartialEq, Eq, Structural)]
pub enum FileType {
    Unknown,
    RegularFile,
    Directory,
    CharacterDev,
    BlockDev,
    Fifo,
    Socket,
    SymLink,
}

/// The type of a file as the kernel knows it.
#[derive(Clone, Copy, Debug, PartialEq, Eq, Structural)]
pub enum InodeType {
    NamedPipe,
    CharDevice,
    Dir,
    BlockDevice,
    File,
    SymLink,
    Socket,
}

/// Why an operation on a file failed.
#[derive(Clone, Copy, Debug, PartialEq, Eq, Structural)]
pub enum Errno {
    /// No such file or directory.
    ENOENT,
    /// The file is of the wrong type for the operation.
    EISDIR,
    /// An argument is not valid.
    EINVAL,
}

impl InodeType {
    /// The type that the kernel knows `file_type` as.
    pub open spec fn of(file_type: FileType) -> InodeType {
        match file_type {
            FileType::RegularFile => InodeType::File,
            FileType::Directory => InodeType::Dir,
            FileType::CharacterDev => InodeType::CharDevice,
            FileType::BlockDev => InodeType::BlockDevice,
            FileType::Fifo => InodeType::NamedPipe,
            FileType::Socket => InodeType::Socket,
            _ => InodeType::SymLink,
        }
    }

    /// The type that the kernel knows `file_type` as. The kernel has no
    /// type for a file of unknown type.
    pub fn from_file_type(file_type: FileType) -> (r: InodeType)
        requires
            file_type != FileType::Unknown,
        ensures
            r == InodeType::of(file_type),
            FileType::of(r) == file_type,
    {
        match file_type {
            FileType::RegularFile => InodeType::File,
            FileType::Directory => InodeType::Dir,
            FileType::CharacterDev => InodeType::CharDevice,
            FileType::BlockDev => InodeType::BlockDevice,
            FileType::Fifo => InodeType::NamedPipe,
            FileType::Socket => InodeType::Socket,
            _ => InodeType::SymLink,
        }
    }
}

impl FileType {
    /// The type that the file system records for `value`.
    pub open spec fn of(value: InodeType) -> FileType {
        match value {
            InodeType::File => FileType::RegularFile,
            InodeType::Dir => FileType::Directory,
            InodeType::CharDevice => FileType::CharacterDev,
            InodeType::BlockDevice => FileType::BlockDev,
            InodeType::NamedPipe => FileType::Fifo,
            InodeType::Socket => FileType::Socket,
            InodeType::SymLink => FileType::SymLink,
        }
    }

    /// The type that the file system records for `value`. It is never
    /// unknown, and converting it back gives `value`.
    pub fn from_inode_type(value: InodeType) -> (r: FileType)
        ensures
            r == FileType::of(value),
            r != FileType::Unknown,
            InodeType::of(r) == value,
    {
        match value {
            InodeType::File => FileType::RegularFile,
            InodeType::Dir => FileType::Directory,
            InodeType::CharDevice => FileType::CharacterDev,
            InodeType::BlockDevice => FileType::BlockDev,
            InodeType::NamedPipe => FileType::Fifo,
            InodeType::Socket => FileType::Socket,
            InodeType::SymLink => FileType::SymLink,
        }
    }
}

/// Whether `offset` is the start of a block.
pub fn is_block_aligned(offset: usize) -> (r: bool)
    ensures
        r == (offset % BLOCK_SIZE == 0),
{
    offset % BLOCK_SIZE == 0
}

/// The offset on the device of the block with number `block_id`.
pub fn block_offset(block_id: u64) -> (r: usize)
    requires
        block_id * BLOCK_SIZE <= usize::MAX,
    ensures
        r == block_id * BLOCK_SIZE,
        r % BLOCK_SIZE == 0,
{
    (block_id as usize) * BLOCK_SIZE
}

/// The device that a file of type `inode_type` stands for. Device numbers
/// are not stored yet, so every file gives 0.
pub fn device_id(inode_type: InodeType) -> (r: u64)
    ensures
        r == 0,
{
    if inode_type != InodeType::BlockDevice && inode_type != InodeType::CharDevice {
        return 0;
    }
    0
}

/// How many bytes a read at `offset` gives of a file of `file_size` bytes
/// into a buffer with room for `avail`: what is left of the file, but no
/// more than the buffer holds.
pub fn read_len(file_size: usize, offset: usize, avail: usize) -> (r: usize)
    requires
        offset <= file_size,
    ensures
        r <= avail,
        r <= file_size - offset,
        r == avail || r == file_size - offset,
{
    let left: usize = file_size - offset;
    if left < avail {
        left
    } else {
        avail
    }
}

/// Whether bytes can be written to a file of type `inode_type`: only a
/// regular file takes them.
pub fn check_writable(inode_type: InodeType) -> (r: Result<(), Errno>)
    ensures
        r == (if inode_type == InodeType::File {
            Ok::<(), Errno>(())
        } else {
            Err::<(), Errno>(Errno::EISDIR)
        }),
{
    if inode_type != InodeType::File {
        return Err(Errno::EISDIR);
    }
    Ok(())
}

/// Whether a file of type `inode_type` holds the target of a link: only a
/// symbolic link does.
pub fn check_link(inode_type: InodeType) -> (r: Result<(), Errno>)
    ensures
        r == (if inode_type == InodeType::SymLink {
            Ok::<(), Errno>(())
        } else {
            Err::<(), Errno>(Errno::EISDIR)
        }),
{
    if inode_type != InodeType::SymLink {
        return Err(Errno::EISDIR);
    }
    Ok(())
}

/// The number of the file that a lookup in a directory found, or the
/// error of a lookup that found none.
pub fn lookup(found: Option<u32>) -> (r: Result<u32, Errno>)
    ensures
        r == (match found {
            Some(ino) => Ok::<u32, Errno>(ino),
            None => Err::<u32, Errno>(Errno::ENOENT),
        }),
{
    match found {
        Some(ino) => Ok(ino),
        None => Err(Errno::ENOENT),
    }
}

/// Runs a device command on a file. The file system knows no command.
pub fn ioctl(_cmd: u32, _arg: usize) -> (r: Result<i32, Errno>)
    ensures
        r == Err::<i32, Errno>(Errno::EINVAL),
{
    Err(Errno::EINVAL)
}

/// The seconds of a time stamp as the file system stores them: the low 32
/// bits.
pub fn stored_secs(secs: u64) -> (r: u32)
    ensures
        r == secs % 0x1_0000_0000,
{
    assert(secs & 0xffff_ffffu64 == secs % 0x1_0000_0000u64) by (bit_vector);
    assert(secs & 0xffff_ffffu64 <= 0xffff_ffffu64) by (bit_vector);
    (secs & 0xffff_ffff) as u32
}

/// What the file system tells of itself.
#[derive(Clone, Copy, Debug, PartialEq, Eq, Structural)]
pub struct SuperBlock {
    pub magic: u64,
    pub bsize: usize,
    pub blocks: usize,
    pub bfree: usize,
    pub bavail: usize,
    pub files: usize,
    pub ffree: usize,
    pub fsid: u64,
    pub namelen: usize,
    pub frsize: usize,
    pub flags: u64,
}

/// What the file system tells of itself, from the counts of its blocks and
/// files and of those that are free. Every free block is available.
pub fn super_block(blocks: usize, free_blocks: usize, files: usize, free_files: usize) -> (r:
    SuperBlock)
    ensures
        r == (SuperBlock {
            magic: 0,
            bsize: BLOCK_SIZE,
            blocks,
            bfree: free_blocks,
            bavail: free_blocks,
            files,
            ffree: free_files,
            fsid: 0,
            namelen: NAME_MAX,
            frsize: BLOCK_SIZE,
            flags: 0,
        }),
{
    SuperBlock {
        magic: 0x0,
        bsize: BLOCK_SIZE,
        blocks,
        bfree: free_blocks,
        bavail: free_blocks,
        files,
        ffree: free_files,
        fsid: 0,
        namelen: NAME_MAX,
        frsize: BLOCK_SIZE,
        flags: 0,
    }
}

/// An entry of a directory as it lies on disk.
#[derive(Clone, Copy, Debug, PartialEq, Eq, Structural)]
pub struct DirEntry {
    /// The number of the file.
    pub inode: u32,
    /// The type of the file.
    pub file_type: FileType,
    /// How many bytes the entry takes in the directory.
    pub rec_len: u16,
}

/// An entry of a directory as a reader of the directory sees it.
#[derive(Clone, Copy, Debug, PartialEq, Eq, Structural)]
pub struct Dirent {
    /// The position of the entry in the directory.
    pub index: usize,
    /// The number of the file.
    pub ino: u64,
    /// The type of the file.
    pub type_: InodeType,
    /// How many bytes the entry takes in the directory.
    pub rec_len: usize,
}

/// What reading a directory gave.
#[derive(Debug)]
pub struct DirRead {
    /// How many bytes of the directory were passed, or `None` where the
    /// reader took nothing and nothing was passed.
    pub read: Option<usize>,
    /// The position of the first entry that lies at or behind the offset.
    pub first: usize,
    /// The entries handed to the reader, in order.
    pub visited: Vec<Dirent>,
}

/// The greatest number of entries that a directory read takes.
pub const MAX_DIR_ENTRIES: usize = 0x1_0000;

/// The offset of entry `i` in its directory: the bytes that the entries
/// before it take.
pub open spec fn offset_of(entries: Seq<DirEntry>, i: int) -> int
    decreases i,
{
    if i <= 0 {
        0
    } else {
        offset_of(entries, i - 1) + entries[i - 1].rec_len
    }
}

/// What a reader sees of entry `i`.
pub open spec fn dirent_of(entries: Seq<DirEntry>, i: int) -> Dirent {
    Dirent {
        index: i as usize,
        ino: entries[i].inode as u64,
        type_: InodeType::of(entries[i].file_type),
        rec_len: entries[i].rec_len as usize,
    }
}

proof fn lemma_offset_bounds(entries: Seq<DirEntry>, i: int, j: int)
    requires
        0 <= i <= j <= entries.len(),
    ensures
        0 <= offset_of(entries, i) <= offset_of(entries, j) <= j * 0xffff,
    decreases j,
{
    if i < j {
        lemma_offset_bounds(entries, i, j - 1);
    } else if j > 0 {
        lemma_offset_bounds(entries, i - 1, j - 1);
    }
}

/// Reads the directory `entries` from `offset` on for a reader that takes
/// `room` entries: the entries that lie at or behind `offset` are handed
/// over in order until the directory ends or the reader is full. The
/// result tells how many bytes of the directory were passed, counted from
/// its start up to the entry that the reader did not take; where the
/// reader took nothing and nothing was passed, it tells nothing.
#[verifier::rlimit(40)]
pub fn readdir_at(entries: &Vec<DirEntry>, offset: usize, room: usize) -> (r: DirRead)
    requires
        entries@.len() <= MAX_DIR_ENTRIES,
        forall|i: int|
            0 <= i < entries@.len() ==> (#[trigger] entries@[i]).file_type != FileType::Unknown,
    ensures
        r.first <= entries@.len(),
        forall|i: int| 0 <= i < r.first ==> offset_of(entries@, i) < offset,
        r.first < entries@.len() ==> offset_of(entries@, r.first as int) >= offset,
        r.visited@.len() == (if entries@.len() - r.first <= room {
            entries@.len() - r.first
        } else {
            room as int
        }),
        forall|k: int|
            0 <= k < r.visited@.len() ==> #[trigger] r.visited@[k] == dirent_of(
                entries@,
                r.first + k,
            ),
        r.read == (if r.first + r.visited@.len() < entries@.len() && offset_of(
            entries@,
            r.first + r.visited@.len(),
        ) == 0 {
            None
        } else {
            Some(offset_of(entries@, r.first + r.visited@.len()) as usize)
        }),
{
    let mut visited: Vec<Dirent> = Vec::new();
    let mut acc_offset: usize = 0;
    let mut first: usize = 0;
    let mut i: usize = 0;
    let mut failed: bool = false;
    proof {
        lemma_offset_bounds(entries@, 0, 0);
    }
    while i < entries.len() && !failed
        invariant
            i <= entries@.len() <= MAX_DIR_ENTRIES,
            forall|j: int|
                0 <= j < entries@.len() ==> (#[trigger] entries@[j]).file_type
                    != FileType::Unknown,
            first <= i,
            acc_offset == offset_of(entries@, i as int),
            forall|j: int| 0 <= j < first ==> offset_of(entries@, j) < offset,
            first < i ==> offset_of(entries@, first as int) >= offset,
            visited@.len() == i - first,
            visited@.len() <= room,
            forall|k: int|
                0 <= k < visited@.len() ==> #[trigger] visited@[k] == dirent_of(
                    entries@,
                    first + k,
                ),
            failed ==> i < entries@.len() && acc_offset >= offset && visited@.len() == room,
        decreases entries@.len() - i + (if failed { 0int } else { 1int }),
    {
        proof {
            lemma_offset_bounds(entries@, i as int, i + 1);
            lemma_offset_bounds(entries@, first as int, i as int);
        }
        let entry: DirEntry = entries[i];
        if acc_offset >= offset {
            if visited.len() == room {
                failed = true;
            } else {
                visited.push(
                    Dirent {
                        index: i,
                        ino: entry.inode as u64,
                        type_: InodeType::from_file_type(entry.file_type),
                        rec_len: entry.rec_len as usize,
                    },
                );
            }
        } else {
            first = i + 1;
        }
        if !failed {
            acc_offset += entry.rec_len as usize;
            i += 1;
        }
    }
    let read = if failed && acc_offset == 0 {
        None
    } else {
        Some(acc_offset)
    };
    DirRead { read, first, visited }
}

} // verus!
