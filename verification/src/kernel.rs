//! Constants and fixed-layout headers of the FUSE kernel protocol.
//!
//! The numeric values mirror the kernel's own protocol definitions: every
//! request begins with a 40-byte in-header and every reply with a 16-byte
//! out-header, both little-endian on the supported targets.

use vstd::prelude::*;
use vstd::bytes::*;
use crate::wire::{le32_at, le64_at, put_u32, put_u64, get_u32, get_u64};

verus! {

/// Protocol major version this library speaks.
pub const PROTO_MAJOR: u32 = 7;

/// Protocol minor version this library speaks.
pub const PROTO_MINOR: u32 = 31;

/// Oldest kernel minor version the library accepts at the handshake.
pub const MIN_PROTO_MINOR: u32 = 23;

/// Smallest read buffer the device accepts for a single request.
pub const MIN_READ_BUFFER: usize = 8192;

/// Size in bytes of the fixed header that prefixes every kernel request.
pub const IN_HEADER_LEN: usize = 40;

/// Size in bytes of the fixed header that prefixes every reply.
pub const OUT_HEADER_LEN: usize = 16;

// Request opcodes.
pub const OP_LOOKUP: u32 = 1;
pub const OP_FORGET: u32 = 2;
pub const OP_GETATTR: u32 = 3;
pub const OP_SETATTR: u32 = 4;
pub const OP_READLINK: u32 = 5;
pub const OP_SYMLINK: u32 = 6;
pub const OP_MKNOD: u32 = 8;
pub const OP_MKDIR: u32 = 9;
pub const OP_UNLINK: u32 = 10;
pub const OP_RMDIR: u32 = 11;
pub const OP_RENAME: u32 = 12;
pub const OP_LINK: u32 = 13;
pub const OP_OPEN: u32 = 14;
pub const OP_READ: u32 = 15;
pub const OP_WRITE: u32 = 16;
pub const OP_STATFS: u32 = 17;
pub const OP_RELEASE: u32 = 18;
pub const OP_FSYNC: u32 = 20;
pub const OP_SETXATTR: u32 = 21;
pub const OP_GETXATTR: u32 = 22;
pub const OP_LISTXATTR: u32 = 23;
pub const OP_REMOVEXATTR: u32 = 24;
pub const OP_FLUSH: u32 = 25;
pub const OP_INIT: u32 = 26;
pub const OP_OPENDIR: u32 = 27;
pub const OP_READDIR: u32 = 28;
pub const OP_RELEASEDIR: u32 = 29;
pub const OP_FSYNCDIR: u32 = 30;
pub const OP_GETLK: u32 = 31;
pub const OP_SETLK: u32 = 32;
pub const OP_SETLKW: u32 = 33;
pub const OP_ACCESS: u32 = 34;
pub const OP_CREATE: u32 = 35;
pub const OP_INTERRUPT: u32 = 36;
pub const OP_BMAP: u32 = 37;
pub const OP_DESTROY: u32 = 38;
pub const OP_IOCTL: u32 = 39;
pub const OP_POLL: u32 = 40;
pub const OP_NOTIFY_REPLY: u32 = 41;
pub const OP_BATCH_FORGET: u32 = 42;
pub const OP_FALLOCATE: u32 = 43;
pub const OP_READDIRPLUS: u32 = 44;
pub const OP_RENAME2: u32 = 45;
pub const OP_COPY_FILE_RANGE: u32 = 47;

// Capability bits negotiated at the handshake.
pub const CAP_ASYNC_READ: u32 = 0x1;
pub const CAP_POSIX_LOCKS: u32 = 0x2;
pub const CAP_FILE_OPS: u32 = 0x4;
pub const CAP_ATOMIC_O_TRUNC: u32 = 0x8;
pub const CAP_EXPORT_SUPPORT: u32 = 0x10;
pub const CAP_BIG_WRITES: u32 = 0x20;
pub const CAP_DONT_MASK: u32 = 0x40;
pub const CAP_SPLICE_WRITE: u32 = 0x80;
pub const CAP_SPLICE_MOVE: u32 = 0x100;
pub const CAP_SPLICE_READ: u32 = 0x200;
pub const CAP_FLOCK_LOCKS: u32 = 0x400;
pub const CAP_HAS_IOCTL_DIR: u32 = 0x800;
pub const CAP_AUTO_INVAL_DATA: u32 = 0x1000;
pub const CAP_DO_READDIRPLUS: u32 = 0x2000;
pub const CAP_READDIRPLUS_AUTO: u32 = 0x4000;
pub const CAP_ASYNC_DIO: u32 = 0x8000;
pub const CAP_WRITEBACK_CACHE: u32 = 0x10000;
pub const CAP_NO_OPEN_SUPPORT: u32 = 0x20000;
pub const CAP_PARALLEL_DIROPS: u32 = 0x40000;
pub const CAP_HANDLE_KILLPRIV: u32 = 0x80000;
pub const CAP_POSIX_ACL: u32 = 0x100000;
pub const CAP_ABORT_ERROR: u32 = 0x200000;
pub const CAP_MAX_PAGES: u32 = 0x400000;
pub const CAP_CACHE_SYMLINKS: u32 = 0x800000;
pub const CAP_EXPLICIT_INVAL_DATA: u32 = 0x2000000;

// Notification codes carried in the out-header of a library-initiated frame.
pub const NOTIFY_POLL: u32 = 1;
pub const NOTIFY_INVAL_INODE: u32 = 2;
pub const NOTIFY_INVAL_ENTRY: u32 = 3;
pub const NOTIFY_STORE: u32 = 4;
pub const NOTIFY_RETRIEVE: u32 = 5;
pub const NOTIFY_DELETE: u32 = 6;

// Errno values the session itself produces or treats specially.
pub const ENOENT: u32 = 2;
pub const EIO: u32 = 5;
pub const ENODEV: u32 = 19;
pub const EINVAL: u32 = 22;
pub const ENOSYS: u32 = 38;
pub const EINTR: u32 = 4;

/// The fixed 40-byte header that prefixes every kernel request.
#[derive(Clone, Copy, Debug, PartialEq, Eq, Structural)]
pub struct InHeader {
    /// Total frame length, header included.
    pub len: u32,
    /// Request opcode.
    pub opcode: u32,
    /// Identifier the reply must echo.
    pub unique: u64,
    /// Inode number the request refers to.
    pub nodeid: u64,
    /// Credentials of the calling process.
    pub uid: u32,
    pub gid: u32,
    pub pid: u32,
    /// Reserved field, kept verbatim.
    pub padding: u32,
}

/// The in-header encoded by a byte sequence, read little-endian at the
/// kernel's fixed offsets.
pub open spec fn spec_in_header(b: Seq<u8>) -> InHeader
    recommends
        b.len() >= 40,
{
    InHeader {
        len: le32_at(b, 0),
        opcode: le32_at(b, 4),
        unique: le64_at(b, 8),
        nodeid: le64_at(b, 16),
        uid: le32_at(b, 24),
        gid: le32_at(b, 28),
        pid: le32_at(b, 32),
        padding: le32_at(b, 36),
    }
}

/// The 40 bytes that encode an in-header.
pub open spec fn spec_in_header_bytes(h: InHeader) -> Seq<u8> {
    spec_u32_to_le_bytes(h.len) + spec_u32_to_le_bytes(h.opcode) + spec_u64_to_le_bytes(h.unique)
        + spec_u64_to_le_bytes(h.nodeid) + spec_u32_to_le_bytes(h.uid) + spec_u32_to_le_bytes(
        h.gid,
    ) + spec_u32_to_le_bytes(h.pid) + spec_u32_to_le_bytes(h.padding)
}

/// Parse the in-header at the start of `buf`.
pub fn parse_in_header(buf: &[u8]) -> (h: InHeader)
    requires
        buf@.len() >= 40,
    ensures
        h == spec_in_header(buf@),
{
    InHeader {
        len: get_u32(buf, 0),
        opcode: get_u32(buf, 4),
        unique: get_u64(buf, 8),
        nodeid: get_u64(buf, 16),
        uid: get_u32(buf, 24),
        gid: get_u32(buf, 28),
        pid: get_u32(buf, 32),
        padding: get_u32(buf, 36),
    }
}

/// Append the 40-byte encoding of `h` to `buf`.
pub fn put_in_header(buf: &mut Vec<u8>, h: &InHeader)
    ensures
        final(buf)@ == old(buf)@ + spec_in_header_bytes(*h),
        final(buf)@.len() == old(buf)@.len() + 40,
{
    proof {
        lemma_auto_spec_u32_to_from_le_bytes();
        lemma_auto_spec_u64_to_from_le_bytes();
    }
    put_u32(buf, h.len);
    put_u32(buf, h.opcode);
    put_u64(buf, h.unique);
    put_u64(buf, h.nodeid);
    put_u32(buf, h.uid);
    put_u32(buf, h.gid);
    put_u32(buf, h.pid);
    put_u32(buf, h.padding);
}

/// Encoding and parsing of an in-header are mutually inverse.
pub proof fn lemma_in_header_round_trip(h: InHeader)
    ensures
        spec_in_header_bytes(h).len() == 40,
        spec_in_header(spec_in_header_bytes(h)) == h,
{
    lemma_auto_spec_u32_to_from_le_bytes();
    lemma_auto_spec_u64_to_from_le_bytes();
    let b = spec_in_header_bytes(h);
    assert(b.subrange(0, 4) =~= spec_u32_to_le_bytes(h.len));
    assert(b.subrange(4, 8) =~= spec_u32_to_le_bytes(h.opcode));
    assert(b.subrange(8, 16) =~= spec_u64_to_le_bytes(h.unique));
    assert(b.subrange(16, 24) =~= spec_u64_to_le_bytes(h.nodeid));
    assert(b.subrange(24, 28) =~= spec_u32_to_le_bytes(h.uid));
    assert(b.subrange(28, 32) =~= spec_u32_to_le_bytes(h.gid));
    assert(b.subrange(32, 36) =~= spec_u32_to_le_bytes(h.pid));
    assert(b.subrange(36, 40) =~= spec_u32_to_le_bytes(h.padding));
}

/// The wire value of the out-header `error` field for a reply that fails
/// with `errno`: the two's-complement encoding of `-errno`.
pub open spec fn spec_neg_errno(errno: u32) -> u32
    recommends
        errno <= 0x7fff_ffff,
{
    if errno == 0 {
        0
    } else {
        (0x1_0000_0000 - errno) as u32
    }
}

/// Compute the wire value of `-errno`.
pub fn neg_errno(errno: u32) -> (r: u32)
    requires
        errno <= 0x7fff_ffff,
    ensures
        r == spec_neg_errno(errno),
{
    if errno == 0 {
        0
    } else {
        (0xffff_ffffu32 - errno) + 1
    }
}

/// The 16 bytes of an out-header: total length, error (zero, a negative
/// errno, or a negative notification code), and the echoed unique.
pub open spec fn spec_out_header_bytes(len: u32, error_wire: u32, unique: u64) -> Seq<u8> {
    spec_u32_to_le_bytes(len) + spec_u32_to_le_bytes(error_wire) + spec_u64_to_le_bytes(unique)
}

/// Append the 16-byte out-header to `buf`.
pub fn put_out_header(buf: &mut Vec<u8>, len: u32, error_wire: u32, unique: u64)
    ensures
        final(buf)@ == old(buf)@ + spec_out_header_bytes(len, error_wire, unique),
        final(buf)@.len() == old(buf)@.len() + 16,
{
    proof {
        lemma_auto_spec_u32_to_from_le_bytes();
        lemma_auto_spec_u64_to_from_le_bytes();
    }
    put_u32(buf, len);
    put_u32(buf, error_wire);
    put_u64(buf, unique);
}

} // verus!
