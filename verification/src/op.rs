//! Typed views over the payload of a decoded kernel request.
//!
//! Each request frame is a 40-byte in-header followed by an opcode-specific
//! payload. The payload structs below expose the fixed-width fields by
//! value and names or data regions as borrows into the read buffer; nothing
//! is copied but the fixed-width fields themselves.

use vstd::prelude::*;
use crate::wire::{le32_at, le64_at, get_u32, get_u64};
use crate::kernel::{
    OP_LOOKUP, OP_FORGET, OP_GETATTR, OP_SETATTR, OP_READLINK, OP_SYMLINK, OP_MKNOD, OP_MKDIR,
    OP_UNLINK, OP_RMDIR, OP_RENAME, OP_LINK, OP_OPEN, OP_READ, OP_WRITE, OP_STATFS, OP_RELEASE,
    OP_FSYNC, OP_SETXATTR, OP_GETXATTR, OP_LISTXATTR, OP_REMOVEXATTR, OP_FLUSH, OP_INIT,
    OP_OPENDIR, OP_READDIR, OP_RELEASEDIR, OP_FSYNCDIR, OP_GETLK, OP_SETLK, OP_SETLKW, OP_ACCESS,
    OP_CREATE, OP_INTERRUPT, OP_BMAP, OP_DESTROY, OP_IOCTL, OP_POLL, OP_NOTIFY_REPLY,
    OP_BATCH_FORGET, OP_FALLOCATE, OP_READDIRPLUS, OP_RENAME2, OP_COPY_FILE_RANGE,
};

verus! {

// Bits of the `valid` field of a SETATTR request.
pub const FATTR_MODE: u32 = 0x1;
pub const FATTR_UID: u32 = 0x2;
pub const FATTR_GID: u32 = 0x4;
pub const FATTR_SIZE: u32 = 0x8;
pub const FATTR_ATIME: u32 = 0x10;
pub const FATTR_MTIME: u32 = 0x20;
pub const FATTR_FH: u32 = 0x40;
pub const FATTR_ATIME_NOW: u32 = 0x80;
pub const FATTR_MTIME_NOW: u32 = 0x100;
pub const FATTR_LOCKOWNER: u32 = 0x200;
pub const FATTR_CTIME: u32 = 0x400;

/// Index of the first zero byte of `b`, or `b.len()` when none exists.
pub open spec fn first_nul(b: Seq<u8>) -> int
    decreases b.len(),
{
    if b.len() == 0 {
        0
    } else if b[0] == 0 {
        0
    } else {
        1 + first_nul(b.skip(1))
    }
}

/// `b` holds a zero terminator.
pub open spec fn has_nul(b: Seq<u8>) -> bool {
    first_nul(b) < b.len()
}

/// The bytes of a zero-terminated name: everything before the first zero.
pub open spec fn nul_name(b: Seq<u8>) -> Seq<u8> {
    b.take(first_nul(b))
}

/// What follows the first zero byte of `b`.
pub open spec fn after_nul(b: Seq<u8>) -> Seq<u8> {
    b.skip(first_nul(b) + 1)
}

/// `first_nul` is the position of the first zero: if the bytes before `i`
/// are non-zero and `b[i]` is zero (or `i` is the end), the first zero is at `i`.
pub proof fn lemma_first_nul_at(b: Seq<u8>, i: int)
    requires
        0 <= i <= b.len(),
        forall|j: int| 0 <= j < i ==> b[j] != 0,
        i < b.len() ==> b[i] == 0,
    ensures
        first_nul(b) == i,
    decreases i,
{
    if i == 0 {
    } else {
        assert(b[0] != 0);
        lemma_first_nul_at(b.skip(1), i - 1);
    }
}

/// Find the first zero byte of `p`.
pub fn find_nul(p: &[u8]) -> (r: Option<usize>)
    ensures
        match r {
            Some(i) => first_nul(p@) == i && i < p@.len() && p@[i as int] == 0,
            None => first_nul(p@) == p@.len(),
        },
{
    let n = p.len();
    for i in 0..n
        invariant
            n == p@.len(),
            forall|j: int| 0 <= j < i ==> p@[j] != 0,
    {
        if *vstd::slice::slice_index_get(p, i) == 0 {
            proof {
                lemma_first_nul_at(p@, i as int);
            }
            return Some(i);
        }
    }
    proof {
        lemma_first_nul_at(p@, n as int);
    }
    None
}

/// Fixed-width fields of a READ, READDIR or READDIRPLUS request.
#[derive(Clone, Copy, Debug, PartialEq, Eq, Structural)]
pub struct ReadIn {
    pub fh: u64,
    pub offset: u64,
    pub size: u32,
    pub read_flags: u32,
    pub lock_owner: u64,
    pub flags: u32,
}

pub open spec fn spec_read_in(p: Seq<u8>) -> ReadIn
    recommends
        p.len() >= 40,
{
    ReadIn {
        fh: le64_at(p, 0),
        offset: le64_at(p, 8),
        size: le32_at(p, 16),
        read_flags: le32_at(p, 20),
        lock_owner: le64_at(p, 24),
        flags: le32_at(p, 32),
    }
}

pub fn parse_read_in(p: &[u8]) -> (r: ReadIn)
    requires
        p@.len() >= 40,
    ensures
        r == spec_read_in(p@),
{
    ReadIn {
        fh: get_u64(p, 0),
        offset: get_u64(p, 8),
        size: get_u32(p, 16),
        read_flags: get_u32(p, 20),
        lock_owner: get_u64(p, 24),
        flags: get_u32(p, 32),
    }
}

/// Fixed-width fields of a WRITE request; the data region follows them.
#[derive(Clone, Copy, Debug, PartialEq, Eq, Structural)]
pub struct WriteIn {
    pub fh: u64,
    pub offset: u64,
    pub size: u32,
    pub write_flags: u32,
    pub lock_owner: u64,
    pub flags: u32,
}

pub open spec fn spec_write_in(p: Seq<u8>) -> WriteIn
    recommends
        p.len() >= 40,
{
    WriteIn {
        fh: le64_at(p, 0),
        offset: le64_at(p, 8),
        size: le32_at(p, 16),
        write_flags: le32_at(p, 20),
        lock_owner: le64_at(p, 24),
        flags: le32_at(p, 32),
    }
}

pub fn parse_write_in(p: &[u8]) -> (r: WriteIn)
    requires
        p@.len() >= 40,
    ensures
        r == spec_write_in(p@),
{
    WriteIn {
        fh: get_u64(p, 0),
        offset: get_u64(p, 8),
        size: get_u32(p, 16),
        write_flags: get_u32(p, 20),
        lock_owner: get_u64(p, 24),
        flags: get_u32(p, 32),
    }
}

/// Fixed-width fields of a RELEASE or RELEASEDIR request.
#[derive(Clone, Copy, Debug, PartialEq, Eq, Structural)]
pub struct ReleaseIn {
    pub fh: u64,
    pub flags: u32,
    pub release_flags: u32,
    pub lock_owner: u64,
}

pub open spec fn spec_release_in(p: Seq<u8>) -> ReleaseIn
    recommends
        p.len() >= 24,
{
    ReleaseIn {
        fh: le64_at(p, 0),
        flags: le32_at(p, 8),
        release_flags: le32_at(p, 12),
        lock_owner: le64_at(p, 16),
    }
}

pub fn parse_release_in(p: &[u8]) -> (r: ReleaseIn)
    requires
        p@.len() >= 24,
    ensures
        r == spec_release_in(p@),
{
    ReleaseIn {
        fh: get_u64(p, 0),
        flags: get_u32(p, 8),
        release_flags: get_u32(p, 12),
        lock_owner: get_u64(p, 16),
    }
}

/// Fields of the kernel's INIT request.
#[derive(Clone, Copy, Debug, PartialEq, Eq, Structural)]
pub struct InitIn {
    pub major: u32,
    pub minor: u32,
    pub max_readahead: u32,
    pub flags: u32,
}

pub open spec fn spec_init_in(p: Seq<u8>) -> InitIn
    recommends
        p.len() >= 16,
{
    InitIn {
        major: le32_at(p, 0),
        minor: le32_at(p, 4),
        max_readahead: le32_at(p, 8),
        flags: le32_at(p, 12),
    }
}

pub fn parse_init_in(p: &[u8]) -> (r: InitIn)
    requires
        p@.len() >= 16,
    ensures
        r == spec_init_in(p@),
{
    InitIn {
        major: get_u32(p, 0),
        minor: get_u32(p, 4),
        max_readahead: get_u32(p, 8),
        flags: get_u32(p, 12),
    }
}

/// Fields of a SETATTR request.
#[derive(Clone, Copy, Debug, PartialEq, Eq, Structural)]
pub struct SetattrIn {
    pub valid: u32,
    pub fh: u64,
    pub size: u64,
    pub lock_owner: u64,
    pub atime: u64,
    pub mtime: u64,
    pub ctime: u64,
    pub atimensec: u32,
    pub mtimensec: u32,
    pub ctimensec: u32,
    pub mode: u32,
    pub uid: u32,
    pub gid: u32,
}

pub open spec fn spec_setattr_in(p: Seq<u8>) -> SetattrIn
    recommends
        p.len() >= 88,
{
    SetattrIn {
        valid: le32_at(p, 0),
        fh: le64_at(p, 8),
        size: le64_at(p, 16),
        lock_owner: le64_at(p, 24),
        atime: le64_at(p, 32),
        mtime: le64_at(p, 40),
        ctime: le64_at(p, 48),
        atimensec: le32_at(p, 56),
        mtimensec: le32_at(p, 60),
        ctimensec: le32_at(p, 64),
        mode: le32_at(p, 68),
        uid: le32_at(p, 76),
        gid: le32_at(p, 80),
    }
}

pub fn parse_setattr_in(p: &[u8]) -> (r: SetattrIn)
    requires
        p@.len() >= 88,
    ensures
        r == spec_setattr_in(p@),
{
    SetattrIn {
        valid: get_u32(p, 0),
        fh: get_u64(p, 8),
        size: get_u64(p, 16),
        lock_owner: get_u64(p, 24),
        atime: get_u64(p, 32),
        mtime: get_u64(p, 40),
        ctime: get_u64(p, 48),
        atimensec: get_u32(p, 56),
        mtimensec: get_u32(p, 60),
        ctimensec: get_u32(p, 64),
        mode: get_u32(p, 68),
        uid: get_u32(p, 76),
        gid: get_u32(p, 80),
    }
}

/// A timestamp carried by SETATTR: a concrete instant, the sentinel
/// meaning "now", or absent.
#[derive(Clone, Copy, Debug, PartialEq, Eq, Structural)]
pub enum SetTime {
    At { sec: u64, nsec: u32 },
    Now,
    Omit,
}

impl SetattrIn {
    /// The access-time change requested, with the "now" sentinel made
    /// explicit in the variant rather than by a magic value.
    pub fn atime_target(&self) -> (r: SetTime)
        ensures
            r == (if self.valid & FATTR_ATIME == 0 {
                SetTime::Omit
            } else if self.valid & FATTR_ATIME_NOW != 0 {
                SetTime::Now
            } else {
                SetTime::At { sec: self.atime, nsec: self.atimensec }
            }),
    {
        if self.valid & FATTR_ATIME == 0 {
            SetTime::Omit
        } else if self.valid & FATTR_ATIME_NOW != 0 {
            SetTime::Now
        } else {
            SetTime::At { sec: self.atime, nsec: self.atimensec }
        }
    }

    /// The modification-time change requested.
    pub fn mtime_target(&self) -> (r: SetTime)
        ensures
            r == (if self.valid & FATTR_MTIME == 0 {
                SetTime::Omit
            } else if self.valid & FATTR_MTIME_NOW != 0 {
                SetTime::Now
            } else {
                SetTime::At { sec: self.mtime, nsec: self.mtimensec }
            }),
    {
        if self.valid & FATTR_MTIME == 0 {
            SetTime::Omit
        } else if self.valid & FATTR_MTIME_NOW != 0 {
            SetTime::Now
        } else {
            SetTime::At { sec: self.mtime, nsec: self.mtimensec }
        }
    }
}

/// Fixed-width fields of the three file-lock requests.
#[derive(Clone, Copy, Debug, PartialEq, Eq, Structural)]
pub struct LkIn {
    pub fh: u64,
    pub owner: u64,
    pub start: u64,
    pub end: u64,
    pub typ: u32,
    pub pid: u32,
    pub lk_flags: u32,
}

pub open spec fn spec_lk_in(p: Seq<u8>) -> LkIn
    recommends
        p.len() >= 48,
{
    LkIn {
        fh: le64_at(p, 0),
        owner: le64_at(p, 8),
        start: le64_at(p, 16),
        end: le64_at(p, 24),
        typ: le32_at(p, 32),
        pid: le32_at(p, 36),
        lk_flags: le32_at(p, 40),
    }
}

pub fn parse_lk_in(p: &[u8]) -> (r: LkIn)
    requires
        p@.len() >= 48,
    ensures
        r == spec_lk_in(p@),
{
    LkIn {
        fh: get_u64(p, 0),
        owner: get_u64(p, 8),
        start: get_u64(p, 16),
        end: get_u64(p, 24),
        typ: get_u32(p, 32),
        pid: get_u32(p, 36),
        lk_flags: get_u32(p, 40),
    }
}

/// Fixed-width fields of an IOCTL request; the input region follows them.
#[derive(Clone, Copy, Debug, PartialEq, Eq, Structural)]
pub struct IoctlIn {
    pub fh: u64,
    pub flags: u32,
    pub cmd: u32,
    pub arg: u64,
    pub in_size: u32,
    pub out_size: u32,
}

pub open spec fn spec_ioctl_in(p: Seq<u8>) -> IoctlIn
    recommends
        p.len() >= 32,
{
    IoctlIn {
        fh: le64_at(p, 0),
        flags: le32_at(p, 8),
        cmd: le32_at(p, 12),
        arg: le64_at(p, 16),
        in_size: le32_at(p, 24),
        out_size: le32_at(p, 28),
    }
}

pub fn parse_ioctl_in(p: &[u8]) -> (r: IoctlIn)
    requires
        p@.len() >= 32,
    ensures
        r == spec_ioctl_in(p@),
{
    IoctlIn {
        fh: get_u64(p, 0),
        flags: get_u32(p, 8),
        cmd: get_u32(p, 12),
        arg: get_u64(p, 16),
        in_size: get_u32(p, 24),
        out_size: get_u32(p, 28),
    }
}

/// Fields of a POLL request.
#[derive(Clone, Copy, Debug, PartialEq, Eq, Structural)]
pub struct PollIn {
    pub fh: u64,
    pub kh: u64,
    pub flags: u32,
    pub events: u32,
}

pub open spec fn spec_poll_in(p: Seq<u8>) -> PollIn
    recommends
        p.len() >= 24,
{
    PollIn { fh: le64_at(p, 0), kh: le64_at(p, 8), flags: le32_at(p, 16), events: le32_at(p, 20) }
}

pub fn parse_poll_in(p: &[u8]) -> (r: PollIn)
    requires
        p@.len() >= 24,
    ensures
        r == spec_poll_in(p@),
{
    PollIn { fh: get_u64(p, 0), kh: get_u64(p, 8), flags: get_u32(p, 16), events: get_u32(p, 20) }
}

/// Fields of a FALLOCATE request.
#[derive(Clone, Copy, Debug, PartialEq, Eq, Structural)]
pub struct FallocateIn {
    pub fh: u64,
    pub offset: u64,
    pub length: u64,
    pub mode: u32,
}

pub open spec fn spec_fallocate_in(p: Seq<u8>) -> FallocateIn
    recommends
        p.len() >= 32,
{
    FallocateIn {
        fh: le64_at(p, 0),
        offset: le64_at(p, 8),
        length: le64_at(p, 16),
        mode: le32_at(p, 24),
    }
}

pub fn parse_fallocate_in(p: &[u8]) -> (r: FallocateIn)
    requires
        p@.len() >= 32,
    ensures
        r == spec_fallocate_in(p@),
{
    FallocateIn {
        fh: get_u64(p, 0),
        offset: get_u64(p, 8),
        length: get_u64(p, 16),
        mode: get_u32(p, 24),
    }
}

/// Fields of a COPY_FILE_RANGE request.
#[derive(Clone, Copy, Debug, PartialEq, Eq, Structural)]
pub struct CopyFileRangeIn {
    pub fh_in: u64,
    pub off_in: u64,
    pub nodeid_out: u64,
    pub fh_out: u64,
    pub off_out: u64,
    pub len: u64,
    pub flags: u64,
}

pub open spec fn spec_copy_file_range_in(p: Seq<u8>) -> CopyFileRangeIn
    recommends
        p.len() >= 56,
{
    CopyFileRangeIn {
        fh_in: le64_at(p, 0),
        off_in: le64_at(p, 8),
        nodeid_out: le64_at(p, 16),
        fh_out: le64_at(p, 24),
        off_out: le64_at(p, 32),
        len: le64_at(p, 40),
        flags: le64_at(p, 48),
    }
}

pub fn parse_copy_file_range_in(p: &[u8]) -> (r: CopyFileRangeIn)
    requires
        p@.len() >= 56,
    ensures
        r == spec_copy_file_range_in(p@),
{
    CopyFileRangeIn {
        fh_in: get_u64(p, 0),
        off_in: get_u64(p, 8),
        nodeid_out: get_u64(p, 16),
        fh_out: get_u64(p, 24),
        off_out: get_u64(p, 32),
        len: get_u64(p, 40),
        flags: get_u64(p, 48),
    }
}

/// One entry of a BATCH_FORGET request.
#[derive(Clone, Copy, Debug, PartialEq, Eq, Structural)]
pub struct ForgetOne {
    pub nodeid: u64,
    pub nlookup: u64,
}

/// The typed payload of one decoded request frame.
pub enum Operation<'a> {
    Lookup { name: &'a [u8] },
    Forget { nlookup: u64 },
    Getattr { flags: u32, fh: u64 },
    Setattr { arg: SetattrIn },
    Readlink,
    Symlink { name: &'a [u8], link: &'a [u8] },
    Mknod { mode: u32, rdev: u32, umask: u32, name: &'a [u8] },
    Mkdir { mode: u32, umask: u32, name: &'a [u8] },
    Unlink { name: &'a [u8] },
    Rmdir { name: &'a [u8] },
    Rename { newdir: u64, name: &'a [u8], newname: &'a [u8] },
    Rename2 { newdir: u64, flags: u32, name: &'a [u8], newname: &'a [u8] },
    Link { oldnodeid: u64, newname: &'a [u8] },
    Open { flags: u32 },
    Read { arg: ReadIn },
    Write { arg: WriteIn, data: &'a [u8] },
    Statfs,
    Release { arg: ReleaseIn },
    Fsync { fh: u64, fsync_flags: u32 },
    Setxattr { flags: u32, name: &'a [u8], value: &'a [u8] },
    Getxattr { size: u32, name: &'a [u8] },
    Listxattr { size: u32 },
    Removexattr { name: &'a [u8] },
    Flush { fh: u64, lock_owner: u64 },
    Init { arg: InitIn },
    Opendir { flags: u32 },
    Readdir { arg: ReadIn },
    Readdirplus { arg: ReadIn },
    Releasedir { arg: ReleaseIn },
    Fsyncdir { fh: u64, fsync_flags: u32 },
    Getlk { arg: LkIn },
    Setlk { arg: LkIn },
    Setlkw { arg: LkIn },
    Access { mask: u32 },
    Create { flags: u32, mode: u32, umask: u32, name: &'a [u8] },
    Interrupt { unique: u64 },
    Bmap { block: u64, blocksize: u32 },
    Destroy,
    Ioctl { arg: IoctlIn, data: &'a [u8] },
    Poll { arg: PollIn },
    NotifyReply { offset: u64, size: u32, data: &'a [u8] },
    BatchForget { forgets: Vec<ForgetOne> },
    Fallocate { arg: FallocateIn },
    CopyFileRange { arg: CopyFileRangeIn },
    Unknown { opcode: u32 },
}

/// The opcodes this library decodes into a typed variant.
pub open spec fn is_known_opcode(c: u32) -> bool {
    ||| c == OP_LOOKUP
    ||| c == OP_FORGET
    ||| c == OP_GETATTR
    ||| c == OP_SETATTR
    ||| c == OP_READLINK
    ||| c == OP_SYMLINK
    ||| c == OP_MKNOD
    ||| c == OP_MKDIR
    ||| c == OP_UNLINK
    ||| c == OP_RMDIR
    ||| c == OP_RENAME
    ||| c == OP_RENAME2
    ||| c == OP_LINK
    ||| c == OP_OPEN
    ||| c == OP_READ
    ||| c == OP_WRITE
    ||| c == OP_STATFS
    ||| c == OP_RELEASE
    ||| c == OP_FSYNC
    ||| c == OP_SETXATTR
    ||| c == OP_GETXATTR
    ||| c == OP_LISTXATTR
    ||| c == OP_REMOVEXATTR
    ||| c == OP_FLUSH
    ||| c == OP_INIT
    ||| c == OP_OPENDIR
    ||| c == OP_READDIR
    ||| c == OP_READDIRPLUS
    ||| c == OP_RELEASEDIR
    ||| c == OP_FSYNCDIR
    ||| c == OP_GETLK
    ||| c == OP_SETLK
    ||| c == OP_SETLKW
    ||| c == OP_ACCESS
    ||| c == OP_CREATE
    ||| c == OP_INTERRUPT
    ||| c == OP_BMAP
    ||| c == OP_DESTROY
    ||| c == OP_IOCTL
    ||| c == OP_POLL
    ||| c == OP_NOTIFY_REPLY
    ||| c == OP_BATCH_FORGET
    ||| c == OP_FALLOCATE
    ||| c == OP_COPY_FILE_RANGE
}

/// Whether a payload is well-formed for the given opcode: long enough for
/// the fixed-width fields, every name zero-terminated, every declared data
/// region within bounds. An unknown opcode accepts any payload.
pub open spec fn payload_wf(c: u32, p: Seq<u8>) -> bool {
    if c == OP_LOOKUP || c == OP_UNLINK || c == OP_RMDIR || c == OP_REMOVEXATTR {
        has_nul(p)
    } else if c == OP_FORGET || c == OP_INTERRUPT {
        p.len() >= 8
    } else if c == OP_GETATTR || c == OP_BMAP {
        p.len() >= 16
    } else if c == OP_SETATTR {
        p.len() >= 88
    } else if c == OP_READLINK || c == OP_STATFS || c == OP_DESTROY {
        true
    } else if c == OP_SYMLINK {
        has_nul(p) && has_nul(after_nul(p))
    } else if c == OP_MKNOD {
        p.len() >= 16 && has_nul(p.skip(16))
    } else if c == OP_MKDIR {
        p.len() >= 8 && has_nul(p.skip(8))
    } else if c == OP_RENAME {
        p.len() >= 8 && has_nul(p.skip(8)) && has_nul(after_nul(p.skip(8)))
    } else if c == OP_RENAME2 {
        p.len() >= 16 && has_nul(p.skip(16)) && has_nul(after_nul(p.skip(16)))
    } else if c == OP_LINK {
        p.len() >= 8 && has_nul(p.skip(8))
    } else if c == OP_OPEN || c == OP_OPENDIR || c == OP_LISTXATTR || c == OP_ACCESS {
        p.len() >= 8
    } else if c == OP_READ || c == OP_READDIR || c == OP_READDIRPLUS {
        p.len() >= 40
    } else if c == OP_WRITE {
        p.len() >= 40 && 40 + le32_at(p, 16) <= p.len()
    } else if c == OP_RELEASE || c == OP_RELEASEDIR || c == OP_FLUSH || c == OP_POLL {
        p.len() >= 24
    } else if c == OP_FSYNC || c == OP_FSYNCDIR || c == OP_INIT || c == OP_CREATE {
        if c == OP_CREATE {
            p.len() >= 16 && has_nul(p.skip(16))
        } else {
            p.len() >= 16
        }
    } else if c == OP_SETXATTR {
        p.len() >= 8 && has_nul(p.skip(8)) && le32_at(p, 0) <= after_nul(p.skip(8)).len()
    } else if c == OP_GETXATTR {
        p.len() >= 8 && has_nul(p.skip(8))
    } else if c == OP_GETLK || c == OP_SETLK || c == OP_SETLKW {
        p.len() >= 48
    } else if c == OP_IOCTL {
        p.len() >= 32 && 32 + le32_at(p, 24) <= p.len()
    } else if c == OP_NOTIFY_REPLY {
        p.len() >= 40 && 40 + le32_at(p, 16) <= p.len()
    } else if c == OP_BATCH_FORGET {
        p.len() >= 8 && 8 + 16 * le32_at(p, 0) <= p.len()
    } else if c == OP_FALLOCATE {
        p.len() >= 32
    } else if c == OP_COPY_FILE_RANGE {
        p.len() >= 56
    } else {
        true
    }
}

/// The decoded operation a well-formed payload pins down: each variant's
/// fields equal the little-endian readings at the kernel's offsets, names
/// are the bytes before their zero terminator, and data regions are the
/// declared subranges.
pub open spec fn op_matches(op: Operation, c: u32, p: Seq<u8>) -> bool {
    match op {
        Operation::Lookup { name } => c == OP_LOOKUP && name@ == nul_name(p),
        Operation::Forget { nlookup } => c == OP_FORGET && nlookup == le64_at(p, 0),
        Operation::Getattr { flags, fh } => c == OP_GETATTR && flags == le32_at(p, 0) && fh
            == le64_at(p, 8),
        Operation::Setattr { arg } => c == OP_SETATTR && arg == spec_setattr_in(p),
        Operation::Readlink => c == OP_READLINK,
        Operation::Symlink { name, link } => c == OP_SYMLINK && name@ == nul_name(p) && link@
            == nul_name(after_nul(p)),
        Operation::Mknod { mode, rdev, umask, name } => c == OP_MKNOD && mode == le32_at(p, 0)
            && rdev == le32_at(p, 4) && umask == le32_at(p, 8) && name@ == nul_name(p.skip(16)),
        Operation::Mkdir { mode, umask, name } => c == OP_MKDIR && mode == le32_at(p, 0) && umask
            == le32_at(p, 4) && name@ == nul_name(p.skip(8)),
        Operation::Unlink { name } => c == OP_UNLINK && name@ == nul_name(p),
        Operation::Rmdir { name } => c == OP_RMDIR && name@ == nul_name(p),
        Operation::Rename { newdir, name, newname } => c == OP_RENAME && newdir == le64_at(p, 0)
            && name@ == nul_name(p.skip(8)) && newname@ == nul_name(after_nul(p.skip(8))),
        Operation::Rename2 { newdir, flags, name, newname } => c == OP_RENAME2 && newdir
            == le64_at(p, 0) && flags == le32_at(p, 8) && name@ == nul_name(p.skip(16)) && newname@
            == nul_name(after_nul(p.skip(16))),
        Operation::Link { oldnodeid, newname } => c == OP_LINK && oldnodeid == le64_at(p, 0)
            && newname@ == nul_name(p.skip(8)),
        Operation::Open { flags } => c == OP_OPEN && flags == le32_at(p, 0),
        Operation::Read { arg } => c == OP_READ && arg == spec_read_in(p),
        Operation::Write { arg, data } => c == OP_WRITE && arg == spec_write_in(p) && data@
            == p.subrange(40, 40 + le32_at(p, 16)),
        Operation::Statfs => c == OP_STATFS,
        Operation::Release { arg } => c == OP_RELEASE && arg == spec_release_in(p),
        Operation::Fsync { fh, fsync_flags } => c == OP_FSYNC && fh == le64_at(p, 0) && fsync_flags
            == le32_at(p, 8),
        Operation::Setxattr { flags, name, value } => c == OP_SETXATTR && flags == le32_at(p, 4)
            && name@ == nul_name(p.skip(8)) && value@ == after_nul(p.skip(8)).take(
            le32_at(p, 0) as int,
        ),
        Operation::Getxattr { size, name } => c == OP_GETXATTR && size == le32_at(p, 0) && name@
            == nul_name(p.skip(8)),
        Operation::Listxattr { size } => c == OP_LISTXATTR && size == le32_at(p, 0),
        Operation::Removexattr { name } => c == OP_REMOVEXATTR && name@ == nul_name(p),
        Operation::Flush { fh, lock_owner } => c == OP_FLUSH && fh == le64_at(p, 0) && lock_owner
            == le64_at(p, 16),
        Operation::Init { arg } => c == OP_INIT && arg == spec_init_in(p),
        Operation::Opendir { flags } => c == OP_OPENDIR && flags == le32_at(p, 0),
        Operation::Readdir { arg } => c == OP_READDIR && arg == spec_read_in(p),
        Operation::Readdirplus { arg } => c == OP_READDIRPLUS && arg == spec_read_in(p),
        Operation::Releasedir { arg } => c == OP_RELEASEDIR && arg == spec_release_in(p),
        Operation::Fsyncdir { fh, fsync_flags } => c == OP_FSYNCDIR && fh == le64_at(p, 0)
            && fsync_flags == le32_at(p, 8),
        Operation::Getlk { arg } => c == OP_GETLK && arg == spec_lk_in(p),
        Operation::Setlk { arg } => c == OP_SETLK && arg == spec_lk_in(p),
        Operation::Setlkw { arg } => c == OP_SETLKW && arg == spec_lk_in(p),
        Operation::Access { mask } => c == OP_ACCESS && mask == le32_at(p, 0),
        Operation::Create { flags, mode, umask, name } => c == OP_CREATE && flags == le32_at(p, 0)
            && mode == le32_at(p, 4) && umask == le32_at(p, 8) && name@ == nul_name(p.skip(16)),
        Operation::Interrupt { unique } => c == OP_INTERRUPT && unique == le64_at(p, 0),
        Operation::Bmap { block, blocksize } => c == OP_BMAP && block == le64_at(p, 0) && blocksize
            == le32_at(p, 8),
        Operation::Destroy => c == OP_DESTROY,
        Operation::Ioctl { arg, data } => c == OP_IOCTL && arg == spec_ioctl_in(p) && data@
            == p.subrange(32, 32 + le32_at(p, 24)),
        Operation::Poll { arg } => c == OP_POLL && arg == spec_poll_in(p),
        Operation::NotifyReply { offset, size, data } => c == OP_NOTIFY_REPLY && offset
            == le64_at(p, 8) && size == le32_at(p, 16) && data@ == p.subrange(
            40,
            40 + le32_at(p, 16),
        ),
        Operation::BatchForget { forgets } => c == OP_BATCH_FORGET && forgets@.len() == le32_at(
            p,
            0,
        ) && forall|i: int|
            0 <= i < forgets@.len() ==> #[trigger] forgets@[i] == ForgetOne {
                nodeid: le64_at(p, 8 + 16 * i),
                nlookup: le64_at(p, 16 + 16 * i),
            },
        Operation::Fallocate { arg } => c == OP_FALLOCATE && arg == spec_fallocate_in(p),
        Operation::CopyFileRange { arg } => c == OP_COPY_FILE_RANGE && arg
            == spec_copy_file_range_in(p),
        Operation::Unknown { opcode } => opcode == c && !is_known_opcode(c),
    }
}

} // verus!
