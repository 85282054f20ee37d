//! Reply builders: mutable records the filesystem code fills in and hands
//! back for emission.
//!
//! Each builder owns the exact wire encoding of its reply structure, so
//! every builder is itself an [`AtomicBytes`] value and can be appended to
//! a reply frame without copying. `ReaddirOut` is the streaming builder
//! for directory listings: it appends 8-byte-aligned directory entries
//! until its byte budget is reached.

use vstd::prelude::*;
use vstd::bytes::*;
use crate::wire::{le32_at, le64_at, put_u32, put_u64};
use crate::atomic_bytes::{AtomicBytes, FillBytes, leaf_model, total_len, ChunkSink};
use crate::kernel::{spec_out_header_bytes, put_out_header, spec_neg_errno, neg_errno};

verus! {

/// Replace `src.len()` bytes of `buf` at `off` with `src`.
pub fn splice_bytes(buf: &mut Vec<u8>, off: usize, src: &[u8])
    requires
        off + src@.len() <= old(buf)@.len(),
    ensures
        final(buf)@ == old(buf)@.subrange(0, off as int) + src@ + old(buf)@.subrange(
            off + src@.len(),
            old(buf)@.len() as int,
        ),
        final(buf)@.len() == old(buf)@.len(),
{
    let n = src.len();
    let total = buf.len();
    for k in 0..n
        invariant
            n == src@.len(),
            off + n <= total,
            total == buf@.len(),
            buf@.len() == old(buf)@.len(),
            forall|j: int| #![trigger buf@[j]] 0 <= j < off ==> buf@[j] == old(buf)@[j],
            forall|j: int| #![trigger buf@[j]] off + n <= j < buf@.len() ==> buf@[j] == old(buf)@[j],
            forall|j: int| #![trigger src@[j]] 0 <= j < k ==> buf@[off + j] == src@[j],
            forall|j: int| #![trigger old(buf)@[off + j]] k <= j < n ==> buf@[off + j] == old(buf)@[off + j],
    {
        let b = *vstd::slice::slice_index_get(src, k);
        buf[off + k] = b;
    }
    proof {
        assert(buf@ =~= old(buf)@.subrange(0, off as int) + src@ + old(buf)@.subrange(
            off + src@.len(),
            old(buf)@.len() as int,
        ));
    }
}

/// Replace the four bytes at `off` with the little-endian encoding of `x`.
pub fn splice_u32(buf: &mut Vec<u8>, off: usize, x: u32)
    requires
        off + 4 <= old(buf)@.len(),
    ensures
        final(buf)@ == old(buf)@.subrange(0, off as int) + spec_u32_to_le_bytes(x)
            + old(buf)@.subrange(off + 4, old(buf)@.len() as int),
        final(buf)@.len() == old(buf)@.len(),
{
    proof {
        lemma_auto_spec_u32_to_from_le_bytes();
    }
    let le: Vec<u8> = u32_to_le_bytes(x);
    splice_bytes(buf, off, le.as_slice());
}

/// Replace the eight bytes at `off` with the little-endian encoding of `x`.
pub fn splice_u64(buf: &mut Vec<u8>, off: usize, x: u64)
    requires
        off + 8 <= old(buf)@.len(),
    ensures
        final(buf)@ == old(buf)@.subrange(0, off as int) + spec_u64_to_le_bytes(x)
            + old(buf)@.subrange(off + 8, old(buf)@.len() as int),
        final(buf)@.len() == old(buf)@.len(),
{
    proof {
        lemma_auto_spec_u64_to_from_le_bytes();
    }
    let le: Vec<u8> = u64_to_le_bytes(x);
    splice_bytes(buf, off, le.as_slice());
}

/// The attributes of one inode, as carried inside ENTRY and ATTR replies.
#[derive(Clone, Copy, Debug, PartialEq, Eq, Structural)]
pub struct FileAttr {
    pub ino: u64,
    pub size: u64,
    pub blocks: u64,
    pub atime: u64,
    pub mtime: u64,
    pub ctime: u64,
    pub atimensec: u32,
    pub mtimensec: u32,
    pub ctimensec: u32,
    pub mode: u32,
    pub nlink: u32,
    pub uid: u32,
    pub gid: u32,
    pub rdev: u32,
    pub blksize: u32,
}

/// The 88-byte wire encoding of a `FileAttr`.
pub open spec fn spec_attr_bytes(a: FileAttr) -> Seq<u8> {
    spec_u64_to_le_bytes(a.ino) + spec_u64_to_le_bytes(a.size) + spec_u64_to_le_bytes(a.blocks)
        + spec_u64_to_le_bytes(a.atime) + spec_u64_to_le_bytes(a.mtime) + spec_u64_to_le_bytes(
        a.ctime,
    ) + spec_u32_to_le_bytes(a.atimensec) + spec_u32_to_le_bytes(a.mtimensec)
        + spec_u32_to_le_bytes(a.ctimensec) + spec_u32_to_le_bytes(a.mode) + spec_u32_to_le_bytes(
        a.nlink,
    ) + spec_u32_to_le_bytes(a.uid) + spec_u32_to_le_bytes(a.gid) + spec_u32_to_le_bytes(a.rdev)
        + spec_u32_to_le_bytes(a.blksize) + spec_u32_to_le_bytes(0)
}

/// Encode a `FileAttr` into its 88 wire bytes.
pub fn attr_bytes(a: &FileAttr) -> (r: Vec<u8>)
    ensures
        r@ == spec_attr_bytes(*a),
        r@.len() == 88,
{
    proof {
        lemma_auto_spec_u32_to_from_le_bytes();
        lemma_auto_spec_u64_to_from_le_bytes();
    }
    let mut out: Vec<u8> = Vec::new();
    put_u64(&mut out, a.ino);
    put_u64(&mut out, a.size);
    put_u64(&mut out, a.blocks);
    put_u64(&mut out, a.atime);
    put_u64(&mut out, a.mtime);
    put_u64(&mut out, a.ctime);
    put_u32(&mut out, a.atimensec);
    put_u32(&mut out, a.mtimensec);
    put_u32(&mut out, a.ctimensec);
    put_u32(&mut out, a.mode);
    put_u32(&mut out, a.nlink);
    put_u32(&mut out, a.uid);
    put_u32(&mut out, a.gid);
    put_u32(&mut out, a.rdev);
    put_u32(&mut out, a.blksize);
    put_u32(&mut out, 0);
    out
}

/// Reply to LOOKUP, MKNOD, MKDIR, SYMLINK and LINK: a 128-byte entry
/// record the caller fills field by field; it starts zeroed.
pub struct EntryOut {
    buf: Vec<u8>,
}

impl View for EntryOut {
    type V = Seq<u8>;

    closed spec fn view(&self) -> Seq<u8> {
        self.buf@
    }
}

impl EntryOut {
    /// The record keeps its fixed wire size.
    pub open spec fn wf(&self) -> bool {
        self@.len() == 128
    }

    /// A zeroed entry record.
    pub fn new() -> (r: EntryOut)
        ensures
            r.wf(),
            r@ == Seq::new(128, |i: int| 0u8),
    {
        let buf: Vec<u8> = vec![0u8; 128];
        proof {
            assert(buf@ =~= Seq::new(128, |i: int| 0u8));
        }
        EntryOut { buf }
    }

    /// Set the inode number of the entry.
    pub fn nodeid(&mut self, v: u64)
        requires
            old(self).wf(),
        ensures
            final(self).wf(),
            final(self)@ == old(self)@.subrange(0, 0) + spec_u64_to_le_bytes(v)
                + old(self)@.subrange(8, 128),
    {
        splice_u64(&mut self.buf, 0, v);
    }

    /// Set the generation number of the entry.
    pub fn generation(&mut self, v: u64)
        requires
            old(self).wf(),
        ensures
            final(self).wf(),
            final(self)@ == old(self)@.subrange(0, 8) + spec_u64_to_le_bytes(v)
                + old(self)@.subrange(16, 128),
    {
        splice_u64(&mut self.buf, 8, v);
    }

    /// Set how long the kernel may cache the entry itself.
    pub fn ttl_entry(&mut self, sec: u64, nsec: u32)
        requires
            old(self).wf(),
        ensures
            final(self).wf(),
            final(self)@ == old(self)@.subrange(0, 16) + spec_u64_to_le_bytes(sec)
                + old(self)@.subrange(24, 32) + spec_u32_to_le_bytes(nsec) + old(self)@.subrange(
                36,
                128,
            ),
    {
        splice_u64(&mut self.buf, 16, sec);
        splice_u32(&mut self.buf, 32, nsec);
        proof {
            assert(self@ =~= old(self)@.subrange(0, 16) + spec_u64_to_le_bytes(sec)
                + old(self)@.subrange(24, 32) + spec_u32_to_le_bytes(nsec) + old(self)@.subrange(
                36,
                128,
            ));
        }
    }

    /// Set how long the kernel may cache the attributes.
    pub fn ttl_attr(&mut self, sec: u64, nsec: u32)
        requires
            old(self).wf(),
        ensures
            final(self).wf(),
            final(self)@ == old(self)@.subrange(0, 24) + spec_u64_to_le_bytes(sec)
                + old(self)@.subrange(32, 36) + spec_u32_to_le_bytes(nsec) + old(self)@.subrange(
                40,
                128,
            ),
    {
        splice_u64(&mut self.buf, 24, sec);
        splice_u32(&mut self.buf, 36, nsec);
        proof {
            assert(self@ =~= old(self)@.subrange(0, 24) + spec_u64_to_le_bytes(sec)
                + old(self)@.subrange(32, 36) + spec_u32_to_le_bytes(nsec) + old(self)@.subrange(
                40,
                128,
            ));
        }
    }

    /// Set the attributes of the entry.
    pub fn attr(&mut self, a: &FileAttr)
        requires
            old(self).wf(),
        ensures
            final(self).wf(),
            final(self)@ == old(self)@.subrange(0, 40) + spec_attr_bytes(*a),
    {
        let ab = attr_bytes(a);
        splice_bytes(&mut self.buf, 40, ab.as_slice());
        proof {
            assert(old(self)@.subrange(128, 128) =~= Seq::<u8>::empty());
            assert(self@ =~= old(self)@.subrange(0, 40) + spec_attr_bytes(*a));
        }
    }

    /// The encoded bytes of this reply.
    pub fn bytes(&self) -> (r: &Vec<u8>)
        ensures
            r@ == self@,
    {
        &self.buf
    }
}

impl AtomicBytes for EntryOut {
    open spec fn chunk_model(&self) -> Seq<Seq<u8>> {
        leaf_model(self@)
    }

    proof fn chunk_model_wf(&self) {
    }

    fn size(&self) -> (r: usize) {
        self.buf.as_slice().size()
    }

    fn count(&self) -> (r: usize) {
        self.buf.as_slice().count()
    }

    fn fill_bytes<'a, F: FillBytes<'a>>(&'a self, dst: &mut F) {
        self.buf.as_slice().fill_bytes(dst)
    }
}

/// Reply to GETATTR and SETATTR: attribute TTL plus the attributes,
/// 104 bytes, zeroed at construction.
pub struct AttrOut {
    buf: Vec<u8>,
}

impl View for AttrOut {
    type V = Seq<u8>;

    closed spec fn view(&self) -> Seq<u8> {
        self.buf@
    }
}

impl AttrOut {
    pub open spec fn wf(&self) -> bool {
        self@.len() == 104
    }

    /// A zeroed attribute reply.
    pub fn new() -> (r: AttrOut)
        ensures
            r.wf(),
            r@ == Seq::new(104, |i: int| 0u8),
    {
        let buf: Vec<u8> = vec![0u8; 104];
        proof {
            assert(buf@ =~= Seq::new(104, |i: int| 0u8));
        }
        AttrOut { buf }
    }

    /// Set how long the kernel may cache the attributes.
    pub fn ttl_attr(&mut self, sec: u64, nsec: u32)
        requires
            old(self).wf(),
        ensures
            final(self).wf(),
            final(self)@ == spec_u64_to_le_bytes(sec) + spec_u32_to_le_bytes(nsec)
                + old(self)@.subrange(12, 104),
    {
        splice_u64(&mut self.buf, 0, sec);
        splice_u32(&mut self.buf, 8, nsec);
        proof {
            assert(self@ =~= spec_u64_to_le_bytes(sec) + spec_u32_to_le_bytes(nsec)
                + old(self)@.subrange(12, 104));
        }
    }

    /// Set the attributes.
    pub fn attr(&mut self, a: &FileAttr)
        requires
            old(self).wf(),
        ensures
            final(self).wf(),
            final(self)@ == old(self)@.subrange(0, 16) + spec_attr_bytes(*a),
    {
        let ab = attr_bytes(a);
        splice_bytes(&mut self.buf, 16, ab.as_slice());
        proof {
            assert(self@ =~= old(self)@.subrange(0, 16) + spec_attr_bytes(*a));
        }
    }

    /// The encoded bytes of this reply.
    pub fn bytes(&self) -> (r: &Vec<u8>)
        ensures
            r@ == self@,
    {
        &self.buf
    }
}

impl AtomicBytes for AttrOut {
    open spec fn chunk_model(&self) -> Seq<Seq<u8>> {
        leaf_model(self@)
    }

    proof fn chunk_model_wf(&self) {
    }

    fn size(&self) -> (r: usize) {
        self.buf.as_slice().size()
    }

    fn count(&self) -> (r: usize) {
        self.buf.as_slice().count()
    }

    fn fill_bytes<'a, F: FillBytes<'a>>(&'a self, dst: &mut F) {
        self.buf.as_slice().fill_bytes(dst)
    }
}

/// Reply to OPEN, OPENDIR and the second half of CREATE: file handle and
/// open flags, 16 bytes.
pub struct OpenOut {
    buf: Vec<u8>,
}

impl View for OpenOut {
    type V = Seq<u8>;

    closed spec fn view(&self) -> Seq<u8> {
        self.buf@
    }
}

impl OpenOut {
    pub open spec fn wf(&self) -> bool {
        self@.len() == 16
    }

    /// A zeroed open reply.
    pub fn new() -> (r: OpenOut)
        ensures
            r.wf(),
            r@ == Seq::new(16, |i: int| 0u8),
    {
        let buf: Vec<u8> = vec![0u8; 16];
        proof {
            assert(buf@ =~= Seq::new(16, |i: int| 0u8));
        }
        OpenOut { buf }
    }

    /// Set the file handle the filesystem assigns.
    pub fn fh(&mut self, v: u64)
        requires
            old(self).wf(),
        ensures
            final(self).wf(),
            final(self)@ == spec_u64_to_le_bytes(v) + old(self)@.subrange(8, 16),
    {
        splice_u64(&mut self.buf, 0, v);
        proof {
            assert(self@ =~= spec_u64_to_le_bytes(v) + old(self)@.subrange(8, 16));
        }
    }

    /// Set the open flags.
    pub fn flags(&mut self, v: u32)
        requires
            old(self).wf(),
        ensures
            final(self).wf(),
            final(self)@ == old(self)@.subrange(0, 8) + spec_u32_to_le_bytes(v)
                + old(self)@.subrange(12, 16),
    {
        splice_u32(&mut self.buf, 8, v);
    }

    /// The encoded bytes of this reply.
    pub fn bytes(&self) -> (r: &Vec<u8>)
        ensures
            r@ == self@,
    {
        &self.buf
    }
}

impl AtomicBytes for OpenOut {
    open spec fn chunk_model(&self) -> Seq<Seq<u8>> {
        leaf_model(self@)
    }

    proof fn chunk_model_wf(&self) {
    }

    fn size(&self) -> (r: usize) {
        self.buf.as_slice().size()
    }

    fn count(&self) -> (r: usize) {
        self.buf.as_slice().count()
    }

    fn fill_bytes<'a, F: FillBytes<'a>>(&'a self, dst: &mut F) {
        self.buf.as_slice().fill_bytes(dst)
    }
}

/// Reply to WRITE and COPY_FILE_RANGE: the number of bytes transferred,
/// 8 bytes.
pub struct WriteOut {
    buf: Vec<u8>,
}

impl View for WriteOut {
    type V = Seq<u8>;

    closed spec fn view(&self) -> Seq<u8> {
        self.buf@
    }
}

impl WriteOut {
    pub open spec fn wf(&self) -> bool {
        self@.len() == 8
    }

    /// A zeroed write reply.
    pub fn new() -> (r: WriteOut)
        ensures
            r.wf(),
            r@ == Seq::new(8, |i: int| 0u8),
    {
        let buf: Vec<u8> = vec![0u8; 8];
        proof {
            assert(buf@ =~= Seq::new(8, |i: int| 0u8));
        }
        WriteOut { buf }
    }

    /// Set the number of bytes written.
    pub fn set_size(&mut self, v: u32)
        requires
            old(self).wf(),
        ensures
            final(self).wf(),
            final(self)@ == spec_u32_to_le_bytes(v) + old(self)@.subrange(4, 8),
    {
        splice_u32(&mut self.buf, 0, v);
        proof {
            assert(self@ =~= spec_u32_to_le_bytes(v) + old(self)@.subrange(4, 8));
        }
    }

    /// The encoded bytes of this reply.
    pub fn bytes(&self) -> (r: &Vec<u8>)
        ensures
            r@ == self@,
    {
        &self.buf
    }
}

impl AtomicBytes for WriteOut {
    open spec fn chunk_model(&self) -> Seq<Seq<u8>> {
        leaf_model(self@)
    }

    proof fn chunk_model_wf(&self) {
    }

    fn size(&self) -> (r: usize) {
        self.buf.as_slice().size()
    }

    fn count(&self) -> (r: usize) {
        self.buf.as_slice().count()
    }

    fn fill_bytes<'a, F: FillBytes<'a>>(&'a self, dst: &mut F) {
        self.buf.as_slice().fill_bytes(dst)
    }
}

/// Reply to GETXATTR and LISTXATTR size probes: the needed buffer size,
/// 8 bytes.
pub struct XattrOut {
    buf: Vec<u8>,
}

impl View for XattrOut {
    type V = Seq<u8>;

    closed spec fn view(&self) -> Seq<u8> {
        self.buf@
    }
}

impl XattrOut {
    pub open spec fn wf(&self) -> bool {
        self@.len() == 8
    }

    /// A zeroed attribute-size reply.
    pub fn new() -> (r: XattrOut)
        ensures
            r.wf(),
            r@ == Seq::new(8, |i: int| 0u8),
    {
        let buf: Vec<u8> = vec![0u8; 8];
        proof {
            assert(buf@ =~= Seq::new(8, |i: int| 0u8));
        }
        XattrOut { buf }
    }

    /// Set the size the attribute value would need.
    pub fn set_size(&mut self, v: u32)
        requires
            old(self).wf(),
        ensures
            final(self).wf(),
            final(self)@ == spec_u32_to_le_bytes(v) + old(self)@.subrange(4, 8),
    {
        splice_u32(&mut self.buf, 0, v);
        proof {
            assert(self@ =~= spec_u32_to_le_bytes(v) + old(self)@.subrange(4, 8));
        }
    }

    /// The encoded bytes of this reply.
    pub fn bytes(&self) -> (r: &Vec<u8>)
        ensures
            r@ == self@,
    {
        &self.buf
    }
}

impl AtomicBytes for XattrOut {
    open spec fn chunk_model(&self) -> Seq<Seq<u8>> {
        leaf_model(self@)
    }

    proof fn chunk_model_wf(&self) {
    }

    fn size(&self) -> (r: usize) {
        self.buf.as_slice().size()
    }

    fn count(&self) -> (r: usize) {
        self.buf.as_slice().count()
    }

    fn fill_bytes<'a, F: FillBytes<'a>>(&'a self, dst: &mut F) {
        self.buf.as_slice().fill_bytes(dst)
    }
}


/// Reply to STATFS: the filesystem statistics record, 80 bytes.
pub struct StatfsOut {
    buf: Vec<u8>,
}

impl View for StatfsOut {
    type V = Seq<u8>;

    closed spec fn view(&self) -> Seq<u8> {
        self.buf@
    }
}

impl StatfsOut {
    pub open spec fn wf(&self) -> bool {
        self@.len() == 80
    }

    /// A zeroed statistics reply.
    pub fn new() -> (r: StatfsOut)
        ensures
            r.wf(),
            r@ == Seq::new(80, |i: int| 0u8),
    {
        let buf: Vec<u8> = vec![0u8; 80];
        proof {
            assert(buf@ =~= Seq::new(80, |i: int| 0u8));
        }
        StatfsOut { buf }
    }

    /// Set the block counts: total, free, and available to unprivileged
    /// callers.
    pub fn blocks(&mut self, total: u64, free: u64, avail: u64)
        requires
            old(self).wf(),
        ensures
            final(self).wf(),
            final(self)@ == spec_u64_to_le_bytes(total) + spec_u64_to_le_bytes(free)
                + spec_u64_to_le_bytes(avail) + old(self)@.subrange(24, 80),
    {
        splice_u64(&mut self.buf, 0, total);
        splice_u64(&mut self.buf, 8, free);
        splice_u64(&mut self.buf, 16, avail);
        proof {
            assert(self@ =~= spec_u64_to_le_bytes(total) + spec_u64_to_le_bytes(free)
                + spec_u64_to_le_bytes(avail) + old(self)@.subrange(24, 80));
        }
    }

    /// Set the inode counts: total and free.
    pub fn files(&mut self, total: u64, free: u64)
        requires
            old(self).wf(),
        ensures
            final(self).wf(),
            final(self)@ == old(self)@.subrange(0, 24) + spec_u64_to_le_bytes(total)
                + spec_u64_to_le_bytes(free) + old(self)@.subrange(40, 80),
    {
        splice_u64(&mut self.buf, 24, total);
        splice_u64(&mut self.buf, 32, free);
        proof {
            assert(self@ =~= old(self)@.subrange(0, 24) + spec_u64_to_le_bytes(total)
                + spec_u64_to_le_bytes(free) + old(self)@.subrange(40, 80));
        }
    }

    /// Set the block size, the longest name, and the fragment size.
    pub fn sizes(&mut self, bsize: u32, namelen: u32, frsize: u32)
        requires
            old(self).wf(),
        ensures
            final(self).wf(),
            final(self)@ == old(self)@.subrange(0, 40) + spec_u32_to_le_bytes(bsize)
                + spec_u32_to_le_bytes(namelen) + spec_u32_to_le_bytes(frsize)
                + old(self)@.subrange(52, 80),
    {
        splice_u32(&mut self.buf, 40, bsize);
        splice_u32(&mut self.buf, 44, namelen);
        splice_u32(&mut self.buf, 48, frsize);
        proof {
            assert(self@ =~= old(self)@.subrange(0, 40) + spec_u32_to_le_bytes(bsize)
                + spec_u32_to_le_bytes(namelen) + spec_u32_to_le_bytes(frsize)
                + old(self)@.subrange(52, 80));
        }
    }

    /// The encoded bytes of this reply.
    pub fn bytes(&self) -> (r: &Vec<u8>)
        ensures
            r@ == self@,
    {
        &self.buf
    }
}

impl AtomicBytes for StatfsOut {
    open spec fn chunk_model(&self) -> Seq<Seq<u8>> {
        leaf_model(self@)
    }

    proof fn chunk_model_wf(&self) {
    }

    fn size(&self) -> (r: usize) {
        self.buf.as_slice().size()
    }

    fn count(&self) -> (r: usize) {
        self.buf.as_slice().count()
    }

    fn fill_bytes<'a, F: FillBytes<'a>>(&'a self, dst: &mut F) {
        self.buf.as_slice().fill_bytes(dst)
    }
}

/// Reply to GETLK: the lock that would block, or an unlock record, 24
/// bytes.
pub struct LkOut {
    buf: Vec<u8>,
}

impl View for LkOut {
    type V = Seq<u8>;

    closed spec fn view(&self) -> Seq<u8> {
        self.buf@
    }
}

impl LkOut {
    pub open spec fn wf(&self) -> bool {
        self@.len() == 24
    }

    /// A zeroed lock reply.
    pub fn new() -> (r: LkOut)
        ensures
            r.wf(),
            r@ == Seq::new(24, |i: int| 0u8),
    {
        let buf: Vec<u8> = vec![0u8; 24];
        proof {
            assert(buf@ =~= Seq::new(24, |i: int| 0u8));
        }
        LkOut { buf }
    }

    /// Set the whole file-lock record.
    pub fn lock(&mut self, start: u64, end: u64, typ: u32, pid: u32)
        requires
            old(self).wf(),
        ensures
            final(self).wf(),
            final(self)@ == spec_u64_to_le_bytes(start) + spec_u64_to_le_bytes(end)
                + spec_u32_to_le_bytes(typ) + spec_u32_to_le_bytes(pid),
    {
        splice_u64(&mut self.buf, 0, start);
        splice_u64(&mut self.buf, 8, end);
        splice_u32(&mut self.buf, 16, typ);
        splice_u32(&mut self.buf, 20, pid);
        proof {
            assert(self@ =~= spec_u64_to_le_bytes(start) + spec_u64_to_le_bytes(end)
                + spec_u32_to_le_bytes(typ) + spec_u32_to_le_bytes(pid));
        }
    }

    /// The encoded bytes of this reply.
    pub fn bytes(&self) -> (r: &Vec<u8>)
        ensures
            r@ == self@,
    {
        &self.buf
    }
}

impl AtomicBytes for LkOut {
    open spec fn chunk_model(&self) -> Seq<Seq<u8>> {
        leaf_model(self@)
    }

    proof fn chunk_model_wf(&self) {
    }

    fn size(&self) -> (r: usize) {
        self.buf.as_slice().size()
    }

    fn count(&self) -> (r: usize) {
        self.buf.as_slice().count()
    }

    fn fill_bytes<'a, F: FillBytes<'a>>(&'a self, dst: &mut F) {
        self.buf.as_slice().fill_bytes(dst)
    }
}

/// Reply to BMAP: the mapped block number, 8 bytes.
pub struct BmapOut {
    buf: Vec<u8>,
}

impl View for BmapOut {
    type V = Seq<u8>;

    closed spec fn view(&self) -> Seq<u8> {
        self.buf@
    }
}

impl BmapOut {
    pub open spec fn wf(&self) -> bool {
        self@.len() == 8
    }

    /// A zeroed block-map reply.
    pub fn new() -> (r: BmapOut)
        ensures
            r.wf(),
            r@ == Seq::new(8, |i: int| 0u8),
    {
        let buf: Vec<u8> = vec![0u8; 8];
        proof {
            assert(buf@ =~= Seq::new(8, |i: int| 0u8));
        }
        BmapOut { buf }
    }

    /// Set the device block the queried block maps to.
    pub fn block(&mut self, v: u64)
        requires
            old(self).wf(),
        ensures
            final(self).wf(),
            final(self)@ == spec_u64_to_le_bytes(v),
    {
        splice_u64(&mut self.buf, 0, v);
        proof {
            assert(self@ =~= spec_u64_to_le_bytes(v));
        }
    }

    /// The encoded bytes of this reply.
    pub fn bytes(&self) -> (r: &Vec<u8>)
        ensures
            r@ == self@,
    {
        &self.buf
    }
}

impl AtomicBytes for BmapOut {
    open spec fn chunk_model(&self) -> Seq<Seq<u8>> {
        leaf_model(self@)
    }

    proof fn chunk_model_wf(&self) {
    }

    fn size(&self) -> (r: usize) {
        self.buf.as_slice().size()
    }

    fn count(&self) -> (r: usize) {
        self.buf.as_slice().count()
    }

    fn fill_bytes<'a, F: FillBytes<'a>>(&'a self, dst: &mut F) {
        self.buf.as_slice().fill_bytes(dst)
    }
}

/// Reply to POLL: the ready events, 8 bytes.
pub struct PollOut {
    buf: Vec<u8>,
}

impl View for PollOut {
    type V = Seq<u8>;

    closed spec fn view(&self) -> Seq<u8> {
        self.buf@
    }
}

impl PollOut {
    pub open spec fn wf(&self) -> bool {
        self@.len() == 8
    }

    /// A zeroed poll reply.
    pub fn new() -> (r: PollOut)
        ensures
            r.wf(),
            r@ == Seq::new(8, |i: int| 0u8),
    {
        let buf: Vec<u8> = vec![0u8; 8];
        proof {
            assert(buf@ =~= Seq::new(8, |i: int| 0u8));
        }
        PollOut { buf }
    }

    /// Set the events that are ready.
    pub fn revents(&mut self, v: u32)
        requires
            old(self).wf(),
        ensures
            final(self).wf(),
            final(self)@ == spec_u32_to_le_bytes(v) + old(self)@.subrange(4, 8),
    {
        splice_u32(&mut self.buf, 0, v);
        proof {
            assert(self@ =~= spec_u32_to_le_bytes(v) + old(self)@.subrange(4, 8));
        }
    }

    /// The encoded bytes of this reply.
    pub fn bytes(&self) -> (r: &Vec<u8>)
        ensures
            r@ == self@,
    {
        &self.buf
    }
}

impl AtomicBytes for PollOut {
    open spec fn chunk_model(&self) -> Seq<Seq<u8>> {
        leaf_model(self@)
    }

    proof fn chunk_model_wf(&self) {
    }

    fn size(&self) -> (r: usize) {
        self.buf.as_slice().size()
    }

    fn count(&self) -> (r: usize) {
        self.buf.as_slice().count()
    }

    fn fill_bytes<'a, F: FillBytes<'a>>(&'a self, dst: &mut F) {
        self.buf.as_slice().fill_bytes(dst)
    }
}

/// The streaming READDIR reply builder: constructed with the byte budget
/// the request allows, it appends one 8-byte-aligned directory entry per
/// `entry` call until an entry no longer fits.
pub struct ReaddirOut {
    buf: Vec<u8>,
    budget: usize,
}

/// The unpadded size of one directory entry record: a 24-byte header plus
/// the name.
pub open spec fn dirent_raw_len(name_len: int) -> int {
    24 + name_len
}

/// The size of one directory entry record padded to the next multiple
/// of eight.
pub open spec fn dirent_padded_len(name_len: int) -> int {
    ((dirent_raw_len(name_len) + 7) / 8) * 8
}

/// The wire bytes of one directory entry: ino, offset, name length, type,
/// then the name zero-padded to an 8-byte boundary.
pub open spec fn spec_dirent(ino: u64, off: u64, typ: u32, name: Seq<u8>) -> Seq<u8> {
    spec_u64_to_le_bytes(ino) + spec_u64_to_le_bytes(off) + spec_u32_to_le_bytes(
        name.len() as u32,
    ) + spec_u32_to_le_bytes(typ) + name + Seq::new(
        (dirent_padded_len(name.len() as int) - dirent_raw_len(name.len() as int)) as nat,
        |i: int| 0u8,
    )
}

impl View for ReaddirOut {
    type V = Seq<u8>;

    closed spec fn view(&self) -> Seq<u8> {
        self.buf@
    }
}

impl ReaddirOut {
    /// The byte budget the builder was constructed with.
    pub closed spec fn spec_budget(&self) -> int {
        self.budget as int
    }

    /// The emitted bytes never exceed the budget and always end on an
    /// 8-byte boundary.
    pub open spec fn wf(&self) -> bool {
        self@.len() <= self.spec_budget() && self.spec_budget() <= u32::MAX && self@.len() % 8
            == 0
    }

    /// An empty listing with the byte budget of the READDIR request.
    pub fn new(budget: u32) -> (r: ReaddirOut)
        ensures
            r.wf(),
            r@ == Seq::<u8>::empty(),
            r.spec_budget() == budget,
    {
        ReaddirOut { buf: Vec::new(), budget: budget as usize }
    }

    /// Append one directory entry, unless it would exceed the budget.
    /// Returns true when the entry did not fit — the buffer is unchanged
    /// and the caller should stop iterating — and false when the entry was
    /// appended, 8-byte aligned, within budget.
    pub fn entry(&mut self, name: &[u8], ino: u64, typ: u32, off: u64) -> (full: bool)
        requires
            old(self).wf(),
            name@.len() + 32 <= u32::MAX,
        ensures
            final(self).wf(),
            final(self).spec_budget() == old(self).spec_budget(),
            full == (old(self)@.len() + dirent_padded_len(name@.len() as int) > old(
                self,
            ).spec_budget()),
            full ==> final(self)@ == old(self)@,
            !full ==> final(self)@ == old(self)@ + spec_dirent(ino, off, typ, name@),
    {
        proof {
            lemma_auto_spec_u32_to_from_le_bytes();
            lemma_auto_spec_u64_to_from_le_bytes();
        }
        let name_len = name.len();
        let raw: u64 = 24 + name_len as u64;
        let padded: u64 = ((raw + 7) / 8) * 8;
        assert(padded == dirent_padded_len(name@.len() as int));
        if self.buf.len() as u64 + padded > self.budget as u64 {
            return true;
        }
        let ghost start = self.buf@;
        put_u64(&mut self.buf, ino);
        put_u64(&mut self.buf, off);
        put_u32(&mut self.buf, name_len as u32);
        put_u32(&mut self.buf, typ);
        let mut name_copy = vstd::slice::slice_to_vec(name);
        self.buf.append(&mut name_copy);
        let pad = (padded - raw) as usize;
        let ghost before_pad = self.buf@;
        for j in 0..pad
            invariant
                self.buf@ == before_pad + Seq::new(j as nat, |i: int| 0u8),
                self.budget == old(self).budget,
        {
            self.buf.push(0u8);
            proof {
                assert(before_pad + Seq::new(j as nat, |i: int| 0u8) + seq![0u8] =~= before_pad
                    + Seq::new((j + 1) as nat, |i: int| 0u8));
            }
        }
        proof {
            assert(self.buf@ =~= start + spec_dirent(ino, off, typ, name@));
            assert(self.buf@.len() == start.len() + padded);
            assert(padded % 8 == 0 && start.len() % 8 == 0 ==> (start.len() + padded) % 8 == 0)
                by (nonlinear_arith);
            assert(padded % 8 == 0) by (nonlinear_arith)
                requires
                    padded == ((raw + 7) / 8) * 8,
                    raw >= 24,
            ;
        }
        false
    }

    /// The encoded bytes of this reply.
    pub fn bytes(&self) -> (r: &Vec<u8>)
        ensures
            r@ == self@,
    {
        &self.buf
    }
}

impl AtomicBytes for ReaddirOut {
    open spec fn chunk_model(&self) -> Seq<Seq<u8>> {
        leaf_model(self@)
    }

    proof fn chunk_model_wf(&self) {
    }

    fn size(&self) -> (r: usize) {
        self.buf.as_slice().size()
    }

    fn count(&self) -> (r: usize) {
        self.buf.as_slice().count()
    }

    fn fill_bytes<'a, F: FillBytes<'a>>(&'a self, dst: &mut F) {
        self.buf.as_slice().fill_bytes(dst)
    }
}

/// A reply frame ready for one vectored write: the 16-byte out-header
/// first, then the payload chunks, borrowed and in emission order. The
/// write hands the device `1 + count` entries in a single call.
pub struct ReplyFrame<'a> {
    /// The encoded out-header.
    pub header: Vec<u8>,
    /// The payload chunks, each non-empty.
    pub chunks: Vec<&'a [u8]>,
}

/// Assemble a successful reply: an out-header whose `len` field is 16 plus
/// the summed chunk sizes, echoing `unique`, followed by exactly the
/// payload's chunks — one vectored write of `1 + count` entries emits it
/// atomically.
pub fn assemble_reply<'a, T: AtomicBytes + ?Sized>(unique: u64, data: &'a T) -> (r: ReplyFrame<'a>)
    requires
        16 + total_len(data.chunk_model()) <= u32::MAX,
    ensures
        r.header@ == spec_out_header_bytes(
            (16 + total_len(data.chunk_model())) as u32,
            0,
            unique,
        ),
        le32_at(r.header@, 0) == 16 + total_len(data.chunk_model()),
        le64_at(r.header@, 8) == unique,
        r.chunks@.map(|i: int, c: &[u8]| c@) == data.chunk_model(),
        forall|i: int| 0 <= i < r.chunks@.len() ==> #[trigger] r.chunks@[i]@.len() > 0,
{
    proof {
        lemma_auto_spec_u32_to_from_le_bytes();
        lemma_auto_spec_u64_to_from_le_bytes();
        data.chunk_model_wf();
    }
    let size = data.size();
    let mut sink = ChunkSink::new();
    data.fill_bytes(&mut sink);
    proof {
        assert(Seq::<Seq<u8>>::empty() + data.chunk_model() =~= data.chunk_model());
        assert forall|i: int|
            0 <= i < sink.slices@.len() implies #[trigger] sink.slices@[i]@.len() > 0 by {
            assert(sink.chunks()[i] == sink.slices@[i]@);
            assert(sink.chunks()[i] == data.chunk_model()[i]);
        }
    }
    let mut header: Vec<u8> = Vec::new();
    put_out_header(&mut header, 16 + size as u32, 0, unique);
    proof {
        let hb = spec_out_header_bytes((16 + total_len(data.chunk_model())) as u32, 0, unique);
        assert(hb.subrange(0, 4) =~= spec_u32_to_le_bytes(
            (16 + total_len(data.chunk_model())) as u32,
        ));
        assert(hb.subrange(8, 16) =~= spec_u64_to_le_bytes(unique));
    }
    ReplyFrame { header, chunks: sink.slices }
}

/// The 16-byte error reply for a request: `len` is 16, `error` the wire
/// encoding of `-errno`, `unique` echoed, and no payload at all.
pub fn reply_error_bytes(unique: u64, errno: u32) -> (r: Vec<u8>)
    requires
        0 < errno <= 0x7fff_ffff,
    ensures
        r@ == spec_out_header_bytes(16, spec_neg_errno(errno), unique),
        r@.len() == 16,
{
    let wire = neg_errno(errno);
    let mut out: Vec<u8> = Vec::new();
    put_out_header(&mut out, 16, wire, unique);
    out
}

/// The 16-byte success reply with no payload.
pub fn reply_empty_bytes(unique: u64) -> (r: Vec<u8>)
    ensures
        r@ == spec_out_header_bytes(16, 0, unique),
        r@.len() == 16,
{
    let mut out: Vec<u8> = Vec::new();
    put_out_header(&mut out, 16, 0, unique);
    out
}

/// A whole frame with an out-header and a contiguous payload: used for
/// session-generated replies and notifications.
pub fn make_frame(unique: u64, error_wire: u32, payload: &[u8]) -> (r: Vec<u8>)
    requires
        16 + payload@.len() <= u32::MAX,
    ensures
        r@ == spec_out_header_bytes((16 + payload@.len()) as u32, error_wire, unique) + payload@,
        r@.len() == 16 + payload@.len(),
{
    let mut out: Vec<u8> = Vec::new();
    put_out_header(&mut out, 16 + payload.len() as u32, error_wire, unique);
    let mut tail = vstd::slice::slice_to_vec(payload);
    out.append(&mut tail);
    out
}

} // verus!
