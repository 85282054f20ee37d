//! Decoding one kernel message into a typed request.
//!
//! A read from the FUSE device delivers exactly one message: a 40-byte
//! in-header whose `len` field covers header and payload, followed by the
//! opcode-specific payload. The decoder consumes exactly the declared
//! bytes and borrows every name and data region from the read buffer.

use vstd::prelude::*;
use crate::kernel::{
    InHeader, spec_in_header, spec_in_header_bytes, parse_in_header, put_in_header,
    lemma_in_header_round_trip, OP_LOOKUP, OP_FORGET, OP_GETATTR, OP_SETATTR, OP_READLINK,
    OP_SYMLINK, OP_MKNOD, OP_MKDIR, OP_UNLINK, OP_RMDIR, OP_RENAME, OP_LINK, OP_OPEN, OP_READ,
    OP_WRITE, OP_STATFS, OP_RELEASE, OP_FSYNC, OP_SETXATTR, OP_GETXATTR, OP_LISTXATTR,
    OP_REMOVEXATTR, OP_FLUSH, OP_INIT, OP_OPENDIR, OP_READDIR, OP_RELEASEDIR, OP_FSYNCDIR,
    OP_GETLK, OP_SETLK, OP_SETLKW, OP_ACCESS, OP_CREATE, OP_INTERRUPT, OP_BMAP, OP_DESTROY,
    OP_IOCTL, OP_POLL, OP_NOTIFY_REPLY, OP_BATCH_FORGET, OP_FALLOCATE, OP_READDIRPLUS,
    OP_RENAME2, OP_COPY_FILE_RANGE,
};
use crate::op::{
    Operation, ForgetOne, has_nul, nul_name, after_nul, find_nul, payload_wf,
    op_matches, parse_read_in, parse_write_in, parse_release_in, parse_init_in, parse_setattr_in,
    parse_lk_in, parse_ioctl_in, parse_poll_in, parse_fallocate_in, parse_copy_file_range_in,
};
use crate::wire::{le64_at, get_u32, get_u64};

verus! {

/// Why a frame was rejected by the decoder.
#[derive(Clone, Copy, Debug, PartialEq, Eq, Structural)]
pub enum DecodeError {
    /// The buffer is shorter than one in-header.
    TooShort { actual: usize },
    /// The header's declared length is shorter than a header or longer
    /// than the buffer.
    BadLength { declared: u32, actual: usize },
    /// The payload does not satisfy the opcode's layout.
    BadPayload { opcode: u32 },
}

/// One decoded request: the in-header, the raw payload region (exactly
/// `len - 40` bytes of the frame), and the typed operation.
pub struct Request<'a> {
    pub header: InHeader,
    pub payload: &'a [u8],
    pub op: Operation<'a>,
}

/// The payload region a frame declares: the bytes between the header and
/// the declared total length.
pub open spec fn spec_payload(b: Seq<u8>) -> Seq<u8> {
    b.subrange(40, spec_in_header(b).len as int)
}

/// A whole frame is well-formed: long enough for a header, its declared
/// length within bounds, and the payload shaped as the opcode requires.
pub open spec fn frame_wf(b: Seq<u8>) -> bool {
    &&& b.len() >= 40
    &&& spec_in_header(b).len >= 40
    &&& spec_in_header(b).len <= b.len()
    &&& payload_wf(spec_in_header(b).opcode, spec_payload(b))
}

/// The error a malformed frame produces.
pub open spec fn spec_decode_err(b: Seq<u8>) -> DecodeError {
    if b.len() < 40 {
        DecodeError::TooShort { actual: b.len() as usize }
    } else if spec_in_header(b).len < 40 || spec_in_header(b).len > b.len() {
        DecodeError::BadLength { declared: spec_in_header(b).len, actual: b.len() as usize }
    } else {
        DecodeError::BadPayload { opcode: spec_in_header(b).opcode }
    }
}

/// Split a zero-terminated name out of `p` starting at `off`: the name is
/// everything before the first zero at or after `off`, the remainder is
/// everything after that zero.
fn parse_name_at<'a>(p: &'a [u8], off: usize) -> (r: Option<(&'a [u8], &'a [u8])>)
    requires
        off <= p@.len(),
    ensures
        match r {
            Some(pair) => {
                &&& has_nul(p@.skip(off as int))
                &&& pair.0@ == nul_name(p@.skip(off as int))
                &&& pair.1@ == after_nul(p@.skip(off as int))
            },
            None => !has_nul(p@.skip(off as int)),
        },
{
    let sub = vstd::slice::slice_subrange(p, off, p.len());
    proof {
        assert(sub@ =~= p@.skip(off as int));
    }
    match find_nul(sub) {
        Some(i) => {
            let name = vstd::slice::slice_subrange(sub, 0, i);
            let rest = vstd::slice::slice_subrange(sub, i + 1, sub.len());
            proof {
                assert(name@ =~= nul_name(sub@));
                assert(rest@ =~= after_nul(sub@));
            }
            Some((name, rest))
        },
        None => None,
    }
}

/// Decode one kernel message. On success the returned request's header is
/// the frame's in-header, its payload region covers exactly the declared
/// `len - 40` bytes, and every typed field equals the little-endian value
/// at its wire offset; a malformed frame is rejected with the exact error
/// `spec_decode_err` assigns to it.
#[verifier::rlimit(30)]
pub fn decode<'a>(buf: &'a [u8]) -> (r: Result<Request<'a>, DecodeError>)
    ensures
        r is Ok <==> frame_wf(buf@),
        r matches Ok(req) ==> {
            &&& req.header == spec_in_header(buf@)
            &&& req.payload@ == spec_payload(buf@)
            &&& op_matches(req.op, req.header.opcode, spec_payload(buf@))
        },
        r matches Err(e) ==> e == spec_decode_err(buf@),
{
    let n = buf.len();
    if n < 40 {
        return Err(DecodeError::TooShort { actual: n });
    }
    let header = parse_in_header(buf);
    if header.len < 40 || header.len as u64 > n as u64 {
        return Err(DecodeError::BadLength { declared: header.len, actual: n });
    }
    let p: &'a [u8] = vstd::slice::slice_subrange(buf, 40, header.len as usize);
    let bad = DecodeError::BadPayload { opcode: header.opcode };
    let op: Operation<'a> = match header.opcode {
        OP_LOOKUP => {
            match parse_name_at(p, 0) {
                Some((name, _rest)) => {
                    proof {
                        assert(p@.skip(0) =~= p@);
                    }
                    Operation::Lookup { name }
                },
                None => {
                    proof {
                        assert(p@.skip(0) =~= p@);
                    }
                    return Err(bad);
                },
            }
        },
        OP_UNLINK => {
            match parse_name_at(p, 0) {
                Some((name, _rest)) => {
                    proof {
                        assert(p@.skip(0) =~= p@);
                    }
                    Operation::Unlink { name }
                },
                None => {
                    proof {
                        assert(p@.skip(0) =~= p@);
                    }
                    return Err(bad);
                },
            }
        },
        OP_RMDIR => {
            match parse_name_at(p, 0) {
                Some((name, _rest)) => {
                    proof {
                        assert(p@.skip(0) =~= p@);
                    }
                    Operation::Rmdir { name }
                },
                None => {
                    proof {
                        assert(p@.skip(0) =~= p@);
                    }
                    return Err(bad);
                },
            }
        },
        OP_REMOVEXATTR => {
            match parse_name_at(p, 0) {
                Some((name, _rest)) => {
                    proof {
                        assert(p@.skip(0) =~= p@);
                    }
                    Operation::Removexattr { name }
                },
                None => {
                    proof {
                        assert(p@.skip(0) =~= p@);
                    }
                    return Err(bad);
                },
            }
        },
        OP_FORGET => {
            if p.len() < 8 {
                return Err(bad);
            }
            Operation::Forget { nlookup: get_u64(p, 0) }
        },
        OP_INTERRUPT => {
            if p.len() < 8 {
                return Err(bad);
            }
            Operation::Interrupt { unique: get_u64(p, 0) }
        },
        OP_GETATTR => {
            if p.len() < 16 {
                return Err(bad);
            }
            Operation::Getattr { flags: get_u32(p, 0), fh: get_u64(p, 8) }
        },
        OP_BMAP => {
            if p.len() < 16 {
                return Err(bad);
            }
            Operation::Bmap { block: get_u64(p, 0), blocksize: get_u32(p, 8) }
        },
        OP_SETATTR => {
            if p.len() < 88 {
                return Err(bad);
            }
            Operation::Setattr { arg: parse_setattr_in(p) }
        },
        OP_READLINK => Operation::Readlink,
        OP_STATFS => Operation::Statfs,
        OP_DESTROY => Operation::Destroy,
        OP_SYMLINK => {
            match parse_name_at(p, 0) {
                Some((name, rest)) => {
                    proof {
                        assert(p@.skip(0) =~= p@);
                    }
                    match parse_name_at(rest, 0) {
                        Some((link, _)) => {
                            proof {
                                assert(rest@.skip(0) =~= rest@);
                            }
                            Operation::Symlink { name, link }
                        },
                        None => {
                            proof {
                                assert(rest@.skip(0) =~= rest@);
                            }
                            return Err(bad);
                        },
                    }
                },
                None => {
                    proof {
                        assert(p@.skip(0) =~= p@);
                    }
                    return Err(bad);
                },
            }
        },
        OP_MKNOD => {
            if p.len() < 16 {
                return Err(bad);
            }
            match parse_name_at(p, 16) {
                Some((name, _)) => Operation::Mknod {
                    mode: get_u32(p, 0),
                    rdev: get_u32(p, 4),
                    umask: get_u32(p, 8),
                    name,
                },
                None => {
                    return Err(bad);
                },
            }
        },
        OP_MKDIR => {
            if p.len() < 8 {
                return Err(bad);
            }
            match parse_name_at(p, 8) {
                Some((name, _)) => Operation::Mkdir {
                    mode: get_u32(p, 0),
                    umask: get_u32(p, 4),
                    name,
                },
                None => {
                    return Err(bad);
                },
            }
        },
        OP_RENAME => {
            if p.len() < 8 {
                return Err(bad);
            }
            match parse_name_at(p, 8) {
                Some((name, rest)) => {
                    match parse_name_at(rest, 0) {
                        Some((newname, _)) => {
                            proof {
                                assert(rest@.skip(0) =~= rest@);
                            }
                            Operation::Rename { newdir: get_u64(p, 0), name, newname }
                        },
                        None => {
                            proof {
                                assert(rest@.skip(0) =~= rest@);
                            }
                            return Err(bad);
                        },
                    }
                },
                None => {
                    return Err(bad);
                },
            }
        },
        OP_RENAME2 => {
            if p.len() < 16 {
                return Err(bad);
            }
            match parse_name_at(p, 16) {
                Some((name, rest)) => {
                    match parse_name_at(rest, 0) {
                        Some((newname, _)) => {
                            proof {
                                assert(rest@.skip(0) =~= rest@);
                            }
                            Operation::Rename2 {
                                newdir: get_u64(p, 0),
                                flags: get_u32(p, 8),
                                name,
                                newname,
                            }
                        },
                        None => {
                            proof {
                                assert(rest@.skip(0) =~= rest@);
                            }
                            return Err(bad);
                        },
                    }
                },
                None => {
                    return Err(bad);
                },
            }
        },
        OP_LINK => {
            if p.len() < 8 {
                return Err(bad);
            }
            match parse_name_at(p, 8) {
                Some((newname, _)) => Operation::Link { oldnodeid: get_u64(p, 0), newname },
                None => {
                    return Err(bad);
                },
            }
        },
        OP_OPEN => {
            if p.len() < 8 {
                return Err(bad);
            }
            Operation::Open { flags: get_u32(p, 0) }
        },
        OP_OPENDIR => {
            if p.len() < 8 {
                return Err(bad);
            }
            Operation::Opendir { flags: get_u32(p, 0) }
        },
        OP_LISTXATTR => {
            if p.len() < 8 {
                return Err(bad);
            }
            Operation::Listxattr { size: get_u32(p, 0) }
        },
        OP_ACCESS => {
            if p.len() < 8 {
                return Err(bad);
            }
            Operation::Access { mask: get_u32(p, 0) }
        },
        OP_READ => {
            if p.len() < 40 {
                return Err(bad);
            }
            Operation::Read { arg: parse_read_in(p) }
        },
        OP_READDIR => {
            if p.len() < 40 {
                return Err(bad);
            }
            Operation::Readdir { arg: parse_read_in(p) }
        },
        OP_READDIRPLUS => {
            if p.len() < 40 {
                return Err(bad);
            }
            Operation::Readdirplus { arg: parse_read_in(p) }
        },
        OP_WRITE => {
            if p.len() < 40 {
                return Err(bad);
            }
            let arg = parse_write_in(p);
            if 40u64 + arg.size as u64 > p.len() as u64 {
                return Err(bad);
            }
            let data = vstd::slice::slice_subrange(p, 40, 40 + arg.size as usize);
            Operation::Write { arg, data }
        },
        OP_RELEASE => {
            if p.len() < 24 {
                return Err(bad);
            }
            Operation::Release { arg: parse_release_in(p) }
        },
        OP_RELEASEDIR => {
            if p.len() < 24 {
                return Err(bad);
            }
            Operation::Releasedir { arg: parse_release_in(p) }
        },
        OP_FLUSH => {
            if p.len() < 24 {
                return Err(bad);
            }
            Operation::Flush { fh: get_u64(p, 0), lock_owner: get_u64(p, 16) }
        },
        OP_POLL => {
            if p.len() < 24 {
                return Err(bad);
            }
            Operation::Poll { arg: parse_poll_in(p) }
        },
        OP_FSYNC => {
            if p.len() < 16 {
                return Err(bad);
            }
            Operation::Fsync { fh: get_u64(p, 0), fsync_flags: get_u32(p, 8) }
        },
        OP_FSYNCDIR => {
            if p.len() < 16 {
                return Err(bad);
            }
            Operation::Fsyncdir { fh: get_u64(p, 0), fsync_flags: get_u32(p, 8) }
        },
        OP_INIT => {
            if p.len() < 16 {
                return Err(bad);
            }
            Operation::Init { arg: parse_init_in(p) }
        },
        OP_CREATE => {
            if p.len() < 16 {
                return Err(bad);
            }
            match parse_name_at(p, 16) {
                Some((name, _)) => Operation::Create {
                    flags: get_u32(p, 0),
                    mode: get_u32(p, 4),
                    umask: get_u32(p, 8),
                    name,
                },
                None => {
                    return Err(bad);
                },
            }
        },
        OP_SETXATTR => {
            if p.len() < 8 {
                return Err(bad);
            }
            let size = get_u32(p, 0);
            let flags = get_u32(p, 4);
            match parse_name_at(p, 8) {
                Some((name, rest)) => {
                    if size as u64 > rest.len() as u64 {
                        return Err(bad);
                    }
                    let value = vstd::slice::slice_subrange(rest, 0, size as usize);
                    proof {
                        assert(value@ =~= after_nul(p@.skip(8)).take(size as int));
                    }
                    Operation::Setxattr { flags, name, value }
                },
                None => {
                    return Err(bad);
                },
            }
        },
        OP_GETXATTR => {
            if p.len() < 8 {
                return Err(bad);
            }
            match parse_name_at(p, 8) {
                Some((name, _)) => Operation::Getxattr { size: get_u32(p, 0), name },
                None => {
                    return Err(bad);
                },
            }
        },
        OP_GETLK => {
            if p.len() < 48 {
                return Err(bad);
            }
            Operation::Getlk { arg: parse_lk_in(p) }
        },
        OP_SETLK => {
            if p.len() < 48 {
                return Err(bad);
            }
            Operation::Setlk { arg: parse_lk_in(p) }
        },
        OP_SETLKW => {
            if p.len() < 48 {
                return Err(bad);
            }
            Operation::Setlkw { arg: parse_lk_in(p) }
        },
        OP_IOCTL => {
            if p.len() < 32 {
                return Err(bad);
            }
            let arg = parse_ioctl_in(p);
            if 32u64 + arg.in_size as u64 > p.len() as u64 {
                return Err(bad);
            }
            let data = vstd::slice::slice_subrange(p, 32, 32 + arg.in_size as usize);
            Operation::Ioctl { arg, data }
        },
        OP_NOTIFY_REPLY => {
            if p.len() < 40 {
                return Err(bad);
            }
            let offset = get_u64(p, 8);
            let size = get_u32(p, 16);
            if 40u64 + size as u64 > p.len() as u64 {
                return Err(bad);
            }
            let data = vstd::slice::slice_subrange(p, 40, 40 + size as usize);
            Operation::NotifyReply { offset, size, data }
        },
        OP_BATCH_FORGET => {
            if p.len() < 8 {
                return Err(bad);
            }
            let cnt = get_u32(p, 0);
            if 8u64 + 16u64 * cnt as u64 > p.len() as u64 {
                return Err(bad);
            }
            let cnt_us = cnt as usize;
            let mut forgets: Vec<ForgetOne> = Vec::new();
            for i in 0..cnt_us
                invariant
                    cnt_us == cnt,
                    8 + 16 * (cnt as int) <= p@.len(),
                    p@.len() <= usize::MAX,
                    forgets@.len() == i,
                    forall|k: int|
                        0 <= k < i ==> #[trigger] forgets@[k] == (ForgetOne {
                            nodeid: le64_at(p@, 8 + 16 * k),
                            nlookup: le64_at(p@, 16 + 16 * k),
                        }),
            {
                let off = 8 + 16 * i;
                let nodeid = get_u64(p, off);
                let nlookup = get_u64(p, off + 8);
                forgets.push(ForgetOne { nodeid, nlookup });
            }
            Operation::BatchForget { forgets }
        },
        OP_FALLOCATE => {
            if p.len() < 32 {
                return Err(bad);
            }
            Operation::Fallocate { arg: parse_fallocate_in(p) }
        },
        OP_COPY_FILE_RANGE => {
            if p.len() < 56 {
                return Err(bad);
            }
            Operation::CopyFileRange { arg: parse_copy_file_range_in(p) }
        },
        _ => Operation::Unknown { opcode: header.opcode },
    };
    Ok(Request { header, payload: p, op })
}

/// Build a whole kernel frame from header fields and a raw payload; the
/// header's `len` is set to cover both. This is the synthetic counterpart
/// of `decode`, used to drive the protocol from the kernel's side.
pub fn encode_frame(
    opcode: u32,
    unique: u64,
    nodeid: u64,
    uid: u32,
    gid: u32,
    pid: u32,
    payload: &[u8],
) -> (r: Vec<u8>)
    requires
        40 + payload@.len() <= u32::MAX,
    ensures
        r@ == spec_in_header_bytes(synth_header(opcode, unique, nodeid, uid, gid, pid, payload@.len() as int)) + payload@,
        r@.len() == 40 + payload@.len(),
{
    let h = InHeader {
        len: 40 + payload.len() as u32,
        opcode,
        unique,
        nodeid,
        uid,
        gid,
        pid,
        padding: 0,
    };
    let mut out: Vec<u8> = Vec::new();
    put_in_header(&mut out, &h);
    let mut tail = vstd::slice::slice_to_vec(payload);
    out.append(&mut tail);
    out
}

/// The in-header `encode_frame` writes for the given fields and payload
/// length.
pub open spec fn synth_header(
    opcode: u32,
    unique: u64,
    nodeid: u64,
    uid: u32,
    gid: u32,
    pid: u32,
    payload_len: int,
) -> InHeader {
    InHeader {
        len: (40 + payload_len) as u32,
        opcode,
        unique,
        nodeid,
        uid,
        gid,
        pid,
        padding: 0,
    }
}

/// Round trip: a frame assembled from an in-header and a payload decodes
/// back to exactly those header fields, and its payload region covers
/// exactly `len - 40` bytes — for every opcode, known or not.
pub proof fn lemma_frame_round_trip(h: InHeader, payload: Seq<u8>)
    requires
        h.len == 40 + payload.len(),
    ensures
        spec_in_header(spec_in_header_bytes(h) + payload) == h,
        spec_payload(spec_in_header_bytes(h) + payload) == payload,
        payload_wf(h.opcode, payload) ==> frame_wf(spec_in_header_bytes(h) + payload),
{
    lemma_in_header_round_trip(h);
    let hb = spec_in_header_bytes(h);
    let b = hb + payload;
    assert(b.subrange(0, 4) =~= hb.subrange(0, 4));
    assert(b.subrange(4, 8) =~= hb.subrange(4, 8));
    assert(b.subrange(8, 16) =~= hb.subrange(8, 16));
    assert(b.subrange(16, 24) =~= hb.subrange(16, 24));
    assert(b.subrange(24, 28) =~= hb.subrange(24, 28));
    assert(b.subrange(28, 32) =~= hb.subrange(28, 32));
    assert(b.subrange(32, 36) =~= hb.subrange(32, 36));
    assert(b.subrange(36, 40) =~= hb.subrange(36, 40));
    assert(spec_in_header(b) == h);
    assert(spec_payload(b) =~= payload);
}

} // verus!
