//! Library-initiated notification frames.
//!
//! A notification is a frame the library sends to the kernel without a
//! request: its out-header carries `unique = 0` and the negative
//! notification code in the `error` field, followed by a typed payload.
//! The builders here return the complete frame; the surrounding program
//! writes it in one call.

use vstd::prelude::*;
use vstd::bytes::*;
use crate::wire::{put_u32, put_u64};
use crate::kernel::{
    spec_out_header_bytes, spec_neg_errno, neg_errno, NOTIFY_POLL, NOTIFY_INVAL_INODE,
    NOTIFY_INVAL_ENTRY, NOTIFY_STORE, NOTIFY_DELETE,
};
use crate::reply::make_frame;

verus! {

/// Invalidate a range of cached data of an inode. The payload carries the
/// inode and the signed offset and length exactly as the kernel reads
/// them, in two's complement.
pub fn notify_inval_inode_frame(ino: u64, off: i64, len: i64) -> (r: Vec<u8>)
    ensures
        r@ == spec_out_header_bytes(40, spec_neg_errno(NOTIFY_INVAL_INODE), 0)
            + spec_u64_to_le_bytes(ino) + spec_u64_to_le_bytes(off as u64) + spec_u64_to_le_bytes(
            len as u64,
        ),
        r@.len() == 40,
{
    proof {
        lemma_auto_spec_u64_to_from_le_bytes();
    }
    let mut payload: Vec<u8> = Vec::new();
    put_u64(&mut payload, ino);
    put_u64(&mut payload, #[verifier::truncate] (off as u64));
    put_u64(&mut payload, #[verifier::truncate] (len as u64));
    let frame = make_frame(0, neg_errno(NOTIFY_INVAL_INODE), payload.as_slice());
    proof {
        assert(frame@ =~= spec_out_header_bytes(40, spec_neg_errno(NOTIFY_INVAL_INODE), 0)
            + spec_u64_to_le_bytes(ino) + spec_u64_to_le_bytes(off as u64) + spec_u64_to_le_bytes(
            len as u64,
        ));
    }
    frame
}

/// Invalidate the entry with the given name in a directory. The name is
/// sent with its zero terminator, and its length without it.
pub fn notify_inval_entry_frame(parent: u64, name: &[u8]) -> (r: Vec<u8>)
    requires
        name@.len() + 33 <= u32::MAX,
    ensures
        r@ == spec_out_header_bytes(
            (33 + name@.len()) as u32,
            spec_neg_errno(NOTIFY_INVAL_ENTRY),
            0,
        ) + spec_u64_to_le_bytes(parent) + spec_u32_to_le_bytes(name@.len() as u32)
            + spec_u32_to_le_bytes(0) + name@ + seq![0u8],
{
    proof {
        lemma_auto_spec_u32_to_from_le_bytes();
        lemma_auto_spec_u64_to_from_le_bytes();
    }
    let mut payload: Vec<u8> = Vec::new();
    put_u64(&mut payload, parent);
    put_u32(&mut payload, name.len() as u32);
    put_u32(&mut payload, 0);
    let mut name_copy = vstd::slice::slice_to_vec(name);
    payload.append(&mut name_copy);
    payload.push(0u8);
    proof {
        lemma_auto_spec_u32_to_from_le_bytes();
        lemma_auto_spec_u64_to_from_le_bytes();
    }
    let frame = make_frame(0, neg_errno(NOTIFY_INVAL_ENTRY), payload.as_slice());
    proof {
        assert(frame@ =~= spec_out_header_bytes(
            (33 + name@.len()) as u32,
            spec_neg_errno(NOTIFY_INVAL_ENTRY),
            0,
        ) + spec_u64_to_le_bytes(parent) + spec_u32_to_le_bytes(name@.len() as u32)
            + spec_u32_to_le_bytes(0) + name@ + seq![0u8]);
    }
    frame
}

/// Tell the kernel that an entry has been deleted from a directory.
pub fn notify_delete_frame(parent: u64, child: u64, name: &[u8]) -> (r: Vec<u8>)
    requires
        name@.len() + 41 <= u32::MAX,
    ensures
        r@ == spec_out_header_bytes((41 + name@.len()) as u32, spec_neg_errno(NOTIFY_DELETE), 0)
            + spec_u64_to_le_bytes(parent) + spec_u64_to_le_bytes(child) + spec_u32_to_le_bytes(
            name@.len() as u32,
        ) + spec_u32_to_le_bytes(0) + name@ + seq![0u8],
{
    proof {
        lemma_auto_spec_u32_to_from_le_bytes();
        lemma_auto_spec_u64_to_from_le_bytes();
    }
    let mut payload: Vec<u8> = Vec::new();
    put_u64(&mut payload, parent);
    put_u64(&mut payload, child);
    put_u32(&mut payload, name.len() as u32);
    put_u32(&mut payload, 0);
    let mut name_copy = vstd::slice::slice_to_vec(name);
    payload.append(&mut name_copy);
    payload.push(0u8);
    proof {
        lemma_auto_spec_u32_to_from_le_bytes();
        lemma_auto_spec_u64_to_from_le_bytes();
    }
    let frame = make_frame(0, neg_errno(NOTIFY_DELETE), payload.as_slice());
    proof {
        assert(frame@ =~= spec_out_header_bytes(
            (41 + name@.len()) as u32,
            spec_neg_errno(NOTIFY_DELETE),
            0,
        ) + spec_u64_to_le_bytes(parent) + spec_u64_to_le_bytes(child) + spec_u32_to_le_bytes(
            name@.len() as u32,
        ) + spec_u32_to_le_bytes(0) + name@ + seq![0u8]);
    }
    frame
}

/// Replace a range of the kernel's cached data for an inode.
pub fn notify_store_frame(ino: u64, offset: u64, data: &[u8]) -> (r: Vec<u8>)
    requires
        data@.len() + 40 <= u32::MAX,
    ensures
        r@ == spec_out_header_bytes((40 + data@.len()) as u32, spec_neg_errno(NOTIFY_STORE), 0)
            + spec_u64_to_le_bytes(ino) + spec_u64_to_le_bytes(offset) + spec_u32_to_le_bytes(
            data@.len() as u32,
        ) + spec_u32_to_le_bytes(0) + data@,
{
    proof {
        lemma_auto_spec_u32_to_from_le_bytes();
        lemma_auto_spec_u64_to_from_le_bytes();
    }
    let mut payload: Vec<u8> = Vec::new();
    put_u64(&mut payload, ino);
    put_u64(&mut payload, offset);
    put_u32(&mut payload, data.len() as u32);
    put_u32(&mut payload, 0);
    let mut data_copy = vstd::slice::slice_to_vec(data);
    payload.append(&mut data_copy);
    proof {
        lemma_auto_spec_u32_to_from_le_bytes();
        lemma_auto_spec_u64_to_from_le_bytes();
    }
    let frame = make_frame(0, neg_errno(NOTIFY_STORE), payload.as_slice());
    proof {
        assert(frame@ =~= spec_out_header_bytes(
            (40 + data@.len()) as u32,
            spec_neg_errno(NOTIFY_STORE),
            0,
        ) + spec_u64_to_le_bytes(ino) + spec_u64_to_le_bytes(offset) + spec_u32_to_le_bytes(
            data@.len() as u32,
        ) + spec_u32_to_le_bytes(0) + data@);
    }
    frame
}

/// Wake up a poller identified by its kernel handle.
pub fn notify_poll_wakeup_frame(kh: u64) -> (r: Vec<u8>)
    ensures
        r@ == spec_out_header_bytes(24, spec_neg_errno(NOTIFY_POLL), 0) + spec_u64_to_le_bytes(
            kh,
        ),
        r@.len() == 24,
{
    proof {
        lemma_auto_spec_u64_to_from_le_bytes();
    }
    let mut payload: Vec<u8> = Vec::new();
    put_u64(&mut payload, kh);
    let frame = make_frame(0, neg_errno(NOTIFY_POLL), payload.as_slice());
    proof {
        assert(frame@ =~= spec_out_header_bytes(24, spec_neg_errno(NOTIFY_POLL), 0)
            + spec_u64_to_le_bytes(kh));
    }
    frame
}

} // verus!
