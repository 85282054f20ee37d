use polyfuse::decode::{decode, encode_frame};
use polyfuse::kernel::{
    OP_ACCESS, OP_BMAP, OP_COPY_FILE_RANGE, OP_CREATE, OP_FALLOCATE, OP_FLUSH, OP_FSYNC,
    OP_FSYNCDIR, OP_GETATTR, OP_GETLK, OP_GETXATTR, OP_INTERRUPT, OP_IOCTL, OP_LINK,
    OP_LISTXATTR, OP_MKDIR, OP_MKNOD, OP_NOTIFY_REPLY, OP_OPEN, OP_OPENDIR, OP_POLL,
    OP_READDIRPLUS, OP_READLINK, OP_RELEASE, OP_RELEASEDIR, OP_REMOVEXATTR, OP_RENAME2,
    OP_SETLK, OP_SETLKW, OP_SETXATTR, OP_STATFS, OP_UNLINK, OP_RMDIR,
};
use polyfuse::op::Operation;

fn frame(opcode: u32, payload: &[u8]) -> Vec<u8> {
    encode_frame(opcode, 99, 7, 0, 0, 0, payload)
}

fn decoded(opcode: u32, payload: &[u8]) -> bool {
    decode(&frame(opcode, payload)).is_ok()
}

#[test]
fn round_trip_name_only_variants() {
    match decode(&frame(OP_UNLINK, b"gone\0")).unwrap().op {
        Operation::Unlink { name } => assert_eq!(name, b"gone"),
        _ => panic!("expected UNLINK"),
    }
    match decode(&frame(OP_RMDIR, b"dir\0")).unwrap().op {
        Operation::Rmdir { name } => assert_eq!(name, b"dir"),
        _ => panic!("expected RMDIR"),
    }
    match decode(&frame(OP_REMOVEXATTR, b"user.x\0")).unwrap().op {
        Operation::Removexattr { name } => assert_eq!(name, b"user.x"),
        _ => panic!("expected REMOVEXATTR"),
    }
}

#[test]
fn round_trip_no_payload_variants() {
    assert!(matches!(decode(&frame(OP_READLINK, &[])).unwrap().op, Operation::Readlink));
    assert!(matches!(decode(&frame(OP_STATFS, &[])).unwrap().op, Operation::Statfs));
}

#[test]
fn round_trip_getattr_and_bmap() {
    let mut p = vec![0u8; 16];
    p[0..4].copy_from_slice(&1u32.to_le_bytes());
    p[8..16].copy_from_slice(&77u64.to_le_bytes());
    match decode(&frame(OP_GETATTR, &p)).unwrap().op {
        Operation::Getattr { flags, fh } => {
            assert_eq!(flags, 1);
            assert_eq!(fh, 77);
        }
        _ => panic!("expected GETATTR"),
    }
    let mut p = vec![0u8; 16];
    p[0..8].copy_from_slice(&123u64.to_le_bytes());
    p[8..12].copy_from_slice(&4096u32.to_le_bytes());
    match decode(&frame(OP_BMAP, &p)).unwrap().op {
        Operation::Bmap { block, blocksize } => {
            assert_eq!(block, 123);
            assert_eq!(blocksize, 4096);
        }
        _ => panic!("expected BMAP"),
    }
}

#[test]
fn round_trip_mknod_mkdir_link_create() {
    let mut p = Vec::new();
    p.extend_from_slice(&0o100644u32.to_le_bytes());
    p.extend_from_slice(&5u32.to_le_bytes());
    p.extend_from_slice(&0o022u32.to_le_bytes());
    p.extend_from_slice(&0u32.to_le_bytes());
    p.extend_from_slice(b"dev\0");
    match decode(&frame(OP_MKNOD, &p)).unwrap().op {
        Operation::Mknod { mode, rdev, umask, name } => {
            assert_eq!(mode, 0o100644);
            assert_eq!(rdev, 5);
            assert_eq!(umask, 0o022);
            assert_eq!(name, b"dev");
        }
        _ => panic!("expected MKNOD"),
    }

    let mut p = Vec::new();
    p.extend_from_slice(&0o755u32.to_le_bytes());
    p.extend_from_slice(&0o022u32.to_le_bytes());
    p.extend_from_slice(b"subdir\0");
    match decode(&frame(OP_MKDIR, &p)).unwrap().op {
        Operation::Mkdir { mode, umask, name } => {
            assert_eq!(mode, 0o755);
            assert_eq!(umask, 0o022);
            assert_eq!(name, b"subdir");
        }
        _ => panic!("expected MKDIR"),
    }

    let mut p = Vec::new();
    p.extend_from_slice(&31u64.to_le_bytes());
    p.extend_from_slice(b"hard\0");
    match decode(&frame(OP_LINK, &p)).unwrap().op {
        Operation::Link { oldnodeid, newname } => {
            assert_eq!(oldnodeid, 31);
            assert_eq!(newname, b"hard");
        }
        _ => panic!("expected LINK"),
    }

    let mut p = Vec::new();
    p.extend_from_slice(&2u32.to_le_bytes());
    p.extend_from_slice(&0o100600u32.to_le_bytes());
    p.extend_from_slice(&0u32.to_le_bytes());
    p.extend_from_slice(&0u32.to_le_bytes());
    p.extend_from_slice(b"fresh\0");
    match decode(&frame(OP_CREATE, &p)).unwrap().op {
        Operation::Create { flags, mode, umask, name } => {
            assert_eq!(flags, 2);
            assert_eq!(mode, 0o100600);
            assert_eq!(umask, 0);
            assert_eq!(name, b"fresh");
        }
        _ => panic!("expected CREATE"),
    }
}

#[test]
fn round_trip_rename2_with_flags() {
    let mut p = Vec::new();
    p.extend_from_slice(&3u64.to_le_bytes());
    p.extend_from_slice(&1u32.to_le_bytes()); // exchange-style flag, passed verbatim
    p.extend_from_slice(&0u32.to_le_bytes());
    p.extend_from_slice(b"from\0to\0");
    match decode(&frame(OP_RENAME2, &p)).unwrap().op {
        Operation::Rename2 { newdir, flags, name, newname } => {
            assert_eq!(newdir, 3);
            assert_eq!(flags, 1);
            assert_eq!(name, b"from");
            assert_eq!(newname, b"to");
        }
        _ => panic!("expected RENAME2"),
    }
}

#[test]
fn round_trip_open_release_flush_fsync() {
    let mut p = vec![0u8; 8];
    p[0..4].copy_from_slice(&0x8001u32.to_le_bytes());
    match decode(&frame(OP_OPEN, &p)).unwrap().op {
        Operation::Open { flags } => assert_eq!(flags, 0x8001),
        _ => panic!("expected OPEN"),
    }
    match decode(&frame(OP_OPENDIR, &p)).unwrap().op {
        Operation::Opendir { flags } => assert_eq!(flags, 0x8001),
        _ => panic!("expected OPENDIR"),
    }

    let mut p = vec![0u8; 24];
    p[0..8].copy_from_slice(&4u64.to_le_bytes());
    p[8..12].copy_from_slice(&2u32.to_le_bytes());
    p[12..16].copy_from_slice(&1u32.to_le_bytes());
    p[16..24].copy_from_slice(&9u64.to_le_bytes());
    match decode(&frame(OP_RELEASE, &p)).unwrap().op {
        Operation::Release { arg } => {
            assert_eq!(arg.fh, 4);
            assert_eq!(arg.flags, 2);
            assert_eq!(arg.release_flags, 1);
            assert_eq!(arg.lock_owner, 9);
        }
        _ => panic!("expected RELEASE"),
    }
    match decode(&frame(OP_RELEASEDIR, &p)).unwrap().op {
        Operation::Releasedir { arg } => assert_eq!(arg.fh, 4),
        _ => panic!("expected RELEASEDIR"),
    }
    match decode(&frame(OP_FLUSH, &p)).unwrap().op {
        Operation::Flush { fh, lock_owner } => {
            assert_eq!(fh, 4);
            assert_eq!(lock_owner, 9);
        }
        _ => panic!("expected FLUSH"),
    }

    let mut p = vec![0u8; 16];
    p[0..8].copy_from_slice(&6u64.to_le_bytes());
    p[8..12].copy_from_slice(&1u32.to_le_bytes()); // data-only sync, accepted on the wire
    match decode(&frame(OP_FSYNC, &p)).unwrap().op {
        Operation::Fsync { fh, fsync_flags } => {
            assert_eq!(fh, 6);
            assert_eq!(fsync_flags, 1);
        }
        _ => panic!("expected FSYNC"),
    }
    match decode(&frame(OP_FSYNCDIR, &p)).unwrap().op {
        Operation::Fsyncdir { fh, fsync_flags } => {
            assert_eq!(fh, 6);
            assert_eq!(fsync_flags, 1);
        }
        _ => panic!("expected FSYNCDIR"),
    }
}

#[test]
fn round_trip_xattr_variants() {
    let mut p = Vec::new();
    p.extend_from_slice(&5u32.to_le_bytes()); // value size
    p.extend_from_slice(&1u32.to_le_bytes()); // flags
    p.extend_from_slice(b"user.k\0value");
    match decode(&frame(OP_SETXATTR, &p)).unwrap().op {
        Operation::Setxattr { flags, name, value } => {
            assert_eq!(flags, 1);
            assert_eq!(name, b"user.k");
            assert_eq!(value, b"value");
        }
        _ => panic!("expected SETXATTR"),
    }

    let mut p = Vec::new();
    p.extend_from_slice(&64u32.to_le_bytes());
    p.extend_from_slice(&0u32.to_le_bytes());
    p.extend_from_slice(b"user.k\0");
    match decode(&frame(OP_GETXATTR, &p)).unwrap().op {
        Operation::Getxattr { size, name } => {
            assert_eq!(size, 64);
            assert_eq!(name, b"user.k");
        }
        _ => panic!("expected GETXATTR"),
    }

    let mut p = vec![0u8; 8];
    p[0..4].copy_from_slice(&128u32.to_le_bytes());
    match decode(&frame(OP_LISTXATTR, &p)).unwrap().op {
        Operation::Listxattr { size } => assert_eq!(size, 128),
        _ => panic!("expected LISTXATTR"),
    }
}

#[test]
fn round_trip_locks() {
    let mut p = vec![0u8; 48];
    p[0..8].copy_from_slice(&1u64.to_le_bytes()); // fh
    p[8..16].copy_from_slice(&2u64.to_le_bytes()); // owner
    p[16..24].copy_from_slice(&100u64.to_le_bytes()); // start
    p[24..32].copy_from_slice(&200u64.to_le_bytes()); // end
    p[32..36].copy_from_slice(&1u32.to_le_bytes()); // type
    p[36..40].copy_from_slice(&33u32.to_le_bytes()); // pid
    p[40..44].copy_from_slice(&1u32.to_le_bytes()); // lock flags
    for (opcode, tag) in [(OP_GETLK, "GETLK"), (OP_SETLK, "SETLK"), (OP_SETLKW, "SETLKW")] {
        let arg = match decode(&frame(opcode, &p)).unwrap().op {
            Operation::Getlk { arg } => arg,
            Operation::Setlk { arg } => arg,
            Operation::Setlkw { arg } => arg,
            _ => panic!("expected a lock operation for {}", tag),
        };
        assert_eq!(arg.fh, 1);
        assert_eq!(arg.owner, 2);
        assert_eq!(arg.start, 100);
        assert_eq!(arg.end, 200);
        assert_eq!(arg.typ, 1);
        assert_eq!(arg.pid, 33);
        assert_eq!(arg.lk_flags, 1);
    }
}

#[test]
fn round_trip_access_interrupt_poll() {
    let mut p = vec![0u8; 8];
    p[0..4].copy_from_slice(&5u32.to_le_bytes());
    match decode(&frame(OP_ACCESS, &p)).unwrap().op {
        Operation::Access { mask } => assert_eq!(mask, 5),
        _ => panic!("expected ACCESS"),
    }

    let p = 4242u64.to_le_bytes();
    match decode(&frame(OP_INTERRUPT, &p)).unwrap().op {
        Operation::Interrupt { unique } => assert_eq!(unique, 4242),
        _ => panic!("expected INTERRUPT"),
    }

    let mut p = vec![0u8; 24];
    p[0..8].copy_from_slice(&3u64.to_le_bytes());
    p[8..16].copy_from_slice(&8u64.to_le_bytes());
    p[16..20].copy_from_slice(&1u32.to_le_bytes());
    p[20..24].copy_from_slice(&5u32.to_le_bytes());
    match decode(&frame(OP_POLL, &p)).unwrap().op {
        Operation::Poll { arg } => {
            assert_eq!(arg.fh, 3);
            assert_eq!(arg.kh, 8);
            assert_eq!(arg.flags, 1);
            assert_eq!(arg.events, 5);
        }
        _ => panic!("expected POLL"),
    }
}

#[test]
fn round_trip_ioctl_with_input() {
    let mut p = Vec::new();
    p.extend_from_slice(&2u64.to_le_bytes()); // fh
    p.extend_from_slice(&1u32.to_le_bytes()); // flags
    p.extend_from_slice(&0xabcdu32.to_le_bytes()); // cmd
    p.extend_from_slice(&16u64.to_le_bytes()); // arg
    p.extend_from_slice(&3u32.to_le_bytes()); // input size
    p.extend_from_slice(&8u32.to_le_bytes()); // output size
    p.extend_from_slice(b"ab\x01");
    match decode(&frame(OP_IOCTL, &p)).unwrap().op {
        Operation::Ioctl { arg, data } => {
            assert_eq!(arg.fh, 2);
            assert_eq!(arg.cmd, 0xabcd);
            assert_eq!(arg.in_size, 3);
            assert_eq!(arg.out_size, 8);
            assert_eq!(data, b"ab\x01");
        }
        _ => panic!("expected IOCTL"),
    }
}

#[test]
fn round_trip_notify_reply_data() {
    let mut p = vec![0u8; 40];
    p[8..16].copy_from_slice(&64u64.to_le_bytes()); // offset
    p[16..20].copy_from_slice(&4u32.to_le_bytes()); // size
    p.extend_from_slice(b"back");
    match decode(&frame(OP_NOTIFY_REPLY, &p)).unwrap().op {
        Operation::NotifyReply { offset, size, data } => {
            assert_eq!(offset, 64);
            assert_eq!(size, 4);
            assert_eq!(data, b"back");
        }
        _ => panic!("expected NOTIFY_REPLY"),
    }
}

#[test]
fn round_trip_fallocate_and_copy_file_range() {
    let mut p = vec![0u8; 32];
    p[0..8].copy_from_slice(&1u64.to_le_bytes());
    p[8..16].copy_from_slice(&100u64.to_le_bytes());
    p[16..24].copy_from_slice(&200u64.to_le_bytes());
    p[24..28].copy_from_slice(&3u32.to_le_bytes());
    match decode(&frame(OP_FALLOCATE, &p)).unwrap().op {
        Operation::Fallocate { arg } => {
            assert_eq!(arg.fh, 1);
            assert_eq!(arg.offset, 100);
            assert_eq!(arg.length, 200);
            assert_eq!(arg.mode, 3);
        }
        _ => panic!("expected FALLOCATE"),
    }

    let mut p = vec![0u8; 56];
    p[0..8].copy_from_slice(&1u64.to_le_bytes());
    p[8..16].copy_from_slice(&2u64.to_le_bytes());
    p[16..24].copy_from_slice(&3u64.to_le_bytes());
    p[24..32].copy_from_slice(&4u64.to_le_bytes());
    p[32..40].copy_from_slice(&5u64.to_le_bytes());
    p[40..48].copy_from_slice(&6u64.to_le_bytes());
    p[48..56].copy_from_slice(&7u64.to_le_bytes());
    match decode(&frame(OP_COPY_FILE_RANGE, &p)).unwrap().op {
        Operation::CopyFileRange { arg } => {
            assert_eq!(arg.fh_in, 1);
            assert_eq!(arg.off_in, 2);
            assert_eq!(arg.nodeid_out, 3);
            assert_eq!(arg.fh_out, 4);
            assert_eq!(arg.off_out, 5);
            assert_eq!(arg.len, 6);
            assert_eq!(arg.flags, 7);
        }
        _ => panic!("expected COPY_FILE_RANGE"),
    }
}

#[test]
fn round_trip_readdirplus_uses_read_in() {
    let mut p = vec![0u8; 40];
    p[0..8].copy_from_slice(&9u64.to_le_bytes());
    p[16..20].copy_from_slice(&4096u32.to_le_bytes());
    match decode(&frame(OP_READDIRPLUS, &p)).unwrap().op {
        Operation::Readdirplus { arg } => {
            assert_eq!(arg.fh, 9);
            assert_eq!(arg.size, 4096);
        }
        _ => panic!("expected READDIRPLUS"),
    }
}

#[test]
fn truncated_fixed_payloads_are_rejected() {
    assert!(!decoded(OP_GETATTR, &[0u8; 8]));
    assert!(!decoded(OP_GETLK, &[0u8; 40]));
    assert!(!decoded(OP_IOCTL, &[0u8; 16]));
    assert!(!decoded(OP_FALLOCATE, &[0u8; 16]));
    assert!(!decoded(OP_COPY_FILE_RANGE, &[0u8; 48]));
    // a WRITE whose declared data exceeds the payload
    let mut p = vec![0u8; 40];
    p[16..20].copy_from_slice(&100u32.to_le_bytes());
    assert!(!decoded(polyfuse::kernel::OP_WRITE, &p));
    // a SETXATTR whose declared value exceeds the remainder
    let mut p = Vec::new();
    p.extend_from_slice(&100u32.to_le_bytes());
    p.extend_from_slice(&0u32.to_le_bytes());
    p.extend_from_slice(b"user.k\0tiny");
    assert!(!decoded(OP_SETXATTR, &p));
}
