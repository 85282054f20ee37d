use polyfuse::decode::{decode, encode_frame, DecodeError};
use polyfuse::kernel::{
    OP_GETATTR, OP_INIT, OP_LOOKUP, OP_READ, OP_READDIR, OP_SETATTR, OP_SYMLINK, OP_RENAME,
    OP_WRITE, OP_BATCH_FORGET, OP_DESTROY, OP_FORGET, CAP_ASYNC_READ, CAP_BIG_WRITES,
    MIN_READ_BUFFER,
};
use polyfuse::op::Operation;
use polyfuse::reply::{assemble_reply, reply_error_bytes, WriteOut, ReaddirOut};
use polyfuse::session::{
    default_reply, KernelConfig, Outcome, ServeEnd, Session, SessionState,
};
use polyfuse::server::Server;

fn le32(b: &[u8]) -> u32 {
    u32::from_le_bytes(b.try_into().unwrap())
}

fn le64(b: &[u8]) -> u64 {
    u64::from_le_bytes(b.try_into().unwrap())
}

fn ie32(b: &[u8]) -> i32 {
    i32::from_le_bytes(b.try_into().unwrap())
}

fn init_in_bytes(major: u32, minor: u32, max_readahead: u32, flags: u32) -> Vec<u8> {
    let mut p = Vec::new();
    p.extend_from_slice(&major.to_le_bytes());
    p.extend_from_slice(&minor.to_le_bytes());
    p.extend_from_slice(&max_readahead.to_le_bytes());
    p.extend_from_slice(&flags.to_le_bytes());
    p
}

fn test_config(capabilities: u32) -> KernelConfig {
    KernelConfig {
        max_readahead: 0xffff_ffff,
        max_write: 0x0010_0000,
        max_background: 12,
        congestion_threshold: 9,
        time_gran: 1,
        capabilities,
    }
}

/// Drive a plain handshake and return the running session.
fn started_session(capabilities: u32) -> Session {
    let mut session = Session::new(test_config(capabilities));
    let payload = init_in_bytes(7, 31, 131072, CAP_ASYNC_READ | CAP_BIG_WRITES);
    let frame = encode_frame(OP_INIT, 1, 0, 0, 0, 0, &payload);
    match session.process(&frame) {
        Outcome::Reply(_) => {}
        _ => panic!("INIT must be answered with a reply"),
    }
    assert_eq!(session.state(), SessionState::Running);
    session
}

#[test]
fn handshake_negotiates_minor_readahead_and_flags() {
    let mut session = Session::new(test_config(CAP_ASYNC_READ));
    let payload = init_in_bytes(7, 31, 131072, CAP_ASYNC_READ | CAP_BIG_WRITES);
    let frame = encode_frame(OP_INIT, 1, 0, 0, 0, 0, &payload);
    let reply = match session.process(&frame) {
        Outcome::Reply(r) => r,
        _ => panic!("INIT must be answered with a reply"),
    };
    assert_eq!(reply.len(), 80);
    assert_eq!(le32(&reply[0..4]), 80);
    assert_eq!(ie32(&reply[4..8]), 0);
    assert_eq!(le64(&reply[8..16]), 1);
    assert_eq!(le32(&reply[16..20]), 7, "major");
    assert_eq!(le32(&reply[20..24]), 31, "minor = min(31, library minor)");
    assert!(le32(&reply[24..28]) <= 131072, "max_readahead clamped");
    assert_eq!(le32(&reply[28..32]), CAP_ASYNC_READ, "flags intersected");
    assert_eq!(session.state(), SessionState::Running);
    assert_eq!(session.proto_minor(), 31);
    assert_eq!(session.flags(), CAP_ASYNC_READ);
}

#[test]
fn lookup_miss_enoent_reply() {
    let mut session = started_session(CAP_ASYNC_READ);
    let mut payload = b"missing".to_vec();
    payload.push(0);
    let frame = encode_frame(OP_LOOKUP, 42, 1, 0, 0, 0, &payload);
    let unique = match session.process(&frame) {
        Outcome::Dispatch(req) => {
            match req.op {
                Operation::Lookup { name } => assert_eq!(name, b"missing"),
                _ => panic!("expected a LOOKUP operation"),
            }
            assert_eq!(req.header.nodeid, 1);
            req.header.unique
        }
        _ => panic!("LOOKUP must be dispatched"),
    };
    let reply = reply_error_bytes(unique, 2);
    assert_eq!(reply.len(), 16);
    assert_eq!(le32(&reply[0..4]), 16);
    assert_eq!(ie32(&reply[4..8]), -2);
    assert_eq!(le64(&reply[8..16]), 42);
}

#[test]
fn readdir_budget_dot_dotdot_then_full() {
    let mut out = ReaddirOut::new(64);
    assert!(!out.entry(b".", 1, 4, 1), "first entry fits");
    assert_eq!(out.bytes().len(), 32);
    assert!(!out.entry(b"..", 1, 4, 2), "second entry fits");
    assert_eq!(out.bytes().len(), 64);
    assert!(out.entry(b"x", 2, 8, 3), "third entry must not fit");
    assert_eq!(out.bytes().len(), 64, "a full builder appends nothing");
    let frame = assemble_reply(7, &out);
    assert_eq!(le32(&frame.header[0..4]), 80, "reply length = 16 + 64");
    assert_eq!(frame.chunks.len(), 1);
    assert_eq!(frame.chunks[0].len(), 64);
}

#[test]
fn dirent_wire_layout() {
    let mut out = ReaddirOut::new(64);
    assert!(!out.entry(b".", 7, 4, 1));
    let b = out.bytes();
    assert_eq!(le64(&b[0..8]), 7, "ino");
    assert_eq!(le64(&b[8..16]), 1, "offset");
    assert_eq!(le32(&b[16..20]), 1, "namelen");
    assert_eq!(le32(&b[20..24]), 4, "type");
    assert_eq!(b[24], b'.');
    assert_eq!(&b[25..32], &[0u8; 7], "zero padding to 8 bytes");
}

#[test]
fn write_passthrough() {
    let mut session = started_session(CAP_ASYNC_READ);
    let mut payload = Vec::new();
    payload.extend_from_slice(&9u64.to_le_bytes()); // fh
    payload.extend_from_slice(&10u64.to_le_bytes()); // offset
    payload.extend_from_slice(&4u32.to_le_bytes()); // size
    payload.extend_from_slice(&0u32.to_le_bytes()); // write flags
    payload.extend_from_slice(&0u64.to_le_bytes()); // lock owner
    payload.extend_from_slice(&0u32.to_le_bytes()); // flags
    payload.extend_from_slice(&0u32.to_le_bytes()); // padding
    payload.extend_from_slice(b"data");
    let frame = encode_frame(OP_WRITE, 11, 5, 0, 0, 0, &payload);
    let unique = match session.process(&frame) {
        Outcome::Dispatch(req) => {
            match req.op {
                Operation::Write { arg, data } => {
                    assert_eq!(arg.fh, 9);
                    assert_eq!(arg.offset, 10);
                    assert_eq!(arg.size, 4);
                    assert_eq!(data, b"data");
                }
                _ => panic!("expected a WRITE operation"),
            }
            assert_eq!(req.header.nodeid, 5);
            req.header.unique
        }
        _ => panic!("WRITE must be dispatched"),
    };
    let mut wo = WriteOut::new();
    wo.set_size(4);
    let reply = assemble_reply(unique, &wo);
    assert_eq!(le32(&reply.header[0..4]), 16 + 8, "16 + the write reply size");
    assert_eq!(ie32(&reply.header[4..8]), 0);
    assert_eq!(le64(&reply.header[8..16]), 11);
    assert_eq!(le32(&reply.chunks[0][0..4]), 4, "bytes written echoed");
}

#[test]
fn notification_retrieve_and_reply() {
    let mut session = started_session(CAP_ASYNC_READ);
    let (frame, unique) = session.notify_retrieve(2, 0, 16);
    assert_eq!(le32(&frame[0..4]), 48, "16 header + 32 payload");
    assert_eq!(ie32(&frame[4..8]), -5, "error = -NOTIFY_RETRIEVE");
    assert_eq!(le64(&frame[8..16]), 0, "notifications carry unique 0");
    assert_eq!(le64(&frame[16..24]), unique, "fresh notification unique");
    assert_eq!(le64(&frame[24..32]), 2, "ino");
    assert_eq!(le64(&frame[32..40]), 0, "offset");
    assert_eq!(le32(&frame[40..44]), 16, "size");
    assert_eq!(session.pending_retrieves(), 1);

    // The kernel answers with NOTIFY_REPLY carrying that unique.
    let mut payload = Vec::new();
    payload.extend_from_slice(&0u64.to_le_bytes()); // dummy
    payload.extend_from_slice(&0u64.to_le_bytes()); // offset
    payload.extend_from_slice(&0u32.to_le_bytes()); // size
    payload.extend_from_slice(&[0u8; 20]); // dummy tail
    let reply_frame = encode_frame(41, unique, 2, 0, 0, 0, &payload);
    match session.process(&reply_frame) {
        Outcome::Consumed => {}
        _ => panic!("NOTIFY_REPLY is consumed without a reply"),
    }
    assert_eq!(session.pending_retrieves(), 0, "registry entry removed");
}

#[test]
fn enodev_is_clean_shutdown() {
    let mut session = started_session(CAP_ASYNC_READ);
    assert_eq!(session.on_read_error(19), ServeEnd::Shutdown);
    assert_eq!(session.state(), SessionState::Destroyed);
}

#[test]
fn other_read_errors_are_surfaced() {
    let mut session = started_session(CAP_ASYNC_READ);
    assert_eq!(session.on_read_error(5), ServeEnd::Fail);
    assert_eq!(session.state(), SessionState::Destroyed);
}

#[test]
fn unknown_opcode_enosys_same_unique() {
    let mut session = started_session(CAP_ASYNC_READ);
    let frame = encode_frame(0xffff_ffff, 77, 0, 0, 0, 0, &[]);
    let reply = match session.process(&frame) {
        Outcome::Reply(r) => r,
        _ => panic!("unknown opcodes must be answered"),
    };
    assert_eq!(le32(&reply[0..4]), 16);
    assert_eq!(ie32(&reply[4..8]), -38, "error = -ENOSYS");
    assert_eq!(le64(&reply[8..16]), 77);
}

#[test]
fn older_major_echoes_then_second_init_completes() {
    let mut session = Session::new(test_config(CAP_ASYNC_READ));
    let first = encode_frame(OP_INIT, 1, 0, 0, 0, 0, &init_in_bytes(6, 8, 0, 0));
    let reply = match session.process(&first) {
        Outcome::Reply(r) => r,
        _ => panic!("a foreign major is answered with an echo reply"),
    };
    assert_eq!(le32(&reply[0..4]), 80);
    assert_eq!(le32(&reply[16..20]), 7, "echoes the library major");
    assert_eq!(le32(&reply[20..24]), 31, "echoes the library minor");
    assert_eq!(le32(&reply[28..32]), 0, "no capabilities yet");
    assert_eq!(session.state(), SessionState::Initializing);

    let second = encode_frame(OP_INIT, 2, 0, 0, 0, 0, &init_in_bytes(7, 31, 0, 0));
    match session.process(&second) {
        Outcome::Reply(_) => {}
        _ => panic!("the compatible INIT completes the handshake"),
    }
    assert_eq!(session.state(), SessionState::Running);
}

#[test]
fn too_old_minor_is_fatal_with_enosys() {
    let mut session = Session::new(test_config(CAP_ASYNC_READ));
    let frame = encode_frame(OP_INIT, 3, 0, 0, 0, 0, &init_in_bytes(7, 22, 0, 0));
    match session.process(&frame) {
        Outcome::Fatal(Some(reply)) => {
            assert_eq!(ie32(&reply[4..8]), -38);
            assert_eq!(le64(&reply[8..16]), 3);
        }
        _ => panic!("a minor below the supported minimum is fatal"),
    }
    assert_eq!(session.state(), SessionState::Destroyed);
}

#[test]
fn non_init_during_handshake_gets_enosys() {
    let mut session = Session::new(test_config(CAP_ASYNC_READ));
    let mut payload = vec![0u8; 16];
    payload[8..16].copy_from_slice(&1u64.to_le_bytes());
    let frame = encode_frame(OP_GETATTR, 9, 1, 0, 0, 0, &payload);
    let reply = match session.process(&frame) {
        Outcome::Reply(r) => r,
        _ => panic!("non-INIT requests in the handshake are answered"),
    };
    assert_eq!(ie32(&reply[4..8]), -38);
    assert_eq!(le64(&reply[8..16]), 9);
    assert_eq!(session.state(), SessionState::Initializing);
}

#[test]
fn capability_bits_are_intersected() {
    let kernel_flags = CAP_ASYNC_READ | CAP_BIG_WRITES | 0x4000_0000;
    let caller = CAP_ASYNC_READ | 0x0800_0000;
    let mut session = Session::new(test_config(caller));
    let frame = encode_frame(OP_INIT, 1, 0, 0, 0, 0, &init_in_bytes(7, 31, 0, kernel_flags));
    let reply = match session.process(&frame) {
        Outcome::Reply(r) => r,
        _ => panic!("INIT must be answered"),
    };
    let negotiated = le32(&reply[28..32]);
    for b in 0..32u32 {
        let bit = 1u32 << b;
        assert_eq!(
            negotiated & bit != 0,
            kernel_flags & bit != 0 && caller & bit != 0,
            "bit {} must be set iff set on both sides",
            b
        );
    }
}

#[test]
fn destroy_replies_and_shuts_down() {
    let mut session = started_session(CAP_ASYNC_READ);
    let frame = encode_frame(OP_DESTROY, 13, 0, 0, 0, 0, &[]);
    let reply = match session.process(&frame) {
        Outcome::Shutdown(r) => r,
        _ => panic!("DESTROY begins the shutdown"),
    };
    assert_eq!(le32(&reply[0..4]), 16);
    assert_eq!(ie32(&reply[4..8]), 0);
    assert_eq!(le64(&reply[8..16]), 13);
    assert_eq!(session.state(), SessionState::Destroying);
    session.shutdown_complete();
    assert_eq!(session.state(), SessionState::Destroyed);
    let late = encode_frame(OP_LOOKUP, 14, 1, 0, 0, 0, b"x\0");
    assert!(matches!(session.process(&late), Outcome::Rejected));
}

#[test]
fn forget_is_dispatched_without_reply() {
    let mut session = started_session(CAP_ASYNC_READ);
    let frame = encode_frame(OP_FORGET, 21, 3, 0, 0, 0, &5u64.to_le_bytes());
    match session.process(&frame) {
        Outcome::Dispatch(req) => match req.op {
            Operation::Forget { nlookup } => assert_eq!(nlookup, 5),
            _ => panic!("expected a FORGET operation"),
        },
        _ => panic!("FORGET is dispatched"),
    }
    let header = polyfuse::kernel::InHeader {
        len: 48,
        opcode: OP_FORGET,
        unique: 21,
        nodeid: 3,
        uid: 0,
        gid: 0,
        pid: 0,
        padding: 0,
    };
    assert!(default_reply(&header).is_none(), "FORGET gets no reply at all");
}

#[test]
fn default_replies_follow_the_opcode_class() {
    let mk = |opcode: u32| polyfuse::kernel::InHeader {
        len: 40,
        opcode,
        unique: 33,
        nodeid: 0,
        uid: 0,
        gid: 0,
        pid: 0,
        padding: 0,
    };
    let empty = default_reply(&mk(polyfuse::kernel::OP_UNLINK)).unwrap();
    assert_eq!(ie32(&empty[4..8]), 0, "side-effectful opcodes default to empty success");
    assert_eq!(le64(&empty[8..16]), 33);
    let enosys = default_reply(&mk(OP_LOOKUP)).unwrap();
    assert_eq!(ie32(&enosys[4..8]), -38, "unimplemented variants default to ENOSYS");
    assert!(default_reply(&mk(polyfuse::kernel::OP_BATCH_FORGET)).is_none());
}

#[test]
fn round_trip_lookup() {
    let frame = encode_frame(OP_LOOKUP, 2, 1, 1000, 1000, 77, b"hello\0");
    let req = decode(&frame).unwrap();
    assert_eq!(req.header.len as usize, frame.len());
    assert_eq!(req.header.opcode, OP_LOOKUP);
    assert_eq!(req.header.unique, 2);
    assert_eq!(req.header.nodeid, 1);
    assert_eq!(req.header.uid, 1000);
    assert_eq!(req.header.gid, 1000);
    assert_eq!(req.header.pid, 77);
    assert_eq!(req.payload.len(), req.header.len as usize - 40);
    match req.op {
        Operation::Lookup { name } => assert_eq!(name, b"hello"),
        _ => panic!("expected a LOOKUP operation"),
    }
}

#[test]
fn round_trip_read_fields() {
    let mut payload = Vec::new();
    payload.extend_from_slice(&3u64.to_le_bytes()); // fh
    payload.extend_from_slice(&4096u64.to_le_bytes()); // offset
    payload.extend_from_slice(&512u32.to_le_bytes()); // size
    payload.extend_from_slice(&1u32.to_le_bytes()); // read flags
    payload.extend_from_slice(&99u64.to_le_bytes()); // lock owner
    payload.extend_from_slice(&2u32.to_le_bytes()); // flags
    payload.extend_from_slice(&0u32.to_le_bytes()); // padding
    let frame = encode_frame(OP_READ, 5, 2, 0, 0, 0, &payload);
    let req = decode(&frame).unwrap();
    assert_eq!(req.payload.len(), 40);
    match req.op {
        Operation::Read { arg } => {
            assert_eq!(arg.fh, 3);
            assert_eq!(arg.offset, 4096);
            assert_eq!(arg.size, 512);
            assert_eq!(arg.read_flags, 1);
            assert_eq!(arg.lock_owner, 99);
            assert_eq!(arg.flags, 2);
        }
        _ => panic!("expected a READ operation"),
    }
}

#[test]
fn round_trip_readdir_uses_read_in() {
    let mut payload = vec![0u8; 40];
    payload[0..8].copy_from_slice(&7u64.to_le_bytes());
    payload[16..20].copy_from_slice(&64u32.to_le_bytes());
    let frame = encode_frame(OP_READDIR, 6, 1, 0, 0, 0, &payload);
    match decode(&frame).unwrap().op {
        Operation::Readdir { arg } => {
            assert_eq!(arg.fh, 7);
            assert_eq!(arg.offset, 0);
            assert_eq!(arg.size, 64);
        }
        _ => panic!("expected a READDIR operation"),
    }
}

#[test]
fn round_trip_symlink_two_names() {
    let frame = encode_frame(OP_SYMLINK, 8, 1, 0, 0, 0, b"newlink\0target/path\0");
    match decode(&frame).unwrap().op {
        Operation::Symlink { name, link } => {
            assert_eq!(name, b"newlink");
            assert_eq!(link, b"target/path");
        }
        _ => panic!("expected a SYMLINK operation"),
    }
}

#[test]
fn round_trip_rename_two_names() {
    let mut payload = Vec::new();
    payload.extend_from_slice(&9u64.to_le_bytes()); // newdir
    payload.extend_from_slice(b"old\0new\0");
    let frame = encode_frame(OP_RENAME, 9, 4, 0, 0, 0, &payload);
    match decode(&frame).unwrap().op {
        Operation::Rename { newdir, name, newname } => {
            assert_eq!(newdir, 9);
            assert_eq!(name, b"old");
            assert_eq!(newname, b"new");
        }
        _ => panic!("expected a RENAME operation"),
    }
}

#[test]
fn round_trip_batch_forget() {
    let mut payload = Vec::new();
    payload.extend_from_slice(&2u32.to_le_bytes()); // count
    payload.extend_from_slice(&0u32.to_le_bytes()); // dummy
    payload.extend_from_slice(&10u64.to_le_bytes());
    payload.extend_from_slice(&1u64.to_le_bytes());
    payload.extend_from_slice(&20u64.to_le_bytes());
    payload.extend_from_slice(&3u64.to_le_bytes());
    let frame = encode_frame(OP_BATCH_FORGET, 10, 0, 0, 0, 0, &payload);
    match decode(&frame).unwrap().op {
        Operation::BatchForget { forgets } => {
            assert_eq!(forgets.len(), 2);
            assert_eq!(forgets[0].nodeid, 10);
            assert_eq!(forgets[0].nlookup, 1);
            assert_eq!(forgets[1].nodeid, 20);
            assert_eq!(forgets[1].nlookup, 3);
        }
        _ => panic!("expected a BATCH_FORGET operation"),
    }
}

#[test]
fn round_trip_setattr_times() {
    let mut payload = vec![0u8; 88];
    payload[0..4].copy_from_slice(&(0x10u32 | 0x80u32).to_le_bytes()); // atime | atime-now
    payload[32..40].copy_from_slice(&111u64.to_le_bytes()); // atime
    payload[40..48].copy_from_slice(&222u64.to_le_bytes()); // mtime
    let frame = encode_frame(OP_SETATTR, 12, 1, 0, 0, 0, &payload);
    match decode(&frame).unwrap().op {
        Operation::Setattr { arg } => {
            assert_eq!(arg.valid, 0x90);
            assert_eq!(arg.atime, 111);
            assert_eq!(arg.mtime, 222);
            assert_eq!(arg.atime_target(), polyfuse::op::SetTime::Now);
            assert_eq!(arg.mtime_target(), polyfuse::op::SetTime::Omit);
        }
        _ => panic!("expected a SETATTR operation"),
    }
}

#[test]
fn decode_rejects_short_buffers() {
    assert!(matches!(
        decode(&[0u8; 12]),
        Err(DecodeError::TooShort { actual: 12 })
    ));
}

#[test]
fn decode_rejects_bad_declared_length() {
    let mut frame = encode_frame(OP_LOOKUP, 1, 1, 0, 0, 0, b"a\0");
    frame[0..4].copy_from_slice(&1000u32.to_le_bytes());
    assert!(matches!(
        decode(&frame),
        Err(DecodeError::BadLength { declared: 1000, actual: 42 })
    ));
}

#[test]
fn decode_rejects_name_without_terminator() {
    let frame = encode_frame(OP_LOOKUP, 1, 1, 0, 0, 0, b"noterminator");
    assert!(matches!(decode(&frame), Err(DecodeError::BadPayload { opcode: OP_LOOKUP })));
}

#[test]
fn malformed_frame_gets_eio_reply() {
    let mut session = started_session(CAP_ASYNC_READ);
    let frame = encode_frame(OP_LOOKUP, 55, 1, 0, 0, 0, b"noterminator");
    let reply = match session.process(&frame) {
        Outcome::Reply(r) => r,
        _ => panic!("malformed frames are answered with EIO"),
    };
    assert_eq!(ie32(&reply[4..8]), -5, "error = -EIO");
    assert_eq!(le64(&reply[8..16]), 55);
}

#[test]
fn buffer_sizes() {
    let session = started_session(CAP_ASYNC_READ);
    assert_eq!(session.buffer_size(), 80 + 0x0010_0000);
    assert_eq!(session.init_buf_size(), MIN_READ_BUFFER);
    let mut small = Session::new(KernelConfig {
        max_write: 1024,
        ..KernelConfig::default()
    });
    let frame = encode_frame(OP_INIT, 1, 0, 0, 0, 0, &init_in_bytes(7, 31, 0, 0));
    let _ = small.process(&frame);
    assert_eq!(small.buffer_size(), MIN_READ_BUFFER, "small writes fall back to the minimum");
}

#[test]
fn server_try_clone_shares_the_view() {
    let mut server = Server::new(test_config(CAP_ASYNC_READ));
    let payload = init_in_bytes(7, 31, 131072, CAP_ASYNC_READ);
    let frame = encode_frame(OP_INIT, 1, 0, 0, 0, 0, &payload);
    match server.process(&frame) {
        Outcome::Reply(_) => {}
        _ => panic!("INIT must be answered"),
    }
    assert_eq!(server.state(), SessionState::Running);
    let clone = server.try_clone();
    assert_eq!(clone.state(), SessionState::Running);
    assert_eq!(clone.proto_minor(), server.proto_minor());
    assert_eq!(clone.flags(), server.flags());
    assert_eq!(clone.pending_retrieves(), server.pending_retrieves());
}

#[test]
fn server_retrieve_and_shutdown() {
    let mut server = Server::new(test_config(CAP_ASYNC_READ));
    let frame = encode_frame(OP_INIT, 1, 0, 0, 0, 0, &init_in_bytes(7, 31, 0, 0));
    let _ = server.process(&frame);
    let (notification, unique) = server.notify_retrieve(4, 8, 32);
    assert_eq!(le32(&notification[0..4]), 48);
    assert_eq!(le64(&notification[16..24]), unique);
    assert_eq!(server.pending_retrieves(), 1);
    assert_eq!(server.on_read_error(19), ServeEnd::Shutdown);
}

#[test]
fn no_reply_opcodes_are_silent_during_handshake() {
    let mut session = Session::new(test_config(CAP_ASYNC_READ));
    let frame = encode_frame(OP_FORGET, 17, 3, 0, 0, 0, &5u64.to_le_bytes());
    assert!(
        matches!(session.process(&frame), Outcome::Consumed),
        "a request that never gets a reply is dropped, not answered"
    );
    assert_eq!(session.state(), SessionState::Initializing);
}

#[test]
fn server_notification_builders() {
    let server = Server::new(test_config(CAP_ASYNC_READ));
    let f = server.notify_poll_wakeup(12);
    assert_eq!(f.len(), 24);
    assert_eq!(le64(&f[16..24]), 12);
    let f = server.notify_inval_inode(3, 0, -1);
    assert_eq!(f.len(), 40);
    assert_eq!(le64(&f[16..24]), 3);
    let f = server.notify_inval_entry(1, b"stale");
    assert_eq!(f.len(), 38);
    assert_eq!(&f[32..37], b"stale");
    let f = server.notify_delete(1, 8, b"bye");
    assert_eq!(le64(&f[24..32]), 8);
    let f = server.notify_store(2, 4, b"fresh");
    assert_eq!(&f[40..45], b"fresh");
}
