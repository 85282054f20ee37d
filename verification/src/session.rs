//! The session state machine: handshake, dispatch, notifications and
//! shutdown.
//!
//! A session is a pure function from its state and one incoming frame to
//! its next state and one action — reply with a frame, hand the request to
//! the filesystem, consume it silently, or stop. The surrounding program
//! runs the read loop, performs the action, and feeds the next frame back
//! in; everything the session decides is specified by [`spec_step`].

use vstd::prelude::*;
use vstd::bytes::*;
use crate::wire::{le64_at, put_u16, put_u32, put_u64};
use crate::kernel::{
    InHeader, spec_in_header, parse_in_header, spec_out_header_bytes, spec_neg_errno,
    PROTO_MAJOR, PROTO_MINOR, MIN_PROTO_MINOR, MIN_READ_BUFFER, EIO, ENOSYS, ENODEV,
    OP_INIT, OP_DESTROY, OP_NOTIFY_REPLY, OP_FORGET, OP_BATCH_FORGET, OP_INTERRUPT, OP_UNLINK,
    OP_RMDIR, OP_RENAME, OP_RENAME2, OP_FSYNC, OP_FSYNCDIR, OP_FLUSH, OP_RELEASE, OP_RELEASEDIR,
    OP_SETXATTR, OP_REMOVEXATTR, OP_ACCESS, OP_FALLOCATE, OP_SETLK, OP_SETLKW,
    NOTIFY_RETRIEVE, CAP_ASYNC_READ, CAP_ATOMIC_O_TRUNC, CAP_BIG_WRITES, CAP_AUTO_INVAL_DATA,
    CAP_PARALLEL_DIROPS, neg_errno,
};
use crate::op::{InitIn, Operation, spec_init_in, payload_wf, op_matches, is_known_opcode};
use crate::decode::{decode, Request, DecodeError, spec_payload, frame_wf};
use crate::reply::{make_frame, reply_error_bytes, reply_empty_bytes};

verus! {

/// Capabilities a default configuration enables.
pub const DEFAULT_CAPABILITIES: u32 = CAP_ASYNC_READ | CAP_ATOMIC_O_TRUNC | CAP_BIG_WRITES
    | CAP_AUTO_INVAL_DATA | CAP_PARALLEL_DIROPS;

/// The lifecycle of a session.
#[derive(Clone, Copy, Debug, PartialEq, Eq, Structural)]
pub enum SessionState {
    Uninitialized,
    Initializing,
    Running,
    Destroying,
    Destroyed,
}

/// Caller-supplied configuration, consumed at the handshake.
#[derive(Clone, Copy, Debug, PartialEq, Eq, Structural)]
pub struct KernelConfig {
    /// Cap on the kernel's readahead, clamped against the kernel's wish.
    pub max_readahead: u32,
    /// Largest write payload the library accepts.
    pub max_write: u32,
    /// Maximum concurrent background requests.
    pub max_background: u16,
    /// Soft cap for backpressure.
    pub congestion_threshold: u16,
    /// Nanosecond granularity of timestamps.
    pub time_gran: u32,
    /// Capability bits the caller enables; the handshake intersects them
    /// with the kernel's.
    pub capabilities: u32,
}

impl Default for KernelConfig {
    /// Unbounded readahead, one-mebibyte writes, and the default
    /// capability set.
    fn default() -> (r: KernelConfig)
        ensures
            r == (KernelConfig {
                max_readahead: 0xffff_ffff,
                max_write: 0x0010_0000,
                max_background: 0,
                congestion_threshold: 0,
                time_gran: 1,
                capabilities: DEFAULT_CAPABILITIES,
            }),
    {
        KernelConfig {
            max_readahead: 0xffff_ffff,
            max_write: 0x0010_0000,
            max_background: 0,
            congestion_threshold: 0,
            time_gran: 1,
            capabilities: DEFAULT_CAPABILITIES,
        }
    }
}

/// The mathematical state of a session.
#[verifier::ext_equal]
pub struct SessionView {
    pub state: SessionState,
    pub config: KernelConfig,
    pub proto_minor: u32,
    pub max_readahead: u32,
    pub flags: u32,
    pub max_write: u32,
    pub notify_unique: u64,
    pub pending: Seq<u64>,
    pub init_retried: bool,
}

/// The notification registry is consistent: every outstanding unique was
/// drawn from the counter and no unique is outstanding twice.
pub open spec fn session_inv(v: SessionView) -> bool {
    &&& forall|i: int| 0 <= i < v.pending.len() ==> #[trigger] v.pending[i] < v.notify_unique
    &&& forall|i: int, j: int|
        0 <= i < j < v.pending.len() ==> v.pending[i] != v.pending[j]
}

/// `s` with every occurrence of `x` removed, order kept.
pub open spec fn without(s: Seq<u64>, x: u64) -> Seq<u64>
    decreases s.len(),
{
    if s.len() == 0 {
        Seq::empty()
    } else if s.last() == x {
        without(s.drop_last(), x)
    } else {
        without(s.drop_last(), x).push(s.last())
    }
}

/// Removing a value keeps every other value and drops that one.
pub proof fn lemma_without_props(s: Seq<u64>, x: u64)
    ensures
        !without(s, x).contains(x),
        forall|y: u64| #[trigger] without(s, x).contains(y) ==> s.contains(y),
        forall|y: u64| y != x && s.contains(y) ==> without(s, x).contains(y),
    decreases s.len(),
{
    if s.len() > 0 {
        lemma_without_props(s.drop_last(), x);
        let w = without(s.drop_last(), x);
        assert forall|y: u64| #[trigger] without(s, x).contains(y) implies s.contains(y) by {
            let i = choose|i: int| 0 <= i < without(s, x).len() && without(s, x)[i] == y;
            if s.last() == x || i < w.len() {
                assert(w[i] == y);
                assert(w.contains(y));
                let k = choose|k: int| 0 <= k < s.drop_last().len() && s.drop_last()[k] == y;
                assert(s[k] == y);
            } else {
                assert(y == s.last());
                assert(s[s.len() - 1] == y);
            }
        }
        assert forall|y: u64| y != x && s.contains(y) implies without(s, x).contains(y) by {
            let i = choose|i: int| 0 <= i < s.len() && s[i] == y;
            if i < s.len() - 1 {
                assert(s.drop_last()[i] == y);
                assert(s.drop_last().contains(y));
                assert(w.contains(y));
                if s.last() != x {
                    let j = choose|j: int| 0 <= j < w.len() && w[j] == y;
                    assert(without(s, x)[j] == y);
                    assert(without(s, x).contains(y));
                }
            } else {
                assert(s.last() == y);
                assert(without(s, x).last() == y);
                assert(without(s, x)[without(s, x).len() - 1] == y);
            }
        }
    }
}

/// The action a step asks the surrounding program to perform.
pub enum ActionSpec {
    /// Write this frame, then continue reading.
    Reply(Seq<u8>),
    /// Hand the decoded request to the filesystem.
    Dispatch,
    /// Nothing to write; continue reading.
    Consumed,
    /// Write this frame, then stop: the kernel asked for destruction.
    Shutdown(Seq<u8>),
    /// The handshake failed; write the frame if one is given and surface
    /// an error to the caller.
    Fatal(Option<Seq<u8>>),
    /// The session no longer accepts work.
    Rejected,
}

/// The EIO error frame for a malformed request.
pub open spec fn eio_frame(unique: u64) -> Seq<u8> {
    spec_out_header_bytes(16, spec_neg_errno(EIO), unique)
}

/// The ENOSYS error frame for an unsupported request.
pub open spec fn enosys_frame(unique: u64) -> Seq<u8> {
    spec_out_header_bytes(16, spec_neg_errno(ENOSYS), unique)
}

/// The empty success frame.
pub open spec fn empty_ok_frame(unique: u64) -> Seq<u8> {
    spec_out_header_bytes(16, 0, unique)
}

/// The 64-byte INIT_OUT payload.
pub open spec fn spec_init_out_bytes(
    major: u32,
    minor: u32,
    max_readahead: u32,
    flags: u32,
    max_background: u16,
    congestion_threshold: u16,
    max_write: u32,
    time_gran: u32,
) -> Seq<u8> {
    spec_u32_to_le_bytes(major) + spec_u32_to_le_bytes(minor) + spec_u32_to_le_bytes(max_readahead)
        + spec_u32_to_le_bytes(flags) + spec_u16_to_le_bytes(max_background)
        + spec_u16_to_le_bytes(congestion_threshold) + spec_u32_to_le_bytes(max_write)
        + spec_u32_to_le_bytes(time_gran) + Seq::new(36, |i: int| 0u8)
}

/// The handshake transition for one INIT request: echo-and-retry on a
/// foreign major, fatal rejection on a too-old minor, otherwise negotiate
/// and run.
pub open spec fn spec_init_step(v: SessionView, h: InHeader, a: InitIn) -> (SessionView, ActionSpec) {
    if a.major != PROTO_MAJOR {
        if v.init_retried {
            (SessionView { state: SessionState::Destroyed, ..v }, ActionSpec::Fatal(None))
        } else {
            (
                SessionView { state: SessionState::Initializing, init_retried: true, ..v },
                ActionSpec::Reply(
                    spec_out_header_bytes(80, 0, h.unique) + spec_init_out_bytes(
                        PROTO_MAJOR,
                        PROTO_MINOR,
                        0,
                        0,
                        0,
                        0,
                        0,
                        0,
                    ),
                ),
            )
        }
    } else if a.minor < MIN_PROTO_MINOR {
        (
            SessionView { state: SessionState::Destroyed, ..v },
            ActionSpec::Fatal(Some(enosys_frame(h.unique))),
        )
    } else {
        let minor = if a.minor < PROTO_MINOR {
            a.minor
        } else {
            PROTO_MINOR
        };
        let ra = if a.max_readahead < v.config.max_readahead {
            a.max_readahead
        } else {
            v.config.max_readahead
        };
        let fl = a.flags & v.config.capabilities;
        (
            SessionView {
                state: SessionState::Running,
                proto_minor: minor,
                max_readahead: ra,
                flags: fl,
                max_write: v.config.max_write,
                ..v
            },
            ActionSpec::Reply(
                spec_out_header_bytes(80, 0, h.unique) + spec_init_out_bytes(
                    PROTO_MAJOR,
                    minor,
                    ra,
                    fl,
                    v.config.max_background,
                    v.config.congestion_threshold,
                    v.config.max_write,
                    v.config.time_gran,
                ),
            ),
        )
    }
}

/// The complete transition function of the session: from a state and one
/// raw frame to the next state and the action owed for it.
pub open spec fn spec_step(v: SessionView, b: Seq<u8>) -> (SessionView, ActionSpec) {
    let h = spec_in_header(b);
    let p = spec_payload(b);
    if v.state == SessionState::Destroying || v.state == SessionState::Destroyed {
        (v, ActionSpec::Rejected)
    } else if b.len() < 40 {
        (v, ActionSpec::Consumed)
    } else if h.len < 40 || h.len > b.len() || !payload_wf(h.opcode, p) {
        (v, ActionSpec::Reply(eio_frame(h.unique)))
    } else if h.opcode == OP_DESTROY {
        (
            SessionView { state: SessionState::Destroying, ..v },
            ActionSpec::Shutdown(empty_ok_frame(h.unique)),
        )
    } else if v.state == SessionState::Uninitialized || v.state == SessionState::Initializing {
        if h.opcode == OP_INIT {
            spec_init_step(v, h, spec_init_in(p))
        } else if no_reply_opcode(h.opcode) {
            // Requests that never get a reply are dropped silently even
            // before the handshake is done.
            (SessionView { state: SessionState::Initializing, ..v }, ActionSpec::Consumed)
        } else {
            (
                SessionView { state: SessionState::Initializing, ..v },
                ActionSpec::Reply(enosys_frame(h.unique)),
            )
        }
    } else {
        if h.opcode == OP_INIT {
            (v, ActionSpec::Reply(eio_frame(h.unique)))
        } else if h.opcode == OP_NOTIFY_REPLY {
            (SessionView { pending: without(v.pending, h.unique), ..v }, ActionSpec::Consumed)
        } else if !is_known_opcode(h.opcode) {
            (v, ActionSpec::Reply(enosys_frame(h.unique)))
        } else {
            (v, ActionSpec::Dispatch)
        }
    }
}

/// What the session hands back for one frame.
pub enum Outcome<'a> {
    /// Write this frame, then continue reading.
    Reply(Vec<u8>),
    /// Hand this request to the filesystem.
    Dispatch(Request<'a>),
    /// Nothing to write; continue reading.
    Consumed,
    /// Write this frame, then finish the shutdown.
    Shutdown(Vec<u8>),
    /// The handshake failed; write the frame if one is given and surface
    /// an error.
    Fatal(Option<Vec<u8>>),
    /// The session no longer accepts work.
    Rejected,
}

/// The executable outcome realises the specified action: byte-for-byte
/// equal frames, and a dispatched request decoded from exactly this frame.
pub open spec fn outcome_matches<'a>(r: Outcome<'a>, a: ActionSpec, b: Seq<u8>) -> bool {
    match (r, a) {
        (Outcome::Reply(v), ActionSpec::Reply(s)) => v@ == s,
        (Outcome::Dispatch(req), ActionSpec::Dispatch) => {
            &&& req.header == spec_in_header(b)
            &&& req.payload@ == spec_payload(b)
            &&& op_matches(req.op, spec_in_header(b).opcode, spec_payload(b))
        },
        (Outcome::Consumed, ActionSpec::Consumed) => true,
        (Outcome::Shutdown(v), ActionSpec::Shutdown(s)) => v@ == s,
        (Outcome::Fatal(rv), ActionSpec::Fatal(sv)) => match (rv, sv) {
            (None, None) => true,
            (Some(v), Some(s)) => v@ == s,
            _ => false,
        },
        (Outcome::Rejected, ActionSpec::Rejected) => true,
        _ => false,
    }
}

/// A FUSE session: negotiated protocol parameters, lifecycle state, and
/// the notification registry.
pub struct Session {
    state: SessionState,
    config: KernelConfig,
    proto_minor: u32,
    max_readahead: u32,
    flags: u32,
    max_write: u32,
    notify_unique: u64,
    pending: Vec<u64>,
    init_retried: bool,
}

impl View for Session {
    type V = SessionView;

    closed spec fn view(&self) -> SessionView {
        SessionView {
            state: self.state,
            config: self.config,
            proto_minor: self.proto_minor,
            max_readahead: self.max_readahead,
            flags: self.flags,
            max_write: self.max_write,
            notify_unique: self.notify_unique,
            pending: self.pending@,
            init_retried: self.init_retried,
        }
    }
}

/// Build the 64-byte INIT_OUT payload.
fn init_out_bytes(
    major: u32,
    minor: u32,
    max_readahead: u32,
    flags: u32,
    max_background: u16,
    congestion_threshold: u16,
    max_write: u32,
    time_gran: u32,
) -> (r: Vec<u8>)
    ensures
        r@ == spec_init_out_bytes(
            major,
            minor,
            max_readahead,
            flags,
            max_background,
            congestion_threshold,
            max_write,
            time_gran,
        ),
        r@.len() == 64,
{
    proof {
        lemma_auto_spec_u16_to_from_le_bytes();
        lemma_auto_spec_u32_to_from_le_bytes();
    }
    let mut out: Vec<u8> = Vec::new();
    put_u32(&mut out, major);
    put_u32(&mut out, minor);
    put_u32(&mut out, max_readahead);
    put_u32(&mut out, flags);
    put_u16(&mut out, max_background);
    put_u16(&mut out, congestion_threshold);
    put_u32(&mut out, max_write);
    put_u32(&mut out, time_gran);
    let mut pad: Vec<u8> = vec![0u8; 36];
    proof {
        assert(pad@ =~= Seq::new(36, |i: int| 0u8));
    }
    out.append(&mut pad);
    out
}

impl Session {
    /// A fresh session for one mount: not yet initialized, with an empty
    /// notification registry.
    pub fn new(config: KernelConfig) -> (r: Session)
        ensures
            r@ == (SessionView {
                state: SessionState::Uninitialized,
                config,
                proto_minor: 0,
                max_readahead: 0,
                flags: 0,
                max_write: 0,
                notify_unique: 0,
                pending: Seq::empty(),
                init_retried: false,
            }),
            session_inv(r@),
    {
        let r = Session {
            state: SessionState::Uninitialized,
            config,
            proto_minor: 0,
            max_readahead: 0,
            flags: 0,
            max_write: 0,
            notify_unique: 0,
            pending: Vec::new(),
            init_retried: false,
        };
        proof {
            assert(r@ =~= SessionView {
                state: SessionState::Uninitialized,
                config,
                proto_minor: 0,
                max_readahead: 0,
                flags: 0,
                max_write: 0,
                notify_unique: 0,
                pending: Seq::empty(),
                init_retried: false,
            });
        }
        r
    }

    /// An identical second handle onto the same protocol state, for a
    /// second writer.
    pub fn try_clone(&self) -> (r: Session)
        ensures
            r@ == self@,
    {
        let mut pending: Vec<u64> = Vec::new();
        let n = self.pending.len();
        for i in 0..n
            invariant
                n == self.pending@.len(),
                pending@ == self.pending@.take(i as int),
        {
            pending.push(self.pending[i]);
            proof {
                assert(self.pending@.take(i as int).push(self.pending@[i as int]) =~= self
                    .pending@.take(i + 1));
            }
        }
        proof {
            assert(self.pending@.take(n as int) =~= self.pending@);
        }
        let r = Session {
            state: self.state,
            config: self.config,
            proto_minor: self.proto_minor,
            max_readahead: self.max_readahead,
            flags: self.flags,
            max_write: self.max_write,
            notify_unique: self.notify_unique,
            pending,
            init_retried: self.init_retried,
        };
        proof {
            assert(r@ =~= self@);
        }
        r
    }

    /// Remove every registry entry for `unique`.
    fn remove_pending(&mut self, unique: u64)
        ensures
            final(self)@ == (SessionView { pending: without(old(self)@.pending, unique), ..old(self)@ }),
    {
        let n = self.pending.len();
        let mut out: Vec<u64> = Vec::new();
        for i in 0..n
            invariant
                n == self.pending@.len(),
                self@ == old(self)@,
                out@ == without(self.pending@.take(i as int), unique),
        {
            let v = self.pending[i];
            proof {
                assert(self.pending@.take(i + 1).drop_last() =~= self.pending@.take(i as int));
                assert(self.pending@.take(i + 1).last() == self.pending@[i as int]);
            }
            if v != unique {
                out.push(v);
            }
        }
        proof {
            assert(self.pending@.take(n as int) =~= self.pending@);
        }
        self.pending = out;
        proof {
            assert(self@ =~= (SessionView {
                pending: without(old(self)@.pending, unique),
                ..old(self)@
            }));
        }
    }

    /// Process one frame read from the device: the session moves to the
    /// state `spec_step` assigns and hands back the action it owes,
    /// realised as real bytes. Malformed frames are answered with EIO,
    /// unknown opcodes with ENOSYS, INIT drives the handshake, DESTROY
    /// begins the shutdown, and everything else in a running session is
    /// dispatched to the filesystem.
    pub fn process<'a>(&mut self, buf: &'a [u8]) -> (r: Outcome<'a>)
        requires
            session_inv(old(self)@),
        ensures
            session_inv(final(self)@),
            final(self)@ == spec_step(old(self)@, buf@).0,
            outcome_matches(r, spec_step(old(self)@, buf@).1, buf@),
    {
        match self.state {
            SessionState::Destroying => {
                return Outcome::Rejected;
            },
            SessionState::Destroyed => {
                return Outcome::Rejected;
            },
            _ => {},
        }
        let req = match decode(buf) {
            Ok(req) => req,
            Err(e) => {
                match e {
                    DecodeError::TooShort { .. } => {
                        return Outcome::Consumed;
                    },
                    _ => {
                        let h = parse_in_header(buf);
                        return Outcome::Reply(reply_error_bytes(h.unique, EIO));
                    },
                }
            },
        };
        let h = req.header;
        if h.opcode == OP_DESTROY {
            self.state = SessionState::Destroying;
            proof {
                assert(self@ =~= spec_step(old(self)@, buf@).0);
            }
            return Outcome::Shutdown(reply_empty_bytes(h.unique));
        }
        let in_handshake = match self.state {
            SessionState::Uninitialized => true,
            SessionState::Initializing => true,
            _ => false,
        };
        if in_handshake {
            if let Operation::Init { arg } = req.op {
                return self.handle_init(h, arg);
            }
            self.state = SessionState::Initializing;
            proof {
                assert(self@ =~= spec_step(old(self)@, buf@).0);
            }
            match h.opcode {
                OP_FORGET | OP_BATCH_FORGET | OP_INTERRUPT | OP_NOTIFY_REPLY => {
                    return Outcome::Consumed;
                },
                _ => {},
            }
            return Outcome::Reply(reply_error_bytes(h.unique, ENOSYS));
        }
        // Running.
        if h.opcode == OP_INIT {
            return Outcome::Reply(reply_error_bytes(h.unique, EIO));
        }
        if h.opcode == OP_NOTIFY_REPLY {
            self.remove_pending(h.unique);
            proof {
                lemma_without_props(old(self)@.pending, h.unique);
                assert forall|y: u64| #[trigger] final(self)@.pending.contains(y) implies old(
                    self,
                )@.pending.contains(y) by {}
                assert(session_inv(self@)) by {
                    let pn = self@.pending;
                    let po = old(self)@.pending;
                    assert forall|i: int|
                        0 <= i < pn.len() implies #[trigger] pn[i] < self@.notify_unique by {
                        assert(pn.contains(pn[i]));
                        let k = choose|k: int| 0 <= k < po.len() && po[k] == pn[i];
                        assert(po[k] < old(self)@.notify_unique);
                    }
                    lemma_without_no_dup(po, h.unique);
                }
            }
            return Outcome::Consumed;
        }
        let known = match req.op {
            Operation::Unknown { .. } => false,
            _ => true,
        };
        if !known {
            return Outcome::Reply(reply_error_bytes(h.unique, ENOSYS));
        }
        Outcome::Dispatch(req)
    }

    /// Handle one INIT request while the session is still in its
    /// handshake: echo-and-retry on a foreign major version, reject a
    /// minor older than the supported minimum as fatal, otherwise take
    /// the negotiated parameters and run.
    fn handle_init<'a>(&mut self, h: InHeader, arg: InitIn) -> (r: Outcome<'a>)
        requires
            session_inv(old(self)@),
            old(self)@.state == SessionState::Uninitialized || old(self)@.state
                == SessionState::Initializing,
        ensures
            session_inv(final(self)@),
            final(self)@ == spec_init_step(old(self)@, h, arg).0,
            outcome_matches(r, spec_init_step(old(self)@, h, arg).1, Seq::empty()),
    {
        if arg.major != PROTO_MAJOR {
            if self.init_retried {
                self.state = SessionState::Destroyed;
                proof {
                    assert(self@ =~= spec_init_step(old(self)@, h, arg).0);
                }
                return Outcome::Fatal(None);
            }
            self.state = SessionState::Initializing;
            self.init_retried = true;
            let payload = init_out_bytes(PROTO_MAJOR, PROTO_MINOR, 0, 0, 0, 0, 0, 0);
            let frame = make_frame(h.unique, 0, payload.as_slice());
            proof {
                assert(self@ =~= spec_init_step(old(self)@, h, arg).0);
            }
            return Outcome::Reply(frame);
        }
        if arg.minor < MIN_PROTO_MINOR {
            self.state = SessionState::Destroyed;
            proof {
                assert(self@ =~= spec_init_step(old(self)@, h, arg).0);
            }
            return Outcome::Fatal(Some(reply_error_bytes(h.unique, ENOSYS)));
        }
        let minor = if arg.minor < PROTO_MINOR {
            arg.minor
        } else {
            PROTO_MINOR
        };
        let ra = if arg.max_readahead < self.config.max_readahead {
            arg.max_readahead
        } else {
            self.config.max_readahead
        };
        let fl = arg.flags & self.config.capabilities;
        self.state = SessionState::Running;
        self.proto_minor = minor;
        self.max_readahead = ra;
        self.flags = fl;
        self.max_write = self.config.max_write;
        let payload = init_out_bytes(
            PROTO_MAJOR,
            minor,
            ra,
            fl,
            self.config.max_background,
            self.config.congestion_threshold,
            self.config.max_write,
            self.config.time_gran,
        );
        let frame = make_frame(h.unique, 0, payload.as_slice());
        proof {
            assert(self@ =~= spec_init_step(old(self)@, h, arg).0);
        }
        Outcome::Reply(frame)
    }

    /// Mark the shutdown complete once the DESTROY reply has been
    /// written: outstanding notification waiters are cancelled.
    pub fn shutdown_complete(&mut self)
        requires
            old(self)@.state == SessionState::Destroying,
        ensures
            final(self)@ == (SessionView {
                state: SessionState::Destroyed,
                pending: Seq::empty(),
                ..old(self)@
            }),
            session_inv(final(self)@),
    {
        self.state = SessionState::Destroyed;
        self.pending = Vec::new();
        proof {
            assert(self@ =~= (SessionView {
                state: SessionState::Destroyed,
                pending: Seq::empty(),
                ..old(self)@
            }));
        }
    }

    /// How the serve loop ends when a read fails: ENODEV means the kernel
    /// has disconnected and the loop returns success without another
    /// write; any other error is surfaced. Either way the session is
    /// finished.
    pub fn on_read_error(&mut self, errno: i32) -> (r: ServeEnd)
        ensures
            final(self)@ == (SessionView { state: SessionState::Destroyed, ..old(self)@ }),
            r == (if errno == ENODEV as i32 {
                ServeEnd::Shutdown
            } else {
                ServeEnd::Fail
            }),
    {
        self.state = SessionState::Destroyed;
        proof {
            assert(self@ =~= (SessionView { state: SessionState::Destroyed, ..old(self)@ }));
        }
        if errno == ENODEV as i32 {
            ServeEnd::Shutdown
        } else {
            ServeEnd::Fail
        }
    }

    /// The read buffer a running session requires: at least the minimum
    /// the device accepts, and enough for a maximal WRITE frame.
    pub fn buffer_size(&self) -> (r: usize)
        requires
            self@.state == SessionState::Running,
            80 + self@.max_write as int <= usize::MAX,
        ensures
            r == (if 80 + self@.max_write as int > MIN_READ_BUFFER as int {
                80 + self@.max_write as int
            } else {
                MIN_READ_BUFFER as int
            }),
    {
        let need = 80usize + self.max_write as usize;
        if need > MIN_READ_BUFFER {
            need
        } else {
            MIN_READ_BUFFER
        }
    }

    /// The buffer size that suffices for the handshake, before any
    /// parameters are negotiated.
    pub fn init_buf_size(&self) -> (r: usize)
        ensures
            r == MIN_READ_BUFFER,
    {
        MIN_READ_BUFFER
    }

    /// The protocol major version the library speaks; the handshake only
    /// completes with a kernel of the same major.
    pub fn proto_major(&self) -> (r: u32)
        ensures
            r == PROTO_MAJOR,
    {
        PROTO_MAJOR
    }

    /// The negotiated protocol minor version.
    pub fn proto_minor(&self) -> (r: u32)
        ensures
            r == self@.proto_minor,
    {
        self.proto_minor
    }

    /// The negotiated capability flags.
    pub fn flags(&self) -> (r: u32)
        ensures
            r == self@.flags,
    {
        self.flags
    }

    /// The negotiated largest write payload.
    pub fn max_write(&self) -> (r: u32)
        ensures
            r == self@.max_write,
    {
        self.max_write
    }

    /// The current lifecycle state.
    pub fn state(&self) -> (r: SessionState)
        ensures
            r == self@.state,
    {
        self.state
    }

    /// The number of outstanding RETRIEVE notifications.
    pub fn pending_retrieves(&self) -> (r: usize)
        ensures
            r == self@.pending.len(),
    {
        self.pending.len()
    }

    /// Ask the kernel to hand back cached data: emits a RETRIEVE
    /// notification frame carrying a fresh notification unique, records
    /// the unique as outstanding, and returns frame and unique. The
    /// matching NOTIFY_REPLY later removes the entry.
    pub fn notify_retrieve(&mut self, ino: u64, offset: u64, size: u32) -> (r: (Vec<u8>, u64))
        requires
            session_inv(old(self)@),
            old(self)@.state == SessionState::Running,
            old(self)@.notify_unique < u64::MAX,
        ensures
            session_inv(final(self)@),
            r.1 == old(self)@.notify_unique,
            !old(self)@.pending.contains(r.1),
            final(self)@ == (SessionView {
                notify_unique: (old(self)@.notify_unique + 1) as u64,
                pending: old(self)@.pending.push(r.1),
                ..old(self)@
            }),
            r.0@ == spec_out_header_bytes(48, spec_neg_errno(NOTIFY_RETRIEVE), 0)
                + spec_retrieve_out(r.1, ino, offset, size),
    {
        let unique = self.notify_unique;
        self.notify_unique = self.notify_unique + 1;
        self.pending.push(unique);
        let mut payload: Vec<u8> = Vec::new();
        put_u64(&mut payload, unique);
        put_u64(&mut payload, ino);
        put_u64(&mut payload, offset);
        put_u32(&mut payload, size);
        put_u32(&mut payload, 0);
        proof {
            lemma_auto_spec_u32_to_from_le_bytes();
            lemma_auto_spec_u64_to_from_le_bytes();
            assert(payload@ =~= spec_retrieve_out(unique, ino, offset, size));
            assert(self@ =~= (SessionView {
                notify_unique: (old(self)@.notify_unique + 1) as u64,
                pending: old(self)@.pending.push(unique),
                ..old(self)@
            }));
            if old(self)@.pending.contains(unique) {
                let i = choose|i: int|
                    0 <= i < old(self)@.pending.len() && old(self)@.pending[i] == unique;
                assert(old(self)@.pending[i] < old(self)@.notify_unique);
            }
            assert forall|i: int, j: int|
                0 <= i < j < self@.pending.len() implies self@.pending[i] != self@.pending[j] by {
                if j == self@.pending.len() - 1 {
                    assert(self@.pending[i] == old(self)@.pending[i]);
                    assert(old(self)@.pending[i] < old(self)@.notify_unique);
                }
            }
        }
        let frame = make_frame(0, neg_errno(NOTIFY_RETRIEVE), payload.as_slice());
        (frame, unique)
    }
}

/// The 32-byte RETRIEVE notification payload.
pub open spec fn spec_retrieve_out(notify_unique: u64, ino: u64, offset: u64, size: u32) -> Seq<
    u8,
> {
    spec_u64_to_le_bytes(notify_unique) + spec_u64_to_le_bytes(ino) + spec_u64_to_le_bytes(offset)
        + spec_u32_to_le_bytes(size) + spec_u32_to_le_bytes(0)
}

/// Capability intersection: a capability bit is set in the negotiated
/// flags exactly when it is set both in the kernel's INIT request and in
/// the caller's configuration.
pub proof fn lemma_capability_intersection(v: SessionView, h: InHeader, a: InitIn, b: u32)
    requires
        b < 32,
        a.major == PROTO_MAJOR,
        a.minor >= MIN_PROTO_MINOR,
    ensures
        spec_init_step(v, h, a).0.flags & (1u32 << b) != 0 <==> (a.flags & (1u32 << b) != 0
            && v.config.capabilities & (1u32 << b) != 0),
{
    let kf = a.flags;
    let cf = v.config.capabilities;
    assert((kf & cf) & (1u32 << b) != 0 <==> (kf & (1u32 << b) != 0 && cf & (1u32 << b) != 0))
        by (bit_vector);
}

/// Handshake retry: the first INIT with a foreign major draws exactly one
/// INIT_OUT that echoes the library's own major and minor and leaves the
/// session in its handshake; a following INIT with the library's major
/// and a supported minor completes the handshake and the session runs.
pub proof fn lemma_handshake_retry(v: SessionView, b1: Seq<u8>, b2: Seq<u8>)
    requires
        v.state == SessionState::Uninitialized || v.state == SessionState::Initializing,
        !v.init_retried,
        frame_wf(b1),
        spec_in_header(b1).opcode == OP_INIT,
        spec_init_in(spec_payload(b1)).major != PROTO_MAJOR,
        frame_wf(b2),
        spec_in_header(b2).opcode == OP_INIT,
        spec_init_in(spec_payload(b2)).major == PROTO_MAJOR,
        spec_init_in(spec_payload(b2)).minor >= MIN_PROTO_MINOR,
    ensures
        spec_step(v, b1).0.state == SessionState::Initializing,
        spec_step(v, b1).1 == ActionSpec::Reply(
            spec_out_header_bytes(80, 0, spec_in_header(b1).unique) + spec_init_out_bytes(
                PROTO_MAJOR,
                PROTO_MINOR,
                0,
                0,
                0,
                0,
                0,
                0,
            ),
        ),
        spec_step(spec_step(v, b1).0, b2).0.state == SessionState::Running,
{
}

/// Unknown opcode: a running session answers a well-formed frame whose
/// opcode it does not know with ENOSYS to the same unique, and its state
/// does not change.
pub proof fn lemma_unknown_opcode(v: SessionView, b: Seq<u8>)
    requires
        v.state == SessionState::Running,
        frame_wf(b),
        !is_known_opcode(spec_in_header(b).opcode),
    ensures
        spec_step(v, b).0 == v,
        spec_step(v, b).1 == ActionSpec::Reply(enosys_frame(spec_in_header(b).unique)),
{
}

/// Opcodes whose requests must get no reply at all.
pub open spec fn no_reply_opcode(c: u32) -> bool {
    c == OP_FORGET || c == OP_BATCH_FORGET || c == OP_INTERRUPT || c == OP_NOTIFY_REPLY
}

/// Opcodes whose success reply carries no payload: side-effectful
/// requests acknowledged with an empty frame.
pub open spec fn empty_ok_opcode(c: u32) -> bool {
    c == OP_UNLINK || c == OP_RMDIR || c == OP_RENAME || c == OP_RENAME2 || c == OP_FSYNC
        || c == OP_FSYNCDIR || c == OP_FLUSH || c == OP_RELEASE || c == OP_RELEASEDIR
        || c == OP_SETXATTR || c == OP_REMOVEXATTR || c == OP_ACCESS || c == OP_FALLOCATE
        || c == OP_SETLK || c == OP_SETLKW
}

/// The reply the session owes for a dispatched request when the
/// filesystem returned without replying: nothing for the no-reply
/// opcodes, empty success for side-effectful opcodes without a reply
/// payload, ENOSYS for every unimplemented variant.
pub fn default_reply(header: &InHeader) -> (r: Option<Vec<u8>>)
    ensures
        no_reply_opcode(header.opcode) ==> r is None,
        empty_ok_opcode(header.opcode) ==> (r matches Some(v) && v@ == empty_ok_frame(
            header.unique,
        )),
        !no_reply_opcode(header.opcode) && !empty_ok_opcode(header.opcode) ==> (r matches Some(v)
            && v@ == enosys_frame(header.unique)),
{
    match header.opcode {
        OP_FORGET | OP_BATCH_FORGET | OP_INTERRUPT | OP_NOTIFY_REPLY => None,
        OP_UNLINK | OP_RMDIR | OP_RENAME | OP_RENAME2 | OP_FSYNC | OP_FSYNCDIR | OP_FLUSH
            | OP_RELEASE | OP_RELEASEDIR | OP_SETXATTR | OP_REMOVEXATTR | OP_ACCESS
            | OP_FALLOCATE | OP_SETLK | OP_SETLKW => Some(reply_empty_bytes(header.unique)),
        _ => Some(reply_error_bytes(header.unique, ENOSYS)),
    }
}

/// An out-header echoes the unique it was built with, whatever follows it.
proof fn lemma_out_header_unique(l: u32, e: u32, u: u64, tail: Seq<u8>)
    ensures
        le64_at(spec_out_header_bytes(l, e, u) + tail, 8) == u,
        le64_at(spec_out_header_bytes(l, e, u), 8) == u,
{
    lemma_auto_spec_u32_to_from_le_bytes();
    lemma_auto_spec_u64_to_from_le_bytes();
    assert((spec_out_header_bytes(l, e, u) + tail).subrange(8, 16) =~= spec_u64_to_le_bytes(u));
    assert(spec_out_header_bytes(l, e, u).subrange(8, 16) =~= spec_u64_to_le_bytes(u));
}

/// Every reply the session owes for a frame echoes that frame's unique:
/// error replies, handshake replies and the shutdown acknowledgement all
/// carry the identifier of the request they answer.
pub proof fn lemma_reply_echoes_unique(v: SessionView, b: Seq<u8>)
    requires
        b.len() >= 40,
    ensures
        match spec_step(v, b).1 {
            ActionSpec::Reply(f) => le64_at(f, 8) == spec_in_header(b).unique,
            ActionSpec::Shutdown(f) => le64_at(f, 8) == spec_in_header(b).unique,
            ActionSpec::Fatal(of) => match of {
                Some(f) => le64_at(f, 8) == spec_in_header(b).unique,
                None => true,
            },
            _ => true,
        },
{
    let h = spec_in_header(b);
    let u = h.unique;
    let echo = spec_init_out_bytes(PROTO_MAJOR, PROTO_MINOR, 0, 0, 0, 0, 0, 0);
    lemma_out_header_unique(16, spec_neg_errno(EIO), u, Seq::empty());
    lemma_out_header_unique(16, spec_neg_errno(ENOSYS), u, Seq::empty());
    lemma_out_header_unique(16, 0, u, Seq::empty());
    lemma_out_header_unique(80, 0, u, echo);
    if v.state == SessionState::Uninitialized || v.state == SessionState::Initializing {
        if h.opcode == OP_INIT && b.len() >= 40 && h.len >= 40 && h.len <= b.len()
            && payload_wf(h.opcode, spec_payload(b)) {
            let a = spec_init_in(spec_payload(b));
            if a.major == PROTO_MAJOR && a.minor >= MIN_PROTO_MINOR {
                let minor = if a.minor < PROTO_MINOR { a.minor } else { PROTO_MINOR };
                let ra = if a.max_readahead < v.config.max_readahead {
                    a.max_readahead
                } else {
                    v.config.max_readahead
                };
                lemma_out_header_unique(
                    80,
                    0,
                    u,
                    spec_init_out_bytes(
                        PROTO_MAJOR,
                        minor,
                        ra,
                        a.flags & v.config.capabilities,
                        v.config.max_background,
                        v.config.congestion_threshold,
                        v.config.max_write,
                        v.config.time_gran,
                    ),
                );
            }
        }
    }
}

/// Duplicates removed from a sequence stay removed.

proof fn lemma_without_no_dup(s: Seq<u64>, x: u64)
    requires
        forall|i: int, j: int| 0 <= i < j < s.len() ==> s[i] != s[j],
    ensures
        forall|i: int, j: int|
            0 <= i < j < without(s, x).len() ==> without(s, x)[i] != without(s, x)[j],
    decreases s.len(),
{
    if s.len() > 0 {
        assert forall|i: int, j: int|
            0 <= i < j < s.drop_last().len() implies s.drop_last()[i] != s.drop_last()[j] by {
            assert(s[i] == s.drop_last()[i] && s[j] == s.drop_last()[j]);
        }
        lemma_without_no_dup(s.drop_last(), x);
        if s.last() != x {
            let w = without(s.drop_last(), x);
            lemma_without_props(s.drop_last(), x);
            assert forall|i: int, j: int|
                0 <= i < j < without(s, x).len() implies without(s, x)[i] != without(s, x)[j] by {
                if j < w.len() {
                } else {
                    assert(without(s, x)[j] == s.last());
                    assert(w.contains(w[i]));
                    let k = choose|k: int| 0 <= k < s.drop_last().len() && s.drop_last()[k] == w[i];
                    assert(s[k] == w[i]);
                    assert(s[k] != s[s.len() - 1]);
                }
            }
        }
    }
}

/// How a serve loop ends after a failed read.
#[derive(Clone, Copy, Debug, PartialEq, Eq, Structural)]
pub enum ServeEnd {
    /// Clean shutdown: return success, write nothing more.
    Shutdown,
    /// Surface the error to the caller.
    Fail,
}

} // verus!
