//! The server object: one session plus the decisions of the serve loop.
//!
//! A `Server` owns the protocol state of one mounted filesystem. The
//! surrounding program opens the device and runs the loop — read one
//! message, call [`Server::process`], perform the returned action — while
//! every decision along the way is made and specified here. A second
//! handle for a second writer is obtained with [`Server::try_clone`]; the
//! writer side only needs the shared, read-only negotiated state, so the
//! clone carries an identical view of the session.

use vstd::prelude::*;
use crate::session::{
    Session, SessionView, SessionState, KernelConfig, Outcome, ServeEnd, session_inv, spec_step,
    outcome_matches, spec_retrieve_out,
};
use crate::kernel::{spec_out_header_bytes, spec_neg_errno, NOTIFY_RETRIEVE, MIN_READ_BUFFER};

verus! {

/// A FUSE server: the session state machine for one mount.
pub struct Server {
    session: Session,
}

impl View for Server {
    type V = SessionView;

    closed spec fn view(&self) -> SessionView {
        self.session@
    }
}

impl Server {
    /// A server for a fresh mount, ready to take the kernel's INIT.
    pub fn new(config: KernelConfig) -> (r: Server)
        ensures
            r@.state == SessionState::Uninitialized,
            r@.config == config,
            r@.pending == Seq::<u64>::empty(),
            r@.notify_unique == 0,
            !r@.init_retried,
            session_inv(r@),
    {
        Server { session: Session::new(config) }
    }

    /// Attempt to make a clone of this instance: a second handle onto the
    /// same session, for an independent writer.
    pub fn try_clone(&self) -> (r: Server)
        ensures
            r@ == self@,
    {
        Server { session: self.session.try_clone() }
    }

    /// Process one message read from the device; see
    /// [`crate::session::spec_step`] for the complete transition this
    /// performs.
    pub fn process<'a>(&mut self, buf: &'a [u8]) -> (r: Outcome<'a>)
        requires
            session_inv(old(self)@),
        ensures
            session_inv(final(self)@),
            final(self)@ == spec_step(old(self)@, buf@).0,
            outcome_matches(r, spec_step(old(self)@, buf@).1, buf@),
    {
        self.session.process(buf)
    }

    /// How the serve loop ends when a read fails: ENODEV is a clean
    /// shutdown, anything else is surfaced.
    pub fn on_read_error(&mut self, errno: i32) -> (r: ServeEnd)
        ensures
            final(self)@ == (SessionView { state: SessionState::Destroyed, ..old(self)@ }),
            r == (if errno == crate::kernel::ENODEV as i32 {
                ServeEnd::Shutdown
            } else {
                ServeEnd::Fail
            }),
    {
        self.session.on_read_error(errno)
    }

    /// Finish the shutdown after the DESTROY reply went out.
    pub fn shutdown_complete(&mut self)
        requires
            old(self)@.state == SessionState::Destroying,
        ensures
            final(self)@ == (SessionView {
                state: SessionState::Destroyed,
                pending: Seq::<u64>::empty(),
                ..old(self)@
            }),
            session_inv(final(self)@),
    {
        self.session.shutdown_complete()
    }

    /// The read buffer a running session requires.
    pub fn buffer_size(&self) -> (r: usize)
        requires
            self@.state == SessionState::Running,
            80 + self@.max_write as int <= usize::MAX,
        ensures
            r == (if 80 + self@.max_write as int > MIN_READ_BUFFER as int {
                80 + self@.max_write as int
            } else {
                MIN_READ_BUFFER as int
            }),
    {
        self.session.buffer_size()
    }

    /// The buffer size that suffices for the handshake.
    pub fn init_buf_size(&self) -> (r: usize)
        ensures
            r == MIN_READ_BUFFER,
    {
        self.session.init_buf_size()
    }

    /// Emit a RETRIEVE notification: returns the frame to write and the
    /// fresh notification unique that the kernel's NOTIFY_REPLY will
    /// carry back.
    pub fn notify_retrieve(&mut self, ino: u64, offset: u64, size: u32) -> (r: (Vec<u8>, u64))
        requires
            session_inv(old(self)@),
            old(self)@.state == SessionState::Running,
            old(self)@.notify_unique < u64::MAX,
        ensures
            session_inv(final(self)@),
            r.1 == old(self)@.notify_unique,
            !old(self)@.pending.contains(r.1),
            final(self)@ == (SessionView {
                notify_unique: (old(self)@.notify_unique + 1) as u64,
                pending: old(self)@.pending.push(r.1),
                ..old(self)@
            }),
            r.0@ == spec_out_header_bytes(48, spec_neg_errno(NOTIFY_RETRIEVE), 0)
                + spec_retrieve_out(r.1, ino, offset, size),
    {
        self.session.notify_retrieve(ino, offset, size)
    }

    /// Invalidate a range of cached data for an inode: returns the
    /// notification frame to write.
    pub fn notify_inval_inode(&self, ino: u64, off: i64, len: i64) -> (r: Vec<u8>)
        ensures
            r@ == spec_out_header_bytes(
                40,
                spec_neg_errno(crate::kernel::NOTIFY_INVAL_INODE),
                0,
            ) + vstd::bytes::spec_u64_to_le_bytes(ino) + vstd::bytes::spec_u64_to_le_bytes(
                off as u64,
            ) + vstd::bytes::spec_u64_to_le_bytes(len as u64),
    {
        crate::notify::notify_inval_inode_frame(ino, off, len)
    }

    /// Invalidate the entry with the given name in a directory: returns
    /// the notification frame to write.
    pub fn notify_inval_entry(&self, parent: u64, name: &[u8]) -> (r: Vec<u8>)
        requires
            name@.len() + 33 <= u32::MAX,
        ensures
            r@ == spec_out_header_bytes(
                (33 + name@.len()) as u32,
                spec_neg_errno(crate::kernel::NOTIFY_INVAL_ENTRY),
                0,
            ) + vstd::bytes::spec_u64_to_le_bytes(parent) + vstd::bytes::spec_u32_to_le_bytes(
                name@.len() as u32,
            ) + vstd::bytes::spec_u32_to_le_bytes(0) + name@ + seq![0u8],
    {
        crate::notify::notify_inval_entry_frame(parent, name)
    }

    /// Tell the kernel that an entry has been deleted from a directory:
    /// returns the notification frame to write.
    pub fn notify_delete(&self, parent: u64, child: u64, name: &[u8]) -> (r: Vec<u8>)
        requires
            name@.len() + 41 <= u32::MAX,
        ensures
            r@ == spec_out_header_bytes(
                (41 + name@.len()) as u32,
                spec_neg_errno(crate::kernel::NOTIFY_DELETE),
                0,
            ) + vstd::bytes::spec_u64_to_le_bytes(parent) + vstd::bytes::spec_u64_to_le_bytes(
                child,
            ) + vstd::bytes::spec_u32_to_le_bytes(name@.len() as u32)
                + vstd::bytes::spec_u32_to_le_bytes(0) + name@ + seq![0u8],
    {
        crate::notify::notify_delete_frame(parent, child, name)
    }

    /// Replace a range of the kernel's cached data for an inode: returns
    /// the notification frame to write.
    pub fn notify_store(&self, ino: u64, offset: u64, data: &[u8]) -> (r: Vec<u8>)
        requires
            data@.len() + 40 <= u32::MAX,
        ensures
            r@ == spec_out_header_bytes(
                (40 + data@.len()) as u32,
                spec_neg_errno(crate::kernel::NOTIFY_STORE),
                0,
            ) + vstd::bytes::spec_u64_to_le_bytes(ino) + vstd::bytes::spec_u64_to_le_bytes(
                offset,
            ) + vstd::bytes::spec_u32_to_le_bytes(data@.len() as u32)
                + vstd::bytes::spec_u32_to_le_bytes(0) + data@,
    {
        crate::notify::notify_store_frame(ino, offset, data)
    }

    /// Wake up a poller identified by its kernel handle: returns the
    /// notification frame to write.
    pub fn notify_poll_wakeup(&self, kh: u64) -> (r: Vec<u8>)
        ensures
            r@ == spec_out_header_bytes(24, spec_neg_errno(crate::kernel::NOTIFY_POLL), 0)
                + vstd::bytes::spec_u64_to_le_bytes(kh),
    {
        crate::notify::notify_poll_wakeup_frame(kh)
    }

    /// The negotiated protocol minor version.
    pub fn proto_minor(&self) -> (r: u32)
        ensures
            r == self@.proto_minor,
    {
        self.session.proto_minor()
    }

    /// The negotiated capability flags.
    pub fn flags(&self) -> (r: u32)
        ensures
            r == self@.flags,
    {
        self.session.flags()
    }

    /// The current lifecycle state.
    pub fn state(&self) -> (r: SessionState)
        ensures
            r == self@.state,
    {
        self.session.state()
    }

    /// The number of outstanding RETRIEVE notifications.
    pub fn pending_retrieves(&self) -> (r: usize)
        ensures
            r == self@.pending.len(),
    {
        self.session.pending_retrieves()
    }
}

} // verus!
