//! Events that wait to be submitted.
//!
//! An event names memory by its address. Preparing one neither reads nor writes that memory, nor
//! does it keep it alive: whoever submits the event sees to it that the memory stays valid until
//! the event has completed.
use crate::args::{
    AcceptAddr, EpollOp, FallocateFlags, MmapAdvise, Mode, MsgFlags, OFlag, PollFlags,
    PosixFadviseAdvice, SockFlag, SockaddrStorage, Span,
};
use crate::flags::{
    FsyncFlags, SpliceFlags, StatxFlags, StatxMode, SubmissionFlags, TimeoutFlags,
};
use crate::registrar::{RawFd, UringFd, UringReadBuf, UringWriteBuf};
use crate::uring_sys;
use crate::uring_sys::io_uring_sqe;
use core::mem::MaybeUninit;
use vstd::prelude::*;

verus! {

/// A pending IO event.
///
/// Its view is its entry as it stands. The entry is borrowed, from a slot of a ring as a rule, and
/// what it holds when the event goes out of use stays there.
pub struct SQE<'a> {
    pub sqe: &'a mut io_uring_sqe,
}

impl<'a> View for SQE<'a> {
    type V = io_uring_sqe;

    open spec fn view(&self) -> io_uring_sqe {
        *self.sqe
    }
}

/// The credentials that were registered under a number.
#[derive(Clone, Copy, Debug, PartialEq, Eq, Structural)]
pub struct Personality {
    pub id: u16,
}

/// A group of buffers that the kernel may choose from.
#[derive(Copy, Clone, Debug, Eq, PartialEq, Ord, PartialOrd, Hash)]
pub struct BufferGroupId {
    pub id: u32,
}

/// The type of the largest socket address that the platform knows, `sockaddr_storage` of nix (and
/// of libc). Nothing is said of what is in it.
#[verifier::external_type_specification]
#[verifier::external_body]
pub struct ExSockaddrStorage(nix::sys::socket::sockaddr_storage);

/// Room for the address of a peer, and how many bytes of it are room or, once it has been filled
/// in, address.
pub struct SockAddrStorage {
    pub storage: MaybeUninit<nix::sys::socket::sockaddr_storage>,
    pub len: usize,
}

impl SockAddrStorage {
    /// Room that holds no address yet, all of it free.
    pub fn uninit() -> (r: SockAddrStorage)
        ensures
            r.storage.mem_contents() is Uninit,
            r.len as nat == vstd::layout::size_of::<nix::sys::socket::sockaddr_storage>(),
    {
        let storage = MaybeUninit::uninit();
        let len: usize = core::mem::size_of::<nix::sys::socket::sockaddr_storage>();
        SockAddrStorage { storage, len }
    }
}

impl<'a> SQE<'a> {
    pub fn new(sqe: &'a mut io_uring_sqe) -> (r: SQE<'a>)
        ensures
            r@ == *old(sqe),
            *final(r.sqe) == *final(sqe),
    {
        SQE { sqe }
    }

    /// Get this event's user data.
    #[inline]
    pub fn user_data(&self) -> (r: u64)
        ensures
            r == self@.user_data,
    {
        self.sqe.user_data
    }

    /// Set this event's user data. User data is meant for the application, which gets it back with
    /// the completion.
    ///
    /// Do not set it to `u64::MAX`: that value is kept for timeouts that the queue makes itself,
    /// and the completion of an event with it never reaches the application.
    pub fn set_user_data(&mut self, user_data: u64)
        ensures
            final(self)@ == (io_uring_sqe { user_data, ..old(self)@ }),
            *final(final(self).sqe) == *final(old(self).sqe),
    {
        self.sqe.user_data = user_data;
    }

    /// Get this event's flags.
    #[inline]
    pub fn flags(&self) -> (r: SubmissionFlags)
        ensures
            r.bits == self@.flags,
    {
        SubmissionFlags::from_bits_retain(self.sqe.flags)
    }

    /// Overwrite this event's flags.
    pub fn overwrite_flags(&mut self, flags: SubmissionFlags)
        ensures
            final(self)@ == (io_uring_sqe { flags: flags.bits, ..old(self)@ }),
            *final(final(self).sqe) == *final(old(self).sqe),
    {
        self.sqe.flags = flags.bits();
    }

    /// Mark this event's file descriptor as an index into the registered files. Every prep method
    /// takes this mark away, so it has to be set after the event was prepared.
    #[inline]
    pub fn set_fixed_file(&mut self)
        ensures
            final(self)@ == (io_uring_sqe {
                flags: old(self)@.flags | uring_sys::IOSQE_FIXED_FILE,
                ..old(self)@
            }),
            *final(final(self).sqe) == *final(old(self).sqe),
    {
        self.set_flags(SubmissionFlags::FIXED_FILE());
    }

    /// Set these flags for this event (any flags already set will still be set).
    #[inline]
    pub fn set_flags(&mut self, flags: SubmissionFlags)
        ensures
            final(self)@ == (io_uring_sqe { flags: old(self)@.flags | flags.bits, ..old(self)@ }),
            *final(final(self).sqe) == *final(old(self).sqe),
        opens_invariants none
        no_unwind
    {
        self.sqe.flags |= flags.bits();
    }

    /// Set the [`Personality`] associated with this submission.
    #[inline]
    pub fn set_personality(&mut self, personality: Personality)
        ensures
            final(self)@ == (io_uring_sqe { personality: personality.id, ..old(self)@ }),
            *final(final(self).sqe) == *final(old(self).sqe),
    {
        self.sqe.personality = personality.id;
    }

    /// Prepare a read on a file descriptor.
    ///
    /// Both the file descriptor and the buffer can be registered with the ring; see the
    /// [`registrar`](crate::registrar) module.
    #[inline]
    pub fn prep_read(&mut self, fd: impl UringFd, buf: impl UringReadBuf, offset: u64)
        ensures
            final(self)@ == fd.updated(buf.read_entry(fd.raw_fd(), offset)),
            *final(final(self).sqe) == *final(old(self).sqe),
    {
        buf.prep_read(fd, self, offset);
    }

    /// Prepare a vectored read on a file descriptor, into the buffers that the array `bufs` lists.
    #[inline]
    pub fn prep_read_vectored(&mut self, fd: impl UringFd, bufs: Span, offset: u64)
        ensures
            final(self)@ == fd.updated(
                uring_sys::readv_entry(fd.raw_fd(), bufs.addr, bufs.len as u32, offset),
            ),
            *final(final(self).sqe) == *final(old(self).sqe),
    {
        uring_sys::io_uring_prep_readv(
            self.sqe,
            fd.as_raw_fd(),
            bufs.addr,
            bufs.len as u32,
            offset,
        );
        fd.update_sqe(self);
    }

    /// Prepare a read into a registered buffer on a file descriptor.
    #[inline]
    pub fn prep_read_fixed(&mut self, fd: impl UringFd, buf: Span, offset: u64, buf_index: u32)
        ensures
            final(self)@ == fd.updated(
                uring_sys::read_fixed_entry(
                    fd.raw_fd(),
                    buf.addr,
                    buf.len as u32,
                    offset,
                    buf_index as u16,
                ),
            ),
            final(self)@ == fd.updated(
                io_uring_sqe {
                    opcode: uring_sys::IORING_OP_READ_FIXED,
                    flags: 0,
                    ioprio: 0,
                    fd: fd.raw_fd(),
                    off: offset,
                    addr: buf.addr,
                    len: buf.len as u32,
                    op_flags: 0,
                    user_data: 0,
                    buf_index: buf_index as u16,
                    personality: 0,
                    splice_fd_in: 0,
                },
            ),
            *final(final(self).sqe) == *final(old(self).sqe),
    {
        uring_sys::io_uring_prep_read_fixed(
            self.sqe,
            fd.as_raw_fd(),
            buf.addr,
            buf.len as u32,
            offset,
            buf_index as u16,
        );
        fd.update_sqe(self);
    }

    /// Prepare to write on a file descriptor.
    ///
    /// Both the file descriptor and the buffer can be registered with the ring; see the
    /// [`registrar`](crate::registrar) module.
    #[inline]
    pub fn prep_write(&mut self, fd: impl UringFd, buf: impl UringWriteBuf, offset: u64)
        ensures
            final(self)@ == fd.updated(buf.write_entry(fd.raw_fd(), offset)),
            *final(final(self).sqe) == *final(old(self).sqe),
    {
        buf.prep_write(fd, self, offset);
    }

    /// Prepare a vectored write on a file descriptor, from the buffers that the array `bufs` lists.
    #[inline]
    pub fn prep_write_vectored(&mut self, fd: impl UringFd, bufs: Span, offset: u64)
        ensures
            final(self)@ == fd.updated(
                uring_sys::writev_entry(fd.raw_fd(), bufs.addr, bufs.len as u32, offset),
            ),
            *final(final(self).sqe) == *final(old(self).sqe),
    {
        uring_sys::io_uring_prep_writev(
            self.sqe,
            fd.as_raw_fd(),
            bufs.addr,
            bufs.len as u32,
            offset,
        );
        fd.update_sqe(self);
    }

    /// Prepare to write on a file descriptor from a registered buffer.
    #[inline]
    pub fn prep_write_fixed(&mut self, fd: impl UringFd, buf: Span, offset: u64, buf_index: usize)
        ensures
            final(self)@ == fd.updated(
                uring_sys::write_fixed_entry(
                    fd.raw_fd(),
                    buf.addr,
                    buf.len as u32,
                    offset,
                    buf_index as u16,
                ),
            ),
            final(self)@ == fd.updated(
                io_uring_sqe {
                    opcode: uring_sys::IORING_OP_WRITE_FIXED,
                    flags: 0,
                    ioprio: 0,
                    fd: fd.raw_fd(),
                    off: offset,
                    addr: buf.addr,
                    len: buf.len as u32,
                    op_flags: 0,
                    user_data: 0,
                    buf_index: buf_index as u16,
                    personality: 0,
                    splice_fd_in: 0,
                },
            ),
            *final(final(self).sqe) == *final(old(self).sqe),
    {
        uring_sys::io_uring_prep_write_fixed(
            self.sqe,
            fd.as_raw_fd(),
            buf.addr,
            buf.len as u32,
            offset,
            buf_index as u16,
        );
        fd.update_sqe(self);
    }

    /// Prepare an fsync on a file descriptor.
    #[inline]
    pub fn prep_fsync(&mut self, fd: impl UringFd, flags: FsyncFlags)
        ensures
            final(self)@ == fd.updated(uring_sys::fsync_entry(fd.raw_fd(), flags.bits)),
            *final(final(self).sqe) == *final(old(self).sqe),
    {
        uring_sys::io_uring_prep_fsync(self.sqe, fd.as_raw_fd(), flags.bits());
        fd.update_sqe(self);
    }

    /// Prepare a splice, copying data from one file descriptor to another.
    #[inline]
    pub fn prep_splice(
        &mut self,
        fd_in: RawFd,
        off_in: i64,
        fd_out: RawFd,
        off_out: i64,
        count: u32,
        flags: SpliceFlags,
    )
        ensures
            final(self)@ == uring_sys::splice_entry(
                fd_in,
                off_in as u64,
                fd_out,
                off_out as u64,
                count,
                flags.bits,
            ),
            final(self)@.opcode == uring_sys::IORING_OP_SPLICE,
            final(self)@.splice_fd_in == fd_in,
            final(self)@.addr == off_in as u64,
            final(self)@.fd == fd_out,
            final(self)@.off == off_out as u64,
            final(self)@.len == count,
            final(self)@.op_flags == flags.bits,
            *final(final(self).sqe) == *final(old(self).sqe),
    {
        uring_sys::io_uring_prep_splice(
            self.sqe,
            fd_in,
            off_in,
            fd_out,
            off_out,
            count,
            flags.bits(),
        );
    }

    /// Prepare a `recv` event on a file descriptor.
    #[inline]
    pub fn prep_recv(&mut self, fd: impl UringFd, buf: Span, flags: MsgFlags)
        ensures
            final(self)@ == fd.updated(
                uring_sys::recv_entry(fd.raw_fd(), buf.addr, buf.len as u32, flags.bits as u32),
            ),
            *final(final(self).sqe) == *final(old(self).sqe),
    {
        uring_sys::io_uring_prep_recv(self.sqe, fd.as_raw_fd(), buf.addr, buf.len, flags.bits);
        fd.update_sqe(self);
    }

    /// Prepare a send event on a file descriptor.
    #[inline]
    pub fn prep_send(&mut self, fd: impl UringFd, buf: Span, flags: MsgFlags)
        ensures
            final(self)@ == fd.updated(
                uring_sys::send_entry(fd.raw_fd(), buf.addr, buf.len as u32, flags.bits as u32),
            ),
            *final(final(self).sqe) == *final(old(self).sqe),
    {
        uring_sys::io_uring_prep_send(self.sqe, fd.as_raw_fd(), buf.addr, buf.len, flags.bits);
        fd.update_sqe(self);
    }

    /// Prepare a `recvmsg` event on a file descriptor. `msg` is the address of the message header.
    pub fn prep_recvmsg(&mut self, fd: impl UringFd, msg: u64, flags: MsgFlags)
        ensures
            final(self)@ == fd.updated(
                uring_sys::recvmsg_entry(fd.raw_fd(), msg, flags.bits as u32),
            ),
            *final(final(self).sqe) == *final(old(self).sqe),
    {
        uring_sys::io_uring_prep_recvmsg(self.sqe, fd.as_raw_fd(), msg, flags.bits as u32);
        fd.update_sqe(self);
    }

    /// Prepare a `sendmsg` event on a file descriptor. `msg` is the address of the message header.
    pub fn prep_sendmsg(&mut self, fd: impl UringFd, msg: u64, flags: MsgFlags)
        ensures
            final(self)@ == fd.updated(
                uring_sys::sendmsg_entry(fd.raw_fd(), msg, flags.bits as u32),
            ),
            *final(final(self).sqe) == *final(old(self).sqe),
    {
        uring_sys::io_uring_prep_sendmsg(self.sqe, fd.as_raw_fd(), msg, flags.bits as u32);
        fd.update_sqe(self);
    }

    /// Prepare a `fallocate` event.
    #[inline]
    pub fn prep_fallocate(
        &mut self,
        fd: impl UringFd,
        offset: u64,
        size: u64,
        flags: FallocateFlags,
    )
        ensures
            final(self)@ == fd.updated(
                uring_sys::fallocate_entry(fd.raw_fd(), flags.bits as u32, offset, size),
            ),
            *final(final(self).sqe) == *final(old(self).sqe),
    {
        uring_sys::io_uring_prep_fallocate(self.sqe, fd.as_raw_fd(), flags.bits, offset, size);
        fd.update_sqe(self);
    }

    /// Prepare a `statx` event. `path` and `buf` are the addresses of the path and of the room for
    /// the answer.
    ///
    /// A registered file's mark is not set.
    #[inline]
    pub fn prep_statx(
        &mut self,
        dirfd: impl UringFd,
        path: u64,
        flags: StatxFlags,
        mask: StatxMode,
        buf: u64,
    )
        ensures
            final(self)@ == uring_sys::statx_entry(
                dirfd.raw_fd(),
                path,
                flags.bits as u32,
                mask.bits as u32,
                buf,
            ),
            *final(final(self).sqe) == *final(old(self).sqe),
    {
        uring_sys::io_uring_prep_statx(
            self.sqe,
            dirfd.as_raw_fd(),
            path,
            flags.bits(),
            mask.bits() as u32,
            buf,
        );
    }

    /// Prepare an `openat` event. `path` is the address of the path.
    ///
    /// A registered file's mark is not set.
    #[inline]
    pub fn prep_openat(&mut self, fd: impl UringFd, path: u64, flags: OFlag, mode: Mode)
        ensures
            final(self)@ == uring_sys::openat_entry(
                fd.raw_fd(),
                path,
                flags.bits as u32,
                mode.bits,
            ),
            *final(final(self).sqe) == *final(old(self).sqe),
    {
        uring_sys::io_uring_prep_openat(self.sqe, fd.as_raw_fd(), path, flags.bits, mode.bits);
    }

    /// Prepare a close event on a file descriptor.
    ///
    /// A registered file's mark is not set.
    #[inline]
    pub fn prep_close(&mut self, fd: impl UringFd)
        ensures
            final(self)@ == uring_sys::close_entry(fd.raw_fd()),
            *final(final(self).sqe) == *final(old(self).sqe),
    {
        uring_sys::io_uring_prep_close(self.sqe, fd.as_raw_fd());
    }

    /// Prepare a timeout event. `ts` is the address of the time.
    #[inline]
    pub fn prep_timeout(&mut self, ts: u64, events: u32, flags: TimeoutFlags)
        ensures
            final(self)@ == uring_sys::timeout_entry(ts, events, flags.bits),
            final(self)@.opcode == uring_sys::IORING_OP_TIMEOUT,
            final(self)@.addr == ts,
            final(self)@.len == 1,
            final(self)@.off == events,
            final(self)@.op_flags == flags.bits,
            *final(final(self).sqe) == *final(old(self).sqe),
    {
        uring_sys::io_uring_prep_timeout(self.sqe, ts, events, flags.bits());
    }

    /// Prepare the removal of the timeout with this user data.
    #[inline]
    pub fn prep_timeout_remove(&mut self, user_data: u64)
        ensures
            final(self)@ == uring_sys::timeout_remove_entry(user_data, 0),
            *final(final(self).sqe) == *final(old(self).sqe),
    {
        uring_sys::io_uring_prep_timeout_remove(self.sqe, user_data, 0);
    }

    /// Prepare a timeout for the event that links to this one. `ts` is the address of the time.
    #[inline]
    pub fn prep_link_timeout(&mut self, ts: u64)
        ensures
            final(self)@ == uring_sys::link_timeout_entry(ts, 0),
            *final(final(self).sqe) == *final(old(self).sqe),
    {
        uring_sys::io_uring_prep_link_timeout(self.sqe, ts, 0);
    }

    /// Prepare a poll of a file descriptor.
    #[inline]
    pub fn prep_poll_add(&mut self, fd: impl UringFd, poll_flags: PollFlags)
        ensures
            final(self)@ == fd.updated(
                uring_sys::poll_add_entry(fd.raw_fd(), poll_flags.bits as u16),
            ),
            *final(final(self).sqe) == *final(old(self).sqe),
    {
        uring_sys::io_uring_prep_poll_add(self.sqe, fd.as_raw_fd(), poll_flags.bits);
        fd.update_sqe(self);
    }

    /// Prepare the removal of the poll with this user data.
    #[inline]
    pub fn prep_poll_remove(&mut self, user_data: u64)
        ensures
            final(self)@ == uring_sys::poll_remove_entry(user_data),
            *final(final(self).sqe) == *final(old(self).sqe),
    {
        uring_sys::io_uring_prep_poll_remove(self.sqe, user_data);
    }

    /// Prepare a connection of a socket.
    #[inline]
    pub fn prep_connect(&mut self, fd: impl UringFd, socket_addr: &SockaddrStorage)
        ensures
            final(self)@ == fd.updated(
                uring_sys::connect_entry(fd.raw_fd(), socket_addr.addr, socket_addr.len),
            ),
            *final(final(self).sqe) == *final(old(self).sqe),
    {
        uring_sys::io_uring_prep_connect(
            self.sqe,
            fd.as_raw_fd(),
            socket_addr.addr,
            socket_addr.len,
        );
        fd.update_sqe(self);
    }

    /// Prepare an accept on a socket. Without `accept` the peer's address is not asked for, and
    /// both of its places in the entry are null.
    #[inline]
    pub fn prep_accept(&mut self, fd: impl UringFd, accept: Option<AcceptAddr>, flags: SockFlag)
        ensures
            final(self)@ == fd.updated(
                match accept {
                    Some(accept) => uring_sys::accept_entry(
                        fd.raw_fd(),
                        accept.storage,
                        accept.len,
                        flags.bits as u32,
                    ),
                    None => uring_sys::accept_entry(fd.raw_fd(), 0, 0, flags.bits as u32),
                },
            ),
            *final(final(self).sqe) == *final(old(self).sqe),
    {
        let (addr, len): (u64, u64) = match accept {
            Some(accept) => (accept.storage, accept.len),
            None => (0, 0),
        };
        uring_sys::io_uring_prep_accept(self.sqe, fd.as_raw_fd(), addr, len, flags.bits);
        fd.update_sqe(self);
    }

    /// Prepare an `fadvise` event.
    #[inline]
    pub fn prep_fadvise(
        &mut self,
        fd: impl UringFd,
        off: u64,
        len: u64,
        advice: PosixFadviseAdvice,
    )
        ensures
            final(self)@ == fd.updated(
                uring_sys::fadvise_entry(fd.raw_fd(), off, len as u32, advice.number() as u32),
            ),
            *final(final(self).sqe) == *final(old(self).sqe),
    {
        uring_sys::io_uring_prep_fadvise(self.sqe, fd.as_raw_fd(), off, len, advice.to_libc());
        fd.update_sqe(self);
    }

    /// Prepare an `madvise` event.
    #[inline]
    pub fn prep_madvise(&mut self, data: Span, advice: MmapAdvise)
        ensures
            final(self)@ == uring_sys::madvise_entry(
                data.addr,
                data.len as u32,
                advice.number() as u32,
            ),
            *final(final(self).sqe) == *final(old(self).sqe),
    {
        uring_sys::io_uring_prep_madvise(self.sqe, data.addr, data.len as u64, advice.to_libc());
    }

    /// Prepare an `epoll_ctl` event. `event` is the address of the epoll event; without one its
    /// place in the entry is null.
    #[inline]
    pub fn prep_epoll_ctl(
        &mut self,
        epoll_fd: RawFd,
        op: EpollOp,
        fd: RawFd,
        event: Option<u64>,
    )
        ensures
            final(self)@ == uring_sys::epoll_ctl_entry(
                epoll_fd,
                fd as u64,
                op.number() as u32,
                match event {
                    Some(event) => event,
                    None => 0,
                },
            ),
            *final(final(self).sqe) == *final(old(self).sqe),
    {
        let event: u64 = match event {
            Some(event) => event,
            None => 0,
        };
        uring_sys::io_uring_prep_epoll_ctl(self.sqe, epoll_fd, fd, op.to_libc(), event);
    }

    /// Prepare an update of the registered files from `offset` on, by the array `files` of file
    /// descriptors.
    #[inline]
    pub fn prep_files_update(&mut self, files: Span, offset: u32)
        ensures
            final(self)@ == uring_sys::files_update_entry(
                files.addr,
                files.len as u32,
                (offset as i32) as u64,
            ),
            *final(final(self).sqe) == *final(old(self).sqe),
    {
        uring_sys::io_uring_prep_files_update(
            self.sqe,
            files.addr,
            files.len as u32,
            offset as i32,
        );
    }

    /// Prepare to hand `count` buffers to a group, numbered from `index` on: the bytes of
    /// `buffers`, shared out evenly.
    pub fn prep_provide_buffers(
        &mut self,
        buffers: Span,
        count: u32,
        group: BufferGroupId,
        index: u32,
    )
        requires
            count != 0,
        ensures
            final(self)@ == uring_sys::provide_buffers_entry(
                buffers.addr,
                buffers.len as u32 / count,
                count as i32,
                group.id as u16,
                (index as i32) as u64,
            ),
            *final(final(self).sqe) == *final(old(self).sqe),
    {
        let len: u32 = buffers.len as u32 / count;
        uring_sys::io_uring_prep_provide_buffers(
            self.sqe,
            buffers.addr,
            len,
            count as i32,
            group.id as u16,
            index as i32,
        );
    }

    /// Prepare to take `count` buffers from a group.
    pub fn prep_remove_buffers(&mut self, count: u32, id: BufferGroupId)
        ensures
            final(self)@ == uring_sys::remove_buffers_entry(count as i32, id.id as u16),
            *final(final(self).sqe) == *final(old(self).sqe),
    {
        uring_sys::io_uring_prep_remove_buffers(self.sqe, count as i32, id.id as u16);
    }

    /// Prepare to cancel the event with this user data.
    #[inline]
    pub fn prep_cancel(&mut self, user_data: u64, flags: i32)
        ensures
            final(self)@ == uring_sys::cancel_entry(user_data, flags as u32),
            *final(final(self).sqe) == *final(old(self).sqe),
    {
        uring_sys::io_uring_prep_cancel(self.sqe, user_data, flags);
    }

    /// Prepare a no-op event.
    #[inline]
    pub fn prep_nop(&mut self)
        ensures
            final(self)@ == uring_sys::nop_entry(),
            *final(final(self).sqe) == *final(old(self).sqe),
    {
        uring_sys::io_uring_prep_nop(self.sqe);
    }

    /// Clear event. Clears user data, flags, and any event setup.
    pub fn clear(&mut self)
        ensures
            final(self)@ == uring_sys::zeroed_entry(),
            *final(final(self).sqe) == *final(old(self).sqe),
    {
        *self.sqe = io_uring_sqe::zeroed();
    }

    /// Get a reference to the underlying entry, to inspect the details of an event.
    pub fn raw(&self) -> (r: &io_uring_sqe)
        ensures
            *r == self@,
    {
        self.sqe
    }

    /// Get a mutable reference to the underlying entry.
    pub fn raw_mut(&mut self) -> (r: &mut io_uring_sqe)
        ensures
            *r == old(self)@,
            final(self)@ == *final(r),
            *final(final(self).sqe) == *final(old(self).sqe),
    {
        self.sqe
    }
}

} // verus!
