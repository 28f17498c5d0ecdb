//! The submission side of an io_uring instance: the entries that describe requests to the kernel,
//! the functions that fill an entry in, and the ring of slots that entries live in.
//!
//! Addresses are plain integers here. An entry only carries an address to the kernel; whoever
//! submits the entry answers for what lies there.
use vstd::prelude::*;

verus! {

pub const IORING_OP_NOP: u8 = 0;

pub const IORING_OP_READV: u8 = 1;

pub const IORING_OP_WRITEV: u8 = 2;

pub const IORING_OP_FSYNC: u8 = 3;

pub const IORING_OP_READ_FIXED: u8 = 4;

pub const IORING_OP_WRITE_FIXED: u8 = 5;

pub const IORING_OP_POLL_ADD: u8 = 6;

pub const IORING_OP_POLL_REMOVE: u8 = 7;

pub const IORING_OP_SENDMSG: u8 = 9;

pub const IORING_OP_RECVMSG: u8 = 10;

pub const IORING_OP_TIMEOUT: u8 = 11;

pub const IORING_OP_TIMEOUT_REMOVE: u8 = 12;

pub const IORING_OP_ACCEPT: u8 = 13;

pub const IORING_OP_ASYNC_CANCEL: u8 = 14;

pub const IORING_OP_LINK_TIMEOUT: u8 = 15;

pub const IORING_OP_CONNECT: u8 = 16;

pub const IORING_OP_FALLOCATE: u8 = 17;

pub const IORING_OP_OPENAT: u8 = 18;

pub const IORING_OP_CLOSE: u8 = 19;

pub const IORING_OP_FILES_UPDATE: u8 = 20;

pub const IORING_OP_STATX: u8 = 21;

pub const IORING_OP_READ: u8 = 22;

pub const IORING_OP_WRITE: u8 = 23;

pub const IORING_OP_FADVISE: u8 = 24;

pub const IORING_OP_MADVISE: u8 = 25;

pub const IORING_OP_SEND: u8 = 26;

pub const IORING_OP_RECV: u8 = 27;

pub const IORING_OP_EPOLL_CTL: u8 = 29;

pub const IORING_OP_SPLICE: u8 = 30;

pub const IORING_OP_PROVIDE_BUFFERS: u8 = 31;

pub const IORING_OP_REMOVE_BUFFERS: u8 = 32;

pub const IOSQE_FIXED_FILE: u8 = 1;

pub const IOSQE_IO_DRAIN: u8 = 2;

pub const IOSQE_IO_LINK: u8 = 4;

pub const IOSQE_IO_HARDLINK: u8 = 8;

pub const IOSQE_ASYNC: u8 = 16;

pub const IOSQE_BUFFER_SELECT: u8 = 32;

/// What stands for the file descriptor in a request that is about no file.
pub const NO_FD: i32 = -1;

/// A submission queue entry, field by field in the order in which the kernel lays it out.
///
/// Several fields mean different things to different opcodes; each stands here once, under the
/// name of its most common use.
#[allow(non_camel_case_types)]
#[derive(Clone, Copy, Debug, PartialEq, Eq, Structural)]
pub struct io_uring_sqe {
    /// What to do.
    pub opcode: u8,
    /// How to treat the entry in the queue: the bits of `SubmissionFlags`.
    pub flags: u8,
    pub ioprio: u16,
    /// The file descriptor, or the index of a registered file.
    pub fd: i32,
    /// The offset in the file, or a second address or number.
    pub off: u64,
    /// The address of a buffer or an array, or the number that takes its place.
    pub addr: u64,
    /// The length of the buffer or the array, or the number that takes its place.
    pub len: u32,
    /// The flags that belong to the opcode.
    pub op_flags: u32,
    /// Handed back with the completion.
    pub user_data: u64,
    /// The index of a registered buffer, or the group of a provided one.
    pub buf_index: u16,
    /// The credentials to act under.
    pub personality: u16,
    /// The file descriptor that a splice reads from.
    pub splice_fd_in: i32,
}

/// The entry all of whose bytes are zero.
pub open spec fn zeroed_entry() -> io_uring_sqe {
    io_uring_sqe {
        opcode: 0,
        flags: 0,
        ioprio: 0,
        fd: 0,
        off: 0,
        addr: 0,
        len: 0,
        op_flags: 0,
        user_data: 0,
        buf_index: 0,
        personality: 0,
        splice_fd_in: 0,
    }
}

/// The entry for an opcode with its four arguments, everything else zero.
pub open spec fn rw_entry(op: u8, fd: i32, addr: u64, len: u32, off: u64) -> io_uring_sqe {
    io_uring_sqe { opcode: op, fd, addr, len, off, ..zeroed_entry() }
}

pub open spec fn nop_entry() -> io_uring_sqe {
    rw_entry(IORING_OP_NOP, NO_FD, 0, 0, 0)
}

/// A vectored read into the `nr_vecs` buffers that the array at `iovecs` lists.
pub open spec fn readv_entry(fd: i32, iovecs: u64, nr_vecs: u32, offset: u64) -> io_uring_sqe {
    rw_entry(IORING_OP_READV, fd, iovecs, nr_vecs, offset)
}

/// A vectored write from the `nr_vecs` buffers that the array at `iovecs` lists.
pub open spec fn writev_entry(fd: i32, iovecs: u64, nr_vecs: u32, offset: u64) -> io_uring_sqe {
    rw_entry(IORING_OP_WRITEV, fd, iovecs, nr_vecs, offset)
}

pub open spec fn read_entry(fd: i32, buf: u64, nbytes: u32, offset: u64) -> io_uring_sqe {
    rw_entry(IORING_OP_READ, fd, buf, nbytes, offset)
}

pub open spec fn write_entry(fd: i32, buf: u64, nbytes: u32, offset: u64) -> io_uring_sqe {
    rw_entry(IORING_OP_WRITE, fd, buf, nbytes, offset)
}

/// A read into (part of) the registered buffer `buf_index`.
pub open spec fn read_fixed_entry(
    fd: i32,
    buf: u64,
    nbytes: u32,
    offset: u64,
    buf_index: u16,
) -> io_uring_sqe {
    io_uring_sqe { buf_index, ..rw_entry(IORING_OP_READ_FIXED, fd, buf, nbytes, offset) }
}

/// A write from (part of) the registered buffer `buf_index`.
pub open spec fn write_fixed_entry(
    fd: i32,
    buf: u64,
    nbytes: u32,
    offset: u64,
    buf_index: u16,
) -> io_uring_sqe {
    io_uring_sqe { buf_index, ..rw_entry(IORING_OP_WRITE_FIXED, fd, buf, nbytes, offset) }
}

pub open spec fn fsync_entry(fd: i32, fsync_flags: u32) -> io_uring_sqe {
    io_uring_sqe { op_flags: fsync_flags, ..rw_entry(IORING_OP_FSYNC, fd, 0, 0, 0) }
}

/// A splice of `nbytes` bytes. The output takes the places of the file and its offset, the
/// input's offset takes that of the address.
pub open spec fn splice_entry(
    fd_in: i32,
    off_in: u64,
    fd_out: i32,
    off_out: u64,
    nbytes: u32,
    splice_flags: u32,
) -> io_uring_sqe {
    io_uring_sqe {
        splice_fd_in: fd_in,
        op_flags: splice_flags,
        ..rw_entry(IORING_OP_SPLICE, fd_out, off_in, nbytes, off_out)
    }
}

pub open spec fn recv_entry(sockfd: i32, buf: u64, len: u32, msg_flags: u32) -> io_uring_sqe {
    io_uring_sqe { op_flags: msg_flags, ..rw_entry(IORING_OP_RECV, sockfd, buf, len, 0) }
}

pub open spec fn send_entry(sockfd: i32, buf: u64, len: u32, msg_flags: u32) -> io_uring_sqe {
    io_uring_sqe { op_flags: msg_flags, ..rw_entry(IORING_OP_SEND, sockfd, buf, len, 0) }
}

/// A receive through the one message header at `msg`.
pub open spec fn recvmsg_entry(fd: i32, msg: u64, msg_flags: u32) -> io_uring_sqe {
    io_uring_sqe { op_flags: msg_flags, ..rw_entry(IORING_OP_RECVMSG, fd, msg, 1, 0) }
}

/// A send through the one message header at `msg`.
pub open spec fn sendmsg_entry(fd: i32, msg: u64, msg_flags: u32) -> io_uring_sqe {
    io_uring_sqe { op_flags: msg_flags, ..rw_entry(IORING_OP_SENDMSG, fd, msg, 1, 0) }
}

/// An allocation of `size` bytes at `offset`. The size takes the place of the address, the mode
/// that of the length.
pub open spec fn fallocate_entry(fd: i32, mode: u32, offset: u64, size: u64) -> io_uring_sqe {
    rw_entry(IORING_OP_FALLOCATE, fd, size, mode, offset)
}

/// A `statx` of the path at `path` that writes its answer to `statxbuf`.
pub open spec fn statx_entry(
    dfd: i32,
    path: u64,
    statx_flags: u32,
    mask: u32,
    statxbuf: u64,
) -> io_uring_sqe {
    io_uring_sqe { op_flags: statx_flags, ..rw_entry(IORING_OP_STATX, dfd, path, mask, statxbuf) }
}

pub open spec fn openat_entry(dfd: i32, path: u64, open_flags: u32, mode: u32) -> io_uring_sqe {
    io_uring_sqe { op_flags: open_flags, ..rw_entry(IORING_OP_OPENAT, dfd, path, mode, 0) }
}

pub open spec fn close_entry(fd: i32) -> io_uring_sqe {
    rw_entry(IORING_OP_CLOSE, fd, 0, 0, 0)
}

/// A timeout after the one interval at `ts`, or after `count` completions.
pub open spec fn timeout_entry(ts: u64, count: u32, timeout_flags: u32) -> io_uring_sqe {
    io_uring_sqe {
        op_flags: timeout_flags,
        ..rw_entry(IORING_OP_TIMEOUT, NO_FD, ts, 1, count as u64)
    }
}

pub open spec fn timeout_remove_entry(user_data: u64, timeout_flags: u32) -> io_uring_sqe {
    io_uring_sqe {
        op_flags: timeout_flags,
        ..rw_entry(IORING_OP_TIMEOUT_REMOVE, NO_FD, user_data, 0, 0)
    }
}

pub open spec fn link_timeout_entry(ts: u64, timeout_flags: u32) -> io_uring_sqe {
    io_uring_sqe { op_flags: timeout_flags, ..rw_entry(IORING_OP_LINK_TIMEOUT, NO_FD, ts, 1, 0) }
}

pub open spec fn poll_add_entry(fd: i32, poll_events: u16) -> io_uring_sqe {
    io_uring_sqe { op_flags: poll_events as u32, ..rw_entry(IORING_OP_POLL_ADD, fd, 0, 0, 0) }
}

pub open spec fn poll_remove_entry(user_data: u64) -> io_uring_sqe {
    rw_entry(IORING_OP_POLL_REMOVE, NO_FD, user_data, 0, 0)
}

/// A connection to the socket address at `addr`, `addrlen` bytes long.
pub open spec fn connect_entry(fd: i32, addr: u64, addrlen: u32) -> io_uring_sqe {
    rw_entry(IORING_OP_CONNECT, fd, addr, 0, addrlen as u64)
}

/// An accept that writes the peer's address to `addr` and its length to `addrlen`.
pub open spec fn accept_entry(fd: i32, addr: u64, addrlen: u64, accept_flags: u32) -> io_uring_sqe {
    io_uring_sqe { op_flags: accept_flags, ..rw_entry(IORING_OP_ACCEPT, fd, addr, 0, addrlen) }
}

pub open spec fn fadvise_entry(fd: i32, offset: u64, len: u32, advice: u32) -> io_uring_sqe {
    io_uring_sqe { op_flags: advice, ..rw_entry(IORING_OP_FADVISE, fd, 0, len, offset) }
}

pub open spec fn madvise_entry(addr: u64, length: u32, advice: u32) -> io_uring_sqe {
    io_uring_sqe { op_flags: advice, ..rw_entry(IORING_OP_MADVISE, NO_FD, addr, length, 0) }
}

/// A change to the epoll instance `epfd`. The operation takes the place of the length, the file
/// that it is about that of the offset.
pub open spec fn epoll_ctl_entry(epfd: i32, fd: u64, op: u32, event: u64) -> io_uring_sqe {
    rw_entry(IORING_OP_EPOLL_CTL, epfd, event, op, fd)
}

/// An update of the registered files from `offset` on, from the `nr_fds` descriptors at `fds`.
pub open spec fn files_update_entry(fds: u64, nr_fds: u32, offset: u64) -> io_uring_sqe {
    rw_entry(IORING_OP_FILES_UPDATE, NO_FD, fds, nr_fds, offset)
}

/// A gift of `nr` buffers of `len` bytes each, side by side from `addr` on, to the group `bgid`,
/// numbered from `bid` on. The number of buffers takes the place of the file descriptor.
pub open spec fn provide_buffers_entry(
    addr: u64,
    len: u32,
    nr: i32,
    bgid: u16,
    bid: u64,
) -> io_uring_sqe {
    io_uring_sqe { buf_index: bgid, ..rw_entry(IORING_OP_PROVIDE_BUFFERS, nr, addr, len, bid) }
}

/// A withdrawal of `nr` buffers from the group `bgid`.
pub open spec fn remove_buffers_entry(nr: i32, bgid: u16) -> io_uring_sqe {
    io_uring_sqe { buf_index: bgid, ..rw_entry(IORING_OP_REMOVE_BUFFERS, nr, 0, 0, 0) }
}

pub open spec fn cancel_entry(user_data: u64, cancel_flags: u32) -> io_uring_sqe {
    io_uring_sqe {
        op_flags: cancel_flags,
        ..rw_entry(IORING_OP_ASYNC_CANCEL, NO_FD, user_data, 0, 0)
    }
}

impl io_uring_sqe {
    pub fn zeroed() -> (r: io_uring_sqe)
        ensures
            r == zeroed_entry(),
    {
        io_uring_sqe {
            opcode: 0,
            flags: 0,
            ioprio: 0,
            fd: 0,
            off: 0,
            addr: 0,
            len: 0,
            op_flags: 0,
            user_data: 0,
            buf_index: 0,
            personality: 0,
            splice_fd_in: 0,
        }
    }
}

/// Fills every field of the entry in, so that nothing of an earlier request is left in it.
pub fn io_uring_prep_rw(op: u8, sqe: &mut io_uring_sqe, fd: i32, addr: u64, len: u32, off: u64)
    ensures
        *final(sqe) == rw_entry(op, fd, addr, len, off),
{
    *sqe = io_uring_sqe::zeroed();
    sqe.opcode = op;
    sqe.fd = fd;
    sqe.addr = addr;
    sqe.len = len;
    sqe.off = off;
}

pub fn io_uring_prep_nop(sqe: &mut io_uring_sqe)
    ensures
        *final(sqe) == nop_entry(),
{
    io_uring_prep_rw(IORING_OP_NOP, sqe, NO_FD, 0, 0, 0);
}

pub fn io_uring_prep_readv(
    sqe: &mut io_uring_sqe,
    fd: i32,
    iovecs: u64,
    nr_vecs: u32,
    offset: u64,
)
    ensures
        *final(sqe) == readv_entry(fd, iovecs, nr_vecs, offset),
{
    io_uring_prep_rw(IORING_OP_READV, sqe, fd, iovecs, nr_vecs, offset);
}

pub fn io_uring_prep_writev(
    sqe: &mut io_uring_sqe,
    fd: i32,
    iovecs: u64,
    nr_vecs: u32,
    offset: u64,
)
    ensures
        *final(sqe) == writev_entry(fd, iovecs, nr_vecs, offset),
{
    io_uring_prep_rw(IORING_OP_WRITEV, sqe, fd, iovecs, nr_vecs, offset);
}

pub fn io_uring_prep_read(sqe: &mut io_uring_sqe, fd: i32, buf: u64, nbytes: u32, offset: u64)
    ensures
        *final(sqe) == read_entry(fd, buf, nbytes, offset),
{
    io_uring_prep_rw(IORING_OP_READ, sqe, fd, buf, nbytes, offset);
}

pub fn io_uring_prep_write(sqe: &mut io_uring_sqe, fd: i32, buf: u64, nbytes: u32, offset: u64)
    ensures
        *final(sqe) == write_entry(fd, buf, nbytes, offset),
{
    io_uring_prep_rw(IORING_OP_WRITE, sqe, fd, buf, nbytes, offset);
}

pub fn io_uring_prep_read_fixed(
    sqe: &mut io_uring_sqe,
    fd: i32,
    buf: u64,
    nbytes: u32,
    offset: u64,
    buf_index: u16,
)
    ensures
        *final(sqe) == read_fixed_entry(fd, buf, nbytes, offset, buf_index),
{
    io_uring_prep_rw(IORING_OP_READ_FIXED, sqe, fd, buf, nbytes, offset);
    sqe.buf_index = buf_index;
}

pub fn io_uring_prep_write_fixed(
    sqe: &mut io_uring_sqe,
    fd: i32,
    buf: u64,
    nbytes: u32,
    offset: u64,
    buf_index: u16,
)
    ensures
        *final(sqe) == write_fixed_entry(fd, buf, nbytes, offset, buf_index),
{
    io_uring_prep_rw(IORING_OP_WRITE_FIXED, sqe, fd, buf, nbytes, offset);
    sqe.buf_index = buf_index;
}

pub fn io_uring_prep_fsync(sqe: &mut io_uring_sqe, fd: i32, fsync_flags: u32)
    ensures
        *final(sqe) == fsync_entry(fd, fsync_flags),
{
    io_uring_prep_rw(IORING_OP_FSYNC, sqe, fd, 0, 0, 0);
    sqe.op_flags = fsync_flags;
}

pub fn io_uring_prep_splice(
    sqe: &mut io_uring_sqe,
    fd_in: i32,
    off_in: i64,
    fd_out: i32,
    off_out: i64,
    nbytes: u32,
    splice_flags: u32,
)
    ensures
        *final(sqe) == splice_entry(
            fd_in,
            off_in as u64,
            fd_out,
            off_out as u64,
            nbytes,
            splice_flags,
        ),
{
    io_uring_prep_rw(IORING_OP_SPLICE, sqe, fd_out, off_in as u64, nbytes, off_out as u64);
    sqe.splice_fd_in = fd_in;
    sqe.op_flags = splice_flags;
}

pub fn io_uring_prep_recv(sqe: &mut io_uring_sqe, sockfd: i32, buf: u64, len: usize, flags: i32)
    ensures
        *final(sqe) == recv_entry(sockfd, buf, len as u32, flags as u32),
{
    io_uring_prep_rw(IORING_OP_RECV, sqe, sockfd, buf, len as u32, 0);
    sqe.op_flags = flags as u32;
}

pub fn io_uring_prep_send(sqe: &mut io_uring_sqe, sockfd: i32, buf: u64, len: usize, flags: i32)
    ensures
        *final(sqe) == send_entry(sockfd, buf, len as u32, flags as u32),
{
    io_uring_prep_rw(IORING_OP_SEND, sqe, sockfd, buf, len as u32, 0);
    sqe.op_flags = flags as u32;
}

pub fn io_uring_prep_recvmsg(sqe: &mut io_uring_sqe, fd: i32, msg: u64, flags: u32)
    ensures
        *final(sqe) == recvmsg_entry(fd, msg, flags),
{
    io_uring_prep_rw(IORING_OP_RECVMSG, sqe, fd, msg, 1, 0);
    sqe.op_flags = flags;
}

pub fn io_uring_prep_sendmsg(sqe: &mut io_uring_sqe, fd: i32, msg: u64, flags: u32)
    ensures
        *final(sqe) == sendmsg_entry(fd, msg, flags),
{
    io_uring_prep_rw(IORING_OP_SENDMSG, sqe, fd, msg, 1, 0);
    sqe.op_flags = flags;
}

pub fn io_uring_prep_fallocate(
    sqe: &mut io_uring_sqe,
    fd: i32,
    mode: i32,
    offset: u64,
    size: u64,
)
    ensures
        *final(sqe) == fallocate_entry(fd, mode as u32, offset, size),
{
    io_uring_prep_rw(IORING_OP_FALLOCATE, sqe, fd, size, mode as u32, offset);
}

pub fn io_uring_prep_statx(
    sqe: &mut io_uring_sqe,
    dfd: i32,
    path: u64,
    flags: i32,
    mask: u32,
    statxbuf: u64,
)
    ensures
        *final(sqe) == statx_entry(dfd, path, flags as u32, mask, statxbuf),
{
    io_uring_prep_rw(IORING_OP_STATX, sqe, dfd, path, mask, statxbuf);
    sqe.op_flags = flags as u32;
}

pub fn io_uring_prep_openat(sqe: &mut io_uring_sqe, dfd: i32, path: u64, flags: i32, mode: u32)
    ensures
        *final(sqe) == openat_entry(dfd, path, flags as u32, mode),
{
    io_uring_prep_rw(IORING_OP_OPENAT, sqe, dfd, path, mode, 0);
    sqe.op_flags = flags as u32;
}

pub fn io_uring_prep_close(sqe: &mut io_uring_sqe, fd: i32)
    ensures
        *final(sqe) == close_entry(fd),
{
    io_uring_prep_rw(IORING_OP_CLOSE, sqe, fd, 0, 0, 0);
}

pub fn io_uring_prep_timeout(sqe: &mut io_uring_sqe, ts: u64, count: u32, flags: u32)
    ensures
        *final(sqe) == timeout_entry(ts, count, flags),
{
    io_uring_prep_rw(IORING_OP_TIMEOUT, sqe, NO_FD, ts, 1, count as u64);
    sqe.op_flags = flags;
}

pub fn io_uring_prep_timeout_remove(sqe: &mut io_uring_sqe, user_data: u64, flags: u32)
    ensures
        *final(sqe) == timeout_remove_entry(user_data, flags),
{
    io_uring_prep_rw(IORING_OP_TIMEOUT_REMOVE, sqe, NO_FD, user_data, 0, 0);
    sqe.op_flags = flags;
}

pub fn io_uring_prep_link_timeout(sqe: &mut io_uring_sqe, ts: u64, flags: u32)
    ensures
        *final(sqe) == link_timeout_entry(ts, flags),
{
    io_uring_prep_rw(IORING_OP_LINK_TIMEOUT, sqe, NO_FD, ts, 1, 0);
    sqe.op_flags = flags;
}

pub fn io_uring_prep_poll_add(sqe: &mut io_uring_sqe, fd: i32, poll_mask: i16)
    ensures
        *final(sqe) == poll_add_entry(fd, poll_mask as u16),
{
    io_uring_prep_rw(IORING_OP_POLL_ADD, sqe, fd, 0, 0, 0);
    sqe.op_flags = (poll_mask as u16) as u32;
}

pub fn io_uring_prep_poll_remove(sqe: &mut io_uring_sqe, user_data: u64)
    ensures
        *final(sqe) == poll_remove_entry(user_data),
{
    io_uring_prep_rw(IORING_OP_POLL_REMOVE, sqe, NO_FD, user_data, 0, 0);
}

pub fn io_uring_prep_connect(sqe: &mut io_uring_sqe, fd: i32, addr: u64, addrlen: u32)
    ensures
        *final(sqe) == connect_entry(fd, addr, addrlen),
{
    io_uring_prep_rw(IORING_OP_CONNECT, sqe, fd, addr, 0, addrlen as u64);
}

pub fn io_uring_prep_accept(
    sqe: &mut io_uring_sqe,
    fd: i32,
    addr: u64,
    addrlen: u64,
    flags: i32,
)
    ensures
        *final(sqe) == accept_entry(fd, addr, addrlen, flags as u32),
{
    io_uring_prep_rw(IORING_OP_ACCEPT, sqe, fd, addr, 0, addrlen);
    sqe.op_flags = flags as u32;
}

/// An entry has 32 bits for a length; of `len` it gets the low ones.
pub fn io_uring_prep_fadvise(
    sqe: &mut io_uring_sqe,
    fd: i32,
    offset: u64,
    len: u64,
    advice: i32,
)
    ensures
        *final(sqe) == fadvise_entry(fd, offset, len as u32, advice as u32),
{
    io_uring_prep_rw(IORING_OP_FADVISE, sqe, fd, 0, len as u32, offset);
    sqe.op_flags = advice as u32;
}

/// An entry has 32 bits for a length; of `length` it gets the low ones.
pub fn io_uring_prep_madvise(sqe: &mut io_uring_sqe, addr: u64, length: u64, advice: i32)
    ensures
        *final(sqe) == madvise_entry(addr, length as u32, advice as u32),
{
    io_uring_prep_rw(IORING_OP_MADVISE, sqe, NO_FD, addr, length as u32, 0);
    sqe.op_flags = advice as u32;
}

pub fn io_uring_prep_epoll_ctl(sqe: &mut io_uring_sqe, epfd: i32, fd: i32, op: i32, event: u64)
    ensures
        *final(sqe) == epoll_ctl_entry(epfd, fd as u64, op as u32, event),
{
    io_uring_prep_rw(IORING_OP_EPOLL_CTL, sqe, epfd, event, op as u32, fd as u64);
}

pub fn io_uring_prep_files_update(sqe: &mut io_uring_sqe, fds: u64, nr_fds: u32, offset: i32)
    ensures
        *final(sqe) == files_update_entry(fds, nr_fds, offset as u64),
{
    io_uring_prep_rw(IORING_OP_FILES_UPDATE, sqe, NO_FD, fds, nr_fds, offset as u64);
}

pub fn io_uring_prep_provide_buffers(
    sqe: &mut io_uring_sqe,
    addr: u64,
    len: u32,
    nr: i32,
    bgid: u16,
    bid: i32,
)
    ensures
        *final(sqe) == provide_buffers_entry(addr, len, nr, bgid, bid as u64),
{
    io_uring_prep_rw(IORING_OP_PROVIDE_BUFFERS, sqe, nr, addr, len, bid as u64);
    sqe.buf_index = bgid;
}

pub fn io_uring_prep_remove_buffers(sqe: &mut io_uring_sqe, nr: i32, bgid: u16)
    ensures
        *final(sqe) == remove_buffers_entry(nr, bgid),
{
    io_uring_prep_rw(IORING_OP_REMOVE_BUFFERS, sqe, nr, 0, 0, 0);
    sqe.buf_index = bgid;
}

pub fn io_uring_prep_cancel(sqe: &mut io_uring_sqe, user_data: u64, flags: i32)
    ensures
        *final(sqe) == cancel_entry(user_data, flags as u32),
{
    io_uring_prep_rw(IORING_OP_ASYNC_CANCEL, sqe, NO_FD, user_data, 0, 0);
    sqe.op_flags = flags as u32;
}

/// How many values the counters of a ring go through before they start again at zero.
pub const COUNTER_SPAN: u64 = 0x1_0000_0000;

/// The submission side of a ring.
///
/// The counters run freely and wrap around. The slot that a counter stands for is its remainder
/// by the number of slots.
#[allow(non_camel_case_types)]
pub struct io_uring {
    /// The slots. Their number divides `COUNTER_SPAN`, so that a counter that wraps around goes
    /// on in the slot that is next.
    pub sqes: Vec<io_uring_sqe>,
    /// Counts the entries that the kernel has taken.
    pub khead: u32,
    /// Counts the entries that have been handed out.
    pub sqe_tail: u32,
}

impl io_uring {
    /// How many slots are handed out and not taken by the kernel yet.
    pub open spec fn in_use(self) -> int {
        (self.sqe_tail - self.khead) % (COUNTER_SPAN as int)
    }

    pub open spec fn wf(self) -> bool {
        &&& 0 < self.sqes@.len() <= u32::MAX
        &&& COUNTER_SPAN as int % self.sqes@.len() as int == 0
        &&& self.in_use() <= self.sqes@.len()
    }

    /// How many slots can be handed out.
    pub open spec fn free(self) -> int {
        self.sqes@.len() - self.in_use()
    }

    /// The slot that is handed out next.
    pub open spec fn next_slot(self) -> int {
        self.sqe_tail as int % self.sqes@.len() as int
    }

    /// A ring of `entries` slots, all of them free. The counters wrap around in step with the
    /// slots only if the number of slots is a power of two, which is to say that it divides the
    /// counters' span.
    pub fn new(entries: u32) -> (r: io_uring)
        requires
            entries > 0,
            COUNTER_SPAN as int % entries as int == 0,
        ensures
            r.wf(),
            r.sqes@ == Seq::new(entries as nat, |i: int| zeroed_entry()),
            r.khead == 0,
            r.sqe_tail == 0,
    {
        let mut sqes: Vec<io_uring_sqe> = Vec::new();
        let mut made: u32 = 0;
        while made < entries
            invariant
                made <= entries,
                sqes@ == Seq::new(made as nat, |i: int| zeroed_entry()),
            decreases entries - made,
        {
            sqes.push(io_uring_sqe::zeroed());
            made = made + 1;
        }
        io_uring { sqes, khead: 0, sqe_tail: 0 }
    }

    /// How many entries the ring has room for.
    pub fn space_left(&self) -> (r: u32)
        requires
            self.wf(),
        ensures
            r == self.free(),
            r + (self.sqe_tail - self.khead) % 0x1_0000_0000 == self.sqes@.len(),
    {
        self.sqes.len() as u32 - self.sqe_tail.wrapping_sub(self.khead)
    }
}

} // verus!
