//! What each request says to the kernel: where in the entry each of its arguments stands, and that
//! nothing else stands there.
//!
//! The laws speak of the entries that the `prep_*` methods leave, on an ordinary file `fd` and on
//! a registered one `file`, by the numbers that the kernel reads.
use crate::args::Span;
use crate::registrar::{RawFd, RegisteredBuf, RegisteredFd, UringFd, UringReadBuf, UringWriteBuf};
use crate::uring_sys;
use crate::uring_sys::io_uring_sqe;
use vstd::prelude::*;

verus! {

/// A read fills the buffer that was given, and a write empties it: all of it, wherever it is not
/// longer than an entry can say, at the offset that was given. A registered buffer is named by its
/// index, a registered file by its index and the mark.
pub proof fn law_reads_and_writes(
    fd: RawFd,
    file: RegisteredFd,
    buf: Span,
    fixed: RegisteredBuf,
    offset: u64,
)
    ensures
        ({
            let blank = io_uring_sqe {
                opcode: 0,
                flags: 0,
                ioprio: 0,
                fd: 0,
                off: 0,
                addr: 0,
                len: 0,
                op_flags: 0,
                user_data: 0,
                buf_index: 0,
                personality: 0,
                splice_fd_in: 0,
            };
            &&& fd.updated(buf.read_entry(fd.raw_fd(), offset)) == (io_uring_sqe {
                    opcode: 22,
                    fd,
                    off: offset,
                    addr: buf.addr,
                    len: buf.len as u32,
                    ..blank
                })
            &&& file.updated(buf.read_entry(file.raw_fd(), offset)) == (io_uring_sqe {
                    opcode: 22,
                    flags: 1,
                    fd: file.index as i32,
                    off: offset,
                    addr: buf.addr,
                    len: buf.len as u32,
                    ..blank
                })
            &&& fd.updated(fixed.read_entry(fd.raw_fd(), offset)) == (io_uring_sqe {
                    opcode: 4,
                    fd,
                    off: offset,
                    addr: fixed.data.addr,
                    len: fixed.data.len as u32,
                    buf_index: fixed.index as u16,
                    ..blank
                })
            &&& file.updated(fixed.read_entry(file.raw_fd(), offset)) == (io_uring_sqe {
                    opcode: 4,
                    flags: 1,
                    fd: file.index as i32,
                    off: offset,
                    addr: fixed.data.addr,
                    len: fixed.data.len as u32,
                    buf_index: fixed.index as u16,
                    ..blank
                })
            &&& buf.len <= u32::MAX ==> buf.read_entry(fd, offset).len == buf.len
            &&& fixed.data.len <= u32::MAX ==> fixed.read_entry(fd, offset).len == fixed.data.len
            &&& fd.updated(buf.write_entry(fd.raw_fd(), offset)) == (io_uring_sqe {
                    opcode: 23,
                    fd,
                    off: offset,
                    addr: buf.addr,
                    len: buf.len as u32,
                    ..blank
                })
            &&& file.updated(buf.write_entry(file.raw_fd(), offset)) == (io_uring_sqe {
                    opcode: 23,
                    flags: 1,
                    fd: file.index as i32,
                    off: offset,
                    addr: buf.addr,
                    len: buf.len as u32,
                    ..blank
                })
            &&& fd.updated(fixed.write_entry(fd.raw_fd(), offset)) == (io_uring_sqe {
                    opcode: 5,
                    fd,
                    off: offset,
                    addr: fixed.data.addr,
                    len: fixed.data.len as u32,
                    buf_index: fixed.index as u16,
                    ..blank
                })
            &&& file.updated(fixed.write_entry(file.raw_fd(), offset)) == (io_uring_sqe {
                    opcode: 5,
                    flags: 1,
                    fd: file.index as i32,
                    off: offset,
                    addr: fixed.data.addr,
                    len: fixed.data.len as u32,
                    buf_index: fixed.index as u16,
                    ..blank
                })
            &&& buf.len <= u32::MAX ==> buf.write_entry(fd, offset).len == buf.len
            &&& fixed.data.len <= u32::MAX ==> fixed.write_entry(fd, offset).len == fixed.data.len
        }),
{
    assert(0u8 | 1u8 == 1u8) by (bit_vector);
}

/// The entries of reads and writes of every kind hold the address, the length and the offset as
/// they are, and the buffer's index where there is one.
pub proof fn law_read_and_write_entries(
    fd: RawFd,
    file: RegisteredFd,
    addr: u64,
    len: u32,
    offset: u64,
    index: u16,
)
    ensures
        ({
            let blank = io_uring_sqe {
                opcode: 0,
                flags: 0,
                ioprio: 0,
                fd: 0,
                off: 0,
                addr: 0,
                len: 0,
                op_flags: 0,
                user_data: 0,
                buf_index: 0,
                personality: 0,
                splice_fd_in: 0,
            };
            &&& fd.updated(uring_sys::readv_entry(fd.raw_fd(), addr, len, offset))
                == (io_uring_sqe {
                        opcode: 1,
                        fd,
                        off: offset,
                        addr,
                        len,
                        ..blank
                    })
            &&& file.updated(uring_sys::readv_entry(file.raw_fd(), addr, len, offset))
                == (io_uring_sqe {
                        opcode: 1,
                        flags: 1,
                        fd: file.index as i32,
                        off: offset,
                        addr,
                        len,
                        ..blank
                    })
            &&& fd.updated(uring_sys::writev_entry(fd.raw_fd(), addr, len, offset))
                == (io_uring_sqe {
                        opcode: 2,
                        fd,
                        off: offset,
                        addr,
                        len,
                        ..blank
                    })
            &&& file.updated(uring_sys::writev_entry(file.raw_fd(), addr, len, offset))
                == (io_uring_sqe {
                        opcode: 2,
                        flags: 1,
                        fd: file.index as i32,
                        off: offset,
                        addr,
                        len,
                        ..blank
                    })
            &&& fd.updated(uring_sys::read_entry(fd.raw_fd(), addr, len, offset)) == (io_uring_sqe {
                    opcode: 22,
                    fd,
                    off: offset,
                    addr,
                    len,
                    ..blank
                })
            &&& file.updated(uring_sys::read_entry(file.raw_fd(), addr, len, offset))
                == (io_uring_sqe {
                        opcode: 22,
                        flags: 1,
                        fd: file.index as i32,
                        off: offset,
                        addr,
                        len,
                        ..blank
                    })
            &&& fd.updated(uring_sys::write_entry(fd.raw_fd(), addr, len, offset))
                == (io_uring_sqe {
                        opcode: 23,
                        fd,
                        off: offset,
                        addr,
                        len,
                        ..blank
                    })
            &&& file.updated(uring_sys::write_entry(file.raw_fd(), addr, len, offset))
                == (io_uring_sqe {
                        opcode: 23,
                        flags: 1,
                        fd: file.index as i32,
                        off: offset,
                        addr,
                        len,
                        ..blank
                    })
            &&& fd.updated(uring_sys::read_fixed_entry(fd.raw_fd(), addr, len, offset, index))
                == (io_uring_sqe {
                        opcode: 4,
                        fd,
                        off: offset,
                        addr,
                        len,
                        buf_index: index,
                        ..blank
                    })
            &&& file.updated(uring_sys::read_fixed_entry(file.raw_fd(), addr, len, offset, index))
                == (io_uring_sqe {
                        opcode: 4,
                        flags: 1,
                        fd: file.index as i32,
                        off: offset,
                        addr,
                        len,
                        buf_index: index,
                        ..blank
                    })
            &&& fd.updated(uring_sys::write_fixed_entry(fd.raw_fd(), addr, len, offset, index))
                == (io_uring_sqe {
                        opcode: 5,
                        fd,
                        off: offset,
                        addr,
                        len,
                        buf_index: index,
                        ..blank
                    })
            &&& file.updated(uring_sys::write_fixed_entry(file.raw_fd(), addr, len, offset, index))
                == (io_uring_sqe {
                        opcode: 5,
                        flags: 1,
                        fd: file.index as i32,
                        off: offset,
                        addr,
                        len,
                        buf_index: index,
                        ..blank
                    })
        }),
{
    assert(0u8 | 1u8 == 1u8) by (bit_vector);
}

/// Syncing, allocating and advising on a file hold their arguments as they are.
pub proof fn law_file_requests(
    fd: RawFd,
    file: RegisteredFd,
    flags: u32,
    mode: u32,
    offset: u64,
    size: u64,
    len: u32,
)
    ensures
        ({
            let blank = io_uring_sqe {
                opcode: 0,
                flags: 0,
                ioprio: 0,
                fd: 0,
                off: 0,
                addr: 0,
                len: 0,
                op_flags: 0,
                user_data: 0,
                buf_index: 0,
                personality: 0,
                splice_fd_in: 0,
            };
            &&& fd.updated(uring_sys::fsync_entry(fd.raw_fd(), flags)) == (io_uring_sqe {
                    opcode: 3,
                    fd,
                    op_flags: flags,
                    ..blank
                })
            &&& file.updated(uring_sys::fsync_entry(file.raw_fd(), flags)) == (io_uring_sqe {
                    opcode: 3,
                    flags: 1,
                    fd: file.index as i32,
                    op_flags: flags,
                    ..blank
                })
            &&& fd.updated(uring_sys::fallocate_entry(fd.raw_fd(), mode, offset, size))
                == (io_uring_sqe {
                        opcode: 17,
                        fd,
                        off: offset,
                        addr: size,
                        len: mode,
                        ..blank
                    })
            &&& file.updated(uring_sys::fallocate_entry(file.raw_fd(), mode, offset, size))
                == (io_uring_sqe {
                        opcode: 17,
                        flags: 1,
                        fd: file.index as i32,
                        off: offset,
                        addr: size,
                        len: mode,
                        ..blank
                    })
            &&& fd.updated(uring_sys::fadvise_entry(fd.raw_fd(), offset, len, flags))
                == (io_uring_sqe {
                        opcode: 24,
                        fd,
                        off: offset,
                        len,
                        op_flags: flags,
                        ..blank
                    })
            &&& file.updated(uring_sys::fadvise_entry(file.raw_fd(), offset, len, flags))
                == (io_uring_sqe {
                        opcode: 24,
                        flags: 1,
                        fd: file.index as i32,
                        off: offset,
                        len,
                        op_flags: flags,
                        ..blank
                    })
        }),
{
    assert(0u8 | 1u8 == 1u8) by (bit_vector);
}

/// What is sent, received, connected to and accepted is what was given, under the flags that were
/// given.
pub proof fn law_socket_requests(
    fd: RawFd,
    file: RegisteredFd,
    addr: u64,
    addrlen: u64,
    len: u32,
    flags: u32,
)
    ensures
        ({
            let blank = io_uring_sqe {
                opcode: 0,
                flags: 0,
                ioprio: 0,
                fd: 0,
                off: 0,
                addr: 0,
                len: 0,
                op_flags: 0,
                user_data: 0,
                buf_index: 0,
                personality: 0,
                splice_fd_in: 0,
            };
            &&& fd.updated(uring_sys::recv_entry(fd.raw_fd(), addr, len, flags)) == (io_uring_sqe {
                    opcode: 27,
                    fd,
                    addr,
                    len,
                    op_flags: flags,
                    ..blank
                })
            &&& file.updated(uring_sys::recv_entry(file.raw_fd(), addr, len, flags))
                == (io_uring_sqe {
                        opcode: 27,
                        flags: 1,
                        fd: file.index as i32,
                        addr,
                        len,
                        op_flags: flags,
                        ..blank
                    })
            &&& fd.updated(uring_sys::send_entry(fd.raw_fd(), addr, len, flags)) == (io_uring_sqe {
                    opcode: 26,
                    fd,
                    addr,
                    len,
                    op_flags: flags,
                    ..blank
                })
            &&& file.updated(uring_sys::send_entry(file.raw_fd(), addr, len, flags))
                == (io_uring_sqe {
                        opcode: 26,
                        flags: 1,
                        fd: file.index as i32,
                        addr,
                        len,
                        op_flags: flags,
                        ..blank
                    })
            &&& fd.updated(uring_sys::recvmsg_entry(fd.raw_fd(), addr, flags)) == (io_uring_sqe {
                    opcode: 10,
                    fd,
                    addr,
                    len: 1,
                    op_flags: flags,
                    ..blank
                })
            &&& file.updated(uring_sys::recvmsg_entry(file.raw_fd(), addr, flags))
                == (io_uring_sqe {
                        opcode: 10,
                        flags: 1,
                        fd: file.index as i32,
                        addr,
                        len: 1,
                        op_flags: flags,
                        ..blank
                    })
            &&& fd.updated(uring_sys::sendmsg_entry(fd.raw_fd(), addr, flags)) == (io_uring_sqe {
                    opcode: 9,
                    fd,
                    addr,
                    len: 1,
                    op_flags: flags,
                    ..blank
                })
            &&& file.updated(uring_sys::sendmsg_entry(file.raw_fd(), addr, flags))
                == (io_uring_sqe {
                        opcode: 9,
                        flags: 1,
                        fd: file.index as i32,
                        addr,
                        len: 1,
                        op_flags: flags,
                        ..blank
                    })
            &&& fd.updated(uring_sys::connect_entry(fd.raw_fd(), addr, len)) == (io_uring_sqe {
                    opcode: 16,
                    fd,
                    off: len as u64,
                    addr,
                    ..blank
                })
            &&& file.updated(uring_sys::connect_entry(file.raw_fd(), addr, len)) == (io_uring_sqe {
                    opcode: 16,
                    flags: 1,
                    fd: file.index as i32,
                    off: len as u64,
                    addr,
                    ..blank
                })
            &&& fd.updated(uring_sys::accept_entry(fd.raw_fd(), addr, addrlen, flags))
                == (io_uring_sqe {
                        opcode: 13,
                        fd,
                        off: addrlen,
                        addr,
                        op_flags: flags,
                        ..blank
                    })
            &&& file.updated(uring_sys::accept_entry(file.raw_fd(), addr, addrlen, flags))
                == (io_uring_sqe {
                        opcode: 13,
                        flags: 1,
                        fd: file.index as i32,
                        off: addrlen,
                        addr,
                        op_flags: flags,
                        ..blank
                    })
        }),
{
    assert(0u8 | 1u8 == 1u8) by (bit_vector);
}

/// A splice reads from the file and the offset that were given for its input, and writes to those
/// that were given for its output.
pub proof fn law_splices(
    fd_in: i32,
    off_in: u64,
    fd_out: i32,
    off_out: u64,
    nbytes: u32,
    flags: u32,
)
    ensures
        ({
            let blank = io_uring_sqe {
                opcode: 0,
                flags: 0,
                ioprio: 0,
                fd: 0,
                off: 0,
                addr: 0,
                len: 0,
                op_flags: 0,
                user_data: 0,
                buf_index: 0,
                personality: 0,
                splice_fd_in: 0,
            };
            &&& uring_sys::splice_entry(fd_in, off_in, fd_out, off_out, nbytes, flags)
                == (io_uring_sqe {
                        opcode: 30,
                        fd: fd_out,
                        off: off_out,
                        addr: off_in,
                        len: nbytes,
                        op_flags: flags,
                        splice_fd_in: fd_in,
                        ..blank
                    })
        }),
{
}

/// Looking a file up, opening and closing it hold their arguments as they are, and no mark of a
/// registered file.
pub proof fn law_path_requests(fd: i32, path: u64, flags: u32, mask: u32, buf: u64)
    ensures
        ({
            let blank = io_uring_sqe {
                opcode: 0,
                flags: 0,
                ioprio: 0,
                fd: 0,
                off: 0,
                addr: 0,
                len: 0,
                op_flags: 0,
                user_data: 0,
                buf_index: 0,
                personality: 0,
                splice_fd_in: 0,
            };
            &&& uring_sys::statx_entry(fd, path, flags, mask, buf) == (io_uring_sqe {
                    opcode: 21,
                    fd,
                    off: buf,
                    addr: path,
                    len: mask,
                    op_flags: flags,
                    ..blank
                })
            &&& uring_sys::openat_entry(fd, path, flags, mask) == (io_uring_sqe {
                    opcode: 18,
                    fd,
                    addr: path,
                    len: mask,
                    op_flags: flags,
                    ..blank
                })
            &&& uring_sys::close_entry(fd) == (io_uring_sqe {
                    opcode: 19,
                    fd,
                    ..blank
                })
        }),
{
}

/// A timeout is of the time, after the number of events and under the flags that were given, so
/// relative unless its flags say otherwise. A removal and a cancellation are of the event with the
/// user data that was given.
pub proof fn law_timeouts_polls_and_removals(
    fd: RawFd,
    file: RegisteredFd,
    ts: u64,
    count: u32,
    flags: u32,
    events: u16,
    user_data: u64,
)
    ensures
        ({
            let blank = io_uring_sqe {
                opcode: 0,
                flags: 0,
                ioprio: 0,
                fd: 0,
                off: 0,
                addr: 0,
                len: 0,
                op_flags: 0,
                user_data: 0,
                buf_index: 0,
                personality: 0,
                splice_fd_in: 0,
            };
            &&& uring_sys::timeout_entry(ts, count, flags) == (io_uring_sqe {
                    opcode: 11,
                    fd: -1i32,
                    off: count as u64,
                    addr: ts,
                    len: 1,
                    op_flags: flags,
                    ..blank
                })
            &&& uring_sys::link_timeout_entry(ts, flags) == (io_uring_sqe {
                    opcode: 15,
                    fd: -1i32,
                    addr: ts,
                    len: 1,
                    op_flags: flags,
                    ..blank
                })
            &&& uring_sys::timeout_remove_entry(user_data, flags) == (io_uring_sqe {
                    opcode: 12,
                    fd: -1i32,
                    addr: user_data,
                    op_flags: flags,
                    ..blank
                })
            &&& uring_sys::poll_remove_entry(user_data) == (io_uring_sqe {
                    opcode: 7,
                    fd: -1i32,
                    addr: user_data,
                    ..blank
                })
            &&& uring_sys::cancel_entry(user_data, flags) == (io_uring_sqe {
                    opcode: 14,
                    fd: -1i32,
                    addr: user_data,
                    op_flags: flags,
                    ..blank
                })
            &&& uring_sys::nop_entry() == (io_uring_sqe {
                    opcode: 0,
                    fd: -1i32,
                    ..blank
                })
            &&& fd.updated(uring_sys::poll_add_entry(fd.raw_fd(), events)) == (io_uring_sqe {
                    opcode: 6,
                    fd,
                    op_flags: events as u32,
                    ..blank
                })
            &&& file.updated(uring_sys::poll_add_entry(file.raw_fd(), events)) == (io_uring_sqe {
                    opcode: 6,
                    flags: 1,
                    fd: file.index as i32,
                    op_flags: events as u32,
                    ..blank
                })
        }),
{
    assert(0u8 | 1u8 == 1u8) by (bit_vector);
}

/// Advising on memory, changing an epoll instance, and changing the registered files and the groups
/// of buffers hold their arguments as they are.
pub proof fn law_memory_epoll_and_registry_requests(
    addr: u64,
    len: u32,
    advice: u32,
    epfd: i32,
    fd: u64,
    op: u32,
    offset: u64,
    nr: i32,
    group: u16,
)
    ensures
        ({
            let blank = io_uring_sqe {
                opcode: 0,
                flags: 0,
                ioprio: 0,
                fd: 0,
                off: 0,
                addr: 0,
                len: 0,
                op_flags: 0,
                user_data: 0,
                buf_index: 0,
                personality: 0,
                splice_fd_in: 0,
            };
            &&& uring_sys::madvise_entry(addr, len, advice) == (io_uring_sqe {
                    opcode: 25,
                    fd: -1i32,
                    addr,
                    len,
                    op_flags: advice,
                    ..blank
                })
            &&& uring_sys::epoll_ctl_entry(epfd, fd, op, addr) == (io_uring_sqe {
                    opcode: 29,
                    fd: epfd,
                    off: fd,
                    addr,
                    len: op,
                    ..blank
                })
            &&& uring_sys::files_update_entry(addr, len, offset) == (io_uring_sqe {
                    opcode: 20,
                    fd: -1i32,
                    off: offset,
                    addr,
                    len,
                    ..blank
                })
            &&& uring_sys::provide_buffers_entry(addr, len, nr, group, offset) == (io_uring_sqe {
                    opcode: 31,
                    fd: nr,
                    off: offset,
                    addr,
                    len,
                    buf_index: group,
                    ..blank
                })
            &&& uring_sys::remove_buffers_entry(nr, group) == (io_uring_sqe {
                    opcode: 32,
                    fd: nr,
                    buf_index: group,
                    ..blank
                })
        }),
{
}

/// A cleared entry is zero throughout, and an entry for an opcode and its arguments is zero but for
/// these.
pub proof fn law_zeroed_entry(op: u8, fd: i32, addr: u64, len: u32, off: u64)
    ensures
        ({
            let blank = io_uring_sqe {
                opcode: 0,
                flags: 0,
                ioprio: 0,
                fd: 0,
                off: 0,
                addr: 0,
                len: 0,
                op_flags: 0,
                user_data: 0,
                buf_index: 0,
                personality: 0,
                splice_fd_in: 0,
            };
            &&& uring_sys::zeroed_entry() == blank
            &&& uring_sys::rw_entry(op, fd, addr, len, off) == (io_uring_sqe {
                    opcode: op,
                    fd,
                    off,
                    addr,
                    len,
                    ..blank
                })
        }),
{
}

/// Two requests of one kind have the same entry only if they have the same arguments: an entry
/// forgets none of them.
pub proof fn law_entries_forget_no_argument(
    f: i32,
    f2: i32,
    g: i32,
    g2: i32,
    a: u64,
    a2: u64,
    b: u64,
    b2: u64,
    m: u32,
    m2: u32,
    n: u32,
    n2: u32,
    i: u16,
    i2: u16,
)
    ensures
        uring_sys::readv_entry(f, a, m, b) == uring_sys::readv_entry(f2, a2, m2, b2)
            ==> (f, a, m, b) == (f2, a2, m2, b2),
        uring_sys::writev_entry(f, a, m, b) == uring_sys::writev_entry(f2, a2, m2, b2)
            ==> (f, a, m, b) == (f2, a2, m2, b2),
        uring_sys::read_entry(f, a, m, b) == uring_sys::read_entry(f2, a2, m2, b2)
            ==> (f, a, m, b) == (f2, a2, m2, b2),
        uring_sys::write_entry(f, a, m, b) == uring_sys::write_entry(f2, a2, m2, b2)
            ==> (f, a, m, b) == (f2, a2, m2, b2),
        uring_sys::read_fixed_entry(f, a, m, b, i)
            == uring_sys::read_fixed_entry(f2, a2, m2, b2, i2)
            ==> (f, a, m, b, i) == (f2, a2, m2, b2, i2),
        uring_sys::write_fixed_entry(f, a, m, b, i)
            == uring_sys::write_fixed_entry(f2, a2, m2, b2, i2)
            ==> (f, a, m, b, i) == (f2, a2, m2, b2, i2),
        uring_sys::fsync_entry(f, m) == uring_sys::fsync_entry(f2, m2)
            ==> (f, m) == (f2, m2),
        uring_sys::splice_entry(f, a, g, b, m, n) == uring_sys::splice_entry(f2, a2, g2, b2, m2, n2)
            ==> (f, a, g, b, m, n) == (f2, a2, g2, b2, m2, n2),
        uring_sys::recv_entry(f, a, m, n) == uring_sys::recv_entry(f2, a2, m2, n2)
            ==> (f, a, m, n) == (f2, a2, m2, n2),
        uring_sys::send_entry(f, a, m, n) == uring_sys::send_entry(f2, a2, m2, n2)
            ==> (f, a, m, n) == (f2, a2, m2, n2),
        uring_sys::recvmsg_entry(f, a, m) == uring_sys::recvmsg_entry(f2, a2, m2)
            ==> (f, a, m) == (f2, a2, m2),
        uring_sys::sendmsg_entry(f, a, m) == uring_sys::sendmsg_entry(f2, a2, m2)
            ==> (f, a, m) == (f2, a2, m2),
        uring_sys::fallocate_entry(f, m, a, b) == uring_sys::fallocate_entry(f2, m2, a2, b2)
            ==> (f, m, a, b) == (f2, m2, a2, b2),
        uring_sys::statx_entry(f, a, m, n, b) == uring_sys::statx_entry(f2, a2, m2, n2, b2)
            ==> (f, a, m, n, b) == (f2, a2, m2, n2, b2),
        uring_sys::openat_entry(f, a, m, n) == uring_sys::openat_entry(f2, a2, m2, n2)
            ==> (f, a, m, n) == (f2, a2, m2, n2),
        uring_sys::close_entry(f) == uring_sys::close_entry(f2)
            ==> (f,) == (f2,),
        uring_sys::timeout_entry(a, m, n) == uring_sys::timeout_entry(a2, m2, n2)
            ==> (a, m, n) == (a2, m2, n2),
        uring_sys::timeout_remove_entry(a, m) == uring_sys::timeout_remove_entry(a2, m2)
            ==> (a, m) == (a2, m2),
        uring_sys::link_timeout_entry(a, m) == uring_sys::link_timeout_entry(a2, m2)
            ==> (a, m) == (a2, m2),
        uring_sys::poll_add_entry(f, i) == uring_sys::poll_add_entry(f2, i2)
            ==> (f, i) == (f2, i2),
        uring_sys::poll_remove_entry(a) == uring_sys::poll_remove_entry(a2)
            ==> (a,) == (a2,),
        uring_sys::connect_entry(f, a, m) == uring_sys::connect_entry(f2, a2, m2)
            ==> (f, a, m) == (f2, a2, m2),
        uring_sys::accept_entry(f, a, b, m) == uring_sys::accept_entry(f2, a2, b2, m2)
            ==> (f, a, b, m) == (f2, a2, b2, m2),
        uring_sys::fadvise_entry(f, a, m, n) == uring_sys::fadvise_entry(f2, a2, m2, n2)
            ==> (f, a, m, n) == (f2, a2, m2, n2),
        uring_sys::madvise_entry(a, m, n) == uring_sys::madvise_entry(a2, m2, n2)
            ==> (a, m, n) == (a2, m2, n2),
        uring_sys::epoll_ctl_entry(f, a, m, b) == uring_sys::epoll_ctl_entry(f2, a2, m2, b2)
            ==> (f, a, m, b) == (f2, a2, m2, b2),
        uring_sys::files_update_entry(a, m, b) == uring_sys::files_update_entry(a2, m2, b2)
            ==> (a, m, b) == (a2, m2, b2),
        uring_sys::provide_buffers_entry(a, m, f, i, b)
            == uring_sys::provide_buffers_entry(a2, m2, f2, i2, b2)
            ==> (a, m, f, i, b) == (a2, m2, f2, i2, b2),
        uring_sys::remove_buffers_entry(f, i) == uring_sys::remove_buffers_entry(f2, i2)
            ==> (f, i) == (f2, i2),
        uring_sys::cancel_entry(a, m) == uring_sys::cancel_entry(a2, m2)
            ==> (a, m) == (a2, m2),
{
}

} // verus!
