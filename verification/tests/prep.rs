use iou::args::{
    AcceptAddr, EpollOp, FallocateFlags, MmapAdvise, Mode, MsgFlags, OFlag, PollFlags,
    PosixFadviseAdvice, SockFlag, SockaddrStorage, Span,
};
use iou::uring_sys::io_uring_sqe;
use iou::{
    BufferGroupId, FsyncFlags, RegisteredBuf, RegisteredFd, SpliceFlags, StatxFlags, StatxMode,
    TimeoutFlags, SQE,
};

/// An entry with something in every field.
fn used() -> io_uring_sqe {
    io_uring_sqe {
        opcode: 77,
        flags: 0xff,
        ioprio: 3,
        fd: 99,
        off: 1,
        addr: 2,
        len: 3,
        op_flags: 4,
        user_data: 5,
        buf_index: 6,
        personality: 7,
        splice_fd_in: 8,
    }
}

/// The entry for an opcode and its four arguments.
fn entry(opcode: u8, fd: i32, addr: u64, len: u32, off: u64) -> io_uring_sqe {
    io_uring_sqe {
        opcode,
        flags: 0,
        ioprio: 0,
        fd,
        off,
        addr,
        len,
        op_flags: 0,
        user_data: 0,
        buf_index: 0,
        personality: 0,
        splice_fd_in: 0,
    }
}

const BUF: Span = Span { addr: 0x7000, len: 512 };

#[test]
fn read_and_write() {
    let mut raw = used();
    SQE::new(&mut raw).prep_read(5, BUF, 4096);
    assert_eq!(raw, entry(22, 5, 0x7000, 512, 4096));
    SQE::new(&mut raw).prep_write(5, BUF, u64::MAX);
    assert_eq!(raw, entry(23, 5, 0x7000, 512, u64::MAX));
}

#[test]
fn read_and_write_with_registered_file_and_buffer() {
    let mut raw = used();
    let file = RegisteredFd { index: 2 };
    let buf = RegisteredBuf { data: BUF, index: 9 };
    SQE::new(&mut raw).prep_read(file, buf, 16);
    assert_eq!(
        raw,
        io_uring_sqe { flags: 1, buf_index: 9, ..entry(4, 2, 0x7000, 512, 16) }
    );
    SQE::new(&mut raw).prep_write(file, buf, 16);
    assert_eq!(
        raw,
        io_uring_sqe { flags: 1, buf_index: 9, ..entry(5, 2, 0x7000, 512, 16) }
    );
}

#[test]
fn vectored() {
    let mut raw = used();
    let bufs = Span { addr: 64, len: 4 };
    SQE::new(&mut raw).prep_read_vectored(3, bufs, 10);
    assert_eq!(raw, entry(1, 3, 64, 4, 10));
    SQE::new(&mut raw).prep_write_vectored(RegisteredFd { index: 3 }, bufs, 10);
    assert_eq!(raw, io_uring_sqe { flags: 1, ..entry(2, 3, 64, 4, 10) });
}

#[test]
fn fixed_buffers() {
    let mut raw = used();
    SQE::new(&mut raw).prep_read_fixed(3, BUF, 8, 0x1_0002);
    assert_eq!(raw, io_uring_sqe { buf_index: 2, ..entry(4, 3, 0x7000, 512, 8) });
    SQE::new(&mut raw).prep_write_fixed(3, BUF, 8, 65535);
    assert_eq!(raw, io_uring_sqe { buf_index: 65535, ..entry(5, 3, 0x7000, 512, 8) });
}

#[test]
fn lengths_keep_their_low_bits() {
    let mut raw = used();
    let long = Span { addr: 1, len: 0x3_0000_0005 };
    SQE::new(&mut raw).prep_recv(4, long, MsgFlags { bits: 0 });
    assert_eq!(raw.len, 5);
    SQE::new(&mut raw).prep_madvise(long, MmapAdvise::MADV_NORMAL);
    assert_eq!(raw.len, 5);
    SQE::new(&mut raw).prep_fadvise(4, 0, 0x7_0000_0006, PosixFadviseAdvice::POSIX_FADV_NORMAL);
    assert_eq!(raw.len, 6);
}

#[test]
fn fsync() {
    let mut raw = used();
    SQE::new(&mut raw).prep_fsync(3, FsyncFlags::FSYNC_DATASYNC());
    assert_eq!(raw, io_uring_sqe { op_flags: 1, ..entry(3, 3, 0, 0, 0) });
    SQE::new(&mut raw).prep_fsync(RegisteredFd { index: 1 }, FsyncFlags::empty());
    assert_eq!(raw, io_uring_sqe { flags: 1, ..entry(3, 1, 0, 0, 0) });
}

#[test]
fn splice() {
    let mut raw = used();
    SQE::new(&mut raw).prep_splice(10, -1, 11, 300, 64, SpliceFlags::F_FD_IN_FIXED());
    assert_eq!(
        raw,
        io_uring_sqe {
            splice_fd_in: 10,
            op_flags: 1 << 31,
            ..entry(30, 11, u64::MAX, 64, 300)
        }
    );
}

#[test]
fn messages() {
    let mut raw = used();
    let peek = MsgFlags { bits: libc::MSG_PEEK };
    SQE::new(&mut raw).prep_recv(4, BUF, peek);
    assert_eq!(raw, io_uring_sqe { op_flags: 2, ..entry(27, 4, 0x7000, 512, 0) });
    SQE::new(&mut raw).prep_send(RegisteredFd { index: 4 }, BUF, peek);
    assert_eq!(raw, io_uring_sqe { flags: 1, op_flags: 2, ..entry(26, 4, 0x7000, 512, 0) });
    SQE::new(&mut raw).prep_recvmsg(4, 0x900, peek);
    assert_eq!(raw, io_uring_sqe { op_flags: 2, ..entry(10, 4, 0x900, 1, 0) });
    SQE::new(&mut raw).prep_sendmsg(4, 0x900, peek);
    assert_eq!(raw, io_uring_sqe { op_flags: 2, ..entry(9, 4, 0x900, 1, 0) });
    SQE::new(&mut raw).prep_sendmsg(4, 0x900, MsgFlags { bits: -1 });
    assert_eq!(raw.op_flags, u32::MAX);
}

#[test]
fn fallocate() {
    let mut raw = used();
    let keep = FallocateFlags { bits: libc::FALLOC_FL_KEEP_SIZE };
    SQE::new(&mut raw).prep_fallocate(4, 100, 2000, keep);
    assert_eq!(raw, entry(17, 4, 2000, 1, 100));
}

#[test]
fn statx_openat_close_do_not_mark_registered_files() {
    let mut raw = used();
    let file = RegisteredFd { index: 6 };
    let mask = StatxMode::STATX_SIZE().union(StatxMode::STATX_TYPE());
    SQE::new(&mut raw).prep_statx(file, 0x10, StatxFlags::AT_EMPTY_PATH(), mask, 0x20);
    assert_eq!(raw, io_uring_sqe { op_flags: 0x1000, ..entry(21, 6, 0x10, 0x201, 0x20) });
    let create = OFlag { bits: libc::O_CREAT | libc::O_RDWR };
    SQE::new(&mut raw).prep_openat(file, 0x10, create, Mode { bits: 0o644 });
    assert_eq!(raw, io_uring_sqe { op_flags: 0o102, ..entry(18, 6, 0x10, 0o644, 0) });
    SQE::new(&mut raw).prep_close(file);
    assert_eq!(raw, entry(19, 6, 0, 0, 0));
}

#[test]
fn timeouts() {
    let mut raw = used();
    SQE::new(&mut raw).prep_timeout(0x50, 3, TimeoutFlags::TIMEOUT_ABS());
    assert_eq!(raw, io_uring_sqe { op_flags: 1, ..entry(11, -1, 0x50, 1, 3) });
    SQE::new(&mut raw).prep_timeout_remove(44);
    assert_eq!(raw, entry(12, -1, 44, 0, 0));
    SQE::new(&mut raw).prep_link_timeout(0x50);
    assert_eq!(raw, entry(15, -1, 0x50, 1, 0));
}

#[test]
fn polls() {
    let mut raw = used();
    let events = PollFlags { bits: libc::POLLIN | libc::POLLOUT };
    SQE::new(&mut raw).prep_poll_add(RegisteredFd { index: 8 }, events);
    assert_eq!(raw, io_uring_sqe { flags: 1, op_flags: 5, ..entry(6, 8, 0, 0, 0) });
    SQE::new(&mut raw).prep_poll_add(8, PollFlags { bits: i16::MIN });
    assert_eq!(raw, io_uring_sqe { op_flags: 0x8000, ..entry(6, 8, 0, 0, 0) });
    SQE::new(&mut raw).prep_poll_remove(44);
    assert_eq!(raw, entry(7, -1, 44, 0, 0));
}

#[test]
fn sockets() {
    let mut raw = used();
    SQE::new(&mut raw).prep_connect(7, &SockaddrStorage { addr: 0x60, len: 16 });
    assert_eq!(raw, entry(16, 7, 0x60, 0, 16));
    let flags = SockFlag { bits: libc::SOCK_CLOEXEC };
    let place = AcceptAddr { storage: 0x60, len: 0x70 };
    SQE::new(&mut raw).prep_accept(7, Some(place), flags);
    assert_eq!(raw, io_uring_sqe { op_flags: 0o2000000, ..entry(13, 7, 0x60, 0, 0x70) });
    SQE::new(&mut raw).prep_accept(RegisteredFd { index: 7 }, None, flags);
    assert_eq!(raw, io_uring_sqe { flags: 1, op_flags: 0o2000000, ..entry(13, 7, 0, 0, 0) });
}

fn fadvise_number(advice: PosixFadviseAdvice) -> u32 {
    let mut raw = used();
    SQE::new(&mut raw).prep_fadvise(3, 10, 20, advice);
    assert_eq!(raw, io_uring_sqe { op_flags: raw.op_flags, ..entry(24, 3, 0, 20, 10) });
    raw.op_flags
}

#[test]
fn fadvise_numbers() {
    let table = [
        (PosixFadviseAdvice::POSIX_FADV_NORMAL, 0),
        (PosixFadviseAdvice::POSIX_FADV_RANDOM, 1),
        (PosixFadviseAdvice::POSIX_FADV_SEQUENTIAL, 2),
        (PosixFadviseAdvice::POSIX_FADV_WILLNEED, 3),
        (PosixFadviseAdvice::POSIX_FADV_DONTNEED, 4),
        (PosixFadviseAdvice::POSIX_FADV_NOREUSE, 5),
    ];
    for (advice, number) in table {
        assert_eq!(fadvise_number(advice), number);
    }
}

fn madvise_number(advice: MmapAdvise) -> u32 {
    let mut raw = used();
    SQE::new(&mut raw).prep_madvise(BUF, advice);
    assert_eq!(raw, io_uring_sqe { op_flags: raw.op_flags, ..entry(25, -1, 0x7000, 512, 0) });
    raw.op_flags
}

#[test]
fn madvise_numbers() {
    let table = [
        (MmapAdvise::MADV_NORMAL, 0),
        (MmapAdvise::MADV_RANDOM, 1),
        (MmapAdvise::MADV_SEQUENTIAL, 2),
        (MmapAdvise::MADV_WILLNEED, 3),
        (MmapAdvise::MADV_DONTNEED, 4),
        (MmapAdvise::MADV_FREE, 8),
        (MmapAdvise::MADV_REMOVE, 9),
        (MmapAdvise::MADV_DONTFORK, 10),
        (MmapAdvise::MADV_DOFORK, 11),
        (MmapAdvise::MADV_MERGEABLE, 12),
        (MmapAdvise::MADV_UNMERGEABLE, 13),
        (MmapAdvise::MADV_HUGEPAGE, 14),
        (MmapAdvise::MADV_NOHUGEPAGE, 15),
        (MmapAdvise::MADV_DONTDUMP, 16),
        (MmapAdvise::MADV_DODUMP, 17),
        (MmapAdvise::MADV_HWPOISON, 100),
        (MmapAdvise::MADV_SOFT_OFFLINE, 101),
    ];
    for (advice, number) in table {
        assert_eq!(madvise_number(advice), number);
    }
}

#[test]
fn epoll_ctl() {
    let mut raw = used();
    SQE::new(&mut raw).prep_epoll_ctl(20, EpollOp::EpollCtlAdd, 21, Some(0x80));
    assert_eq!(raw, entry(29, 20, 0x80, 1, 21));
    SQE::new(&mut raw).prep_epoll_ctl(20, EpollOp::EpollCtlDel, 21, None);
    assert_eq!(raw, entry(29, 20, 0, 2, 21));
    SQE::new(&mut raw).prep_epoll_ctl(20, EpollOp::EpollCtlMod, 21, Some(0x80));
    assert_eq!(raw, entry(29, 20, 0x80, 3, 21));
}

#[test]
fn files_update() {
    let mut raw = used();
    SQE::new(&mut raw).prep_files_update(Span { addr: 0x90, len: 6 }, 2);
    assert_eq!(raw, entry(20, -1, 0x90, 6, 2));
}

#[test]
fn buffer_groups() {
    let mut raw = used();
    let group = BufferGroupId { id: 12 };
    SQE::new(&mut raw).prep_provide_buffers(Span { addr: 0x90, len: 1000 }, 3, group, 40);
    assert_eq!(raw, io_uring_sqe { buf_index: 12, ..entry(31, 3, 0x90, 333, 40) });
    SQE::new(&mut raw).prep_remove_buffers(3, group);
    assert_eq!(raw, io_uring_sqe { buf_index: 12, ..entry(32, 3, 0, 0, 0) });
}

#[test]
fn cancel_and_nop() {
    let mut raw = used();
    SQE::new(&mut raw).prep_cancel(44, 1);
    assert_eq!(raw, io_uring_sqe { op_flags: 1, ..entry(14, -1, 44, 0, 0) });
    SQE::new(&mut raw).prep_nop();
    assert_eq!(raw, entry(0, -1, 0, 0, 0));
}

#[test]
fn preparing_again_leaves_nothing_behind() {
    let mut raw = used();
    let mut sqe = SQE::new(&mut raw);
    sqe.prep_read_fixed(RegisteredFd { index: 1 }, BUF, 0, 3);
    sqe.set_user_data(17);
    sqe.prep_close(9);
    assert_eq!(raw, entry(19, 9, 0, 0, 0));
}
