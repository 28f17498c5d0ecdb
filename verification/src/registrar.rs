//! Files and buffers that requests can name, registered with the ring or not.
use crate::args::Span;
use crate::sqe::SQE;
use crate::uring_sys;
use crate::uring_sys::io_uring_sqe;
use vstd::prelude::*;

verus! {

pub type RawFd = i32;

/// A file that a request can be about.
pub trait UringFd: Sized {
    /// The number that stands for the file in an entry.
    spec fn raw_fd(&self) -> RawFd;

    /// What `entry`, already prepared for the file, becomes by `update_sqe`.
    spec fn updated(&self, entry: io_uring_sqe) -> io_uring_sqe;

    fn as_raw_fd(&self) -> (r: RawFd)
        ensures
            r == self.raw_fd(),
    ;

    /// Marks an entry as one about this file. Preparing an entry takes such a mark away, so this
    /// comes after it.
    fn update_sqe(&self, sqe: &mut SQE<'_>)
        ensures
            final(sqe)@ == self.updated(old(sqe)@),
            *final(final(sqe).sqe) == *final(old(sqe).sqe),
    ;
}

/// An ordinary file descriptor leaves an entry as it is.
impl UringFd for RawFd {
    open spec fn raw_fd(&self) -> RawFd {
        *self
    }

    open spec fn updated(&self, entry: io_uring_sqe) -> io_uring_sqe {
        entry
    }

    fn as_raw_fd(&self) -> (r: RawFd) {
        *self
    }

    fn update_sqe(&self, _sqe: &mut SQE<'_>) {
    }
}

/// A file that is registered with the ring, known by its index there.
#[derive(Clone, Copy, Debug, PartialEq, Eq, Structural)]
pub struct RegisteredFd {
    pub index: u32,
}

impl UringFd for RegisteredFd {
    open spec fn raw_fd(&self) -> RawFd {
        self.index as i32
    }

    open spec fn updated(&self, entry: io_uring_sqe) -> io_uring_sqe {
        io_uring_sqe { flags: entry.flags | uring_sys::IOSQE_FIXED_FILE, ..entry }
    }

    fn as_raw_fd(&self) -> (r: RawFd) {
        self.index as i32
    }

    fn update_sqe(&self, sqe: &mut SQE<'_>) {
        sqe.set_fixed_file();
    }
}

/// Memory that a file can be read into.
pub trait UringReadBuf: Sized {
    /// The entry for such a read, before the file marks it.
    spec fn read_entry(&self, fd: RawFd, offset: u64) -> io_uring_sqe;

    fn prep_read<F: UringFd>(self, fd: F, sqe: &mut SQE<'_>, offset: u64)
        ensures
            final(sqe)@ == fd.updated(self.read_entry(fd.raw_fd(), offset)),
            *final(final(sqe).sqe) == *final(old(sqe).sqe),
    ;
}

/// Memory that a file can be written from.
pub trait UringWriteBuf: Sized {
    /// The entry for such a write, before the file marks it.
    spec fn write_entry(&self, fd: RawFd, offset: u64) -> io_uring_sqe;

    fn prep_write<F: UringFd>(self, fd: F, sqe: &mut SQE<'_>, offset: u64)
        ensures
            final(sqe)@ == fd.updated(self.write_entry(fd.raw_fd(), offset)),
            *final(final(sqe).sqe) == *final(old(sqe).sqe),
    ;
}

impl UringReadBuf for Span {
    open spec fn read_entry(&self, fd: RawFd, offset: u64) -> io_uring_sqe {
        uring_sys::read_entry(fd, self.addr, self.len as u32, offset)
    }

    fn prep_read<F: UringFd>(self, fd: F, sqe: &mut SQE<'_>, offset: u64) {
        uring_sys::io_uring_prep_read(
            sqe.raw_mut(),
            fd.as_raw_fd(),
            self.addr,
            self.len as u32,
            offset,
        );
        fd.update_sqe(sqe);
    }
}

impl UringWriteBuf for Span {
    open spec fn write_entry(&self, fd: RawFd, offset: u64) -> io_uring_sqe {
        uring_sys::write_entry(fd, self.addr, self.len as u32, offset)
    }

    fn prep_write<F: UringFd>(self, fd: F, sqe: &mut SQE<'_>, offset: u64) {
        uring_sys::io_uring_prep_write(
            sqe.raw_mut(),
            fd.as_raw_fd(),
            self.addr,
            self.len as u32,
            offset,
        );
        fd.update_sqe(sqe);
    }
}

/// Bytes within a buffer that is registered with the ring, and the buffer's index there.
#[derive(Clone, Copy, Debug, PartialEq, Eq, Structural)]
pub struct RegisteredBuf {
    pub data: Span,
    pub index: u32,
}

impl UringReadBuf for RegisteredBuf {
    open spec fn read_entry(&self, fd: RawFd, offset: u64) -> io_uring_sqe {
        uring_sys::read_fixed_entry(
            fd,
            self.data.addr,
            self.data.len as u32,
            offset,
            self.index as u16,
        )
    }

    fn prep_read<F: UringFd>(self, fd: F, sqe: &mut SQE<'_>, offset: u64) {
        sqe.prep_read_fixed(fd, self.data, offset, self.index);
    }
}

impl UringWriteBuf for RegisteredBuf {
    open spec fn write_entry(&self, fd: RawFd, offset: u64) -> io_uring_sqe {
        uring_sys::write_fixed_entry(
            fd,
            self.data.addr,
            self.data.len as u32,
            offset,
            self.index as u16,
        )
    }

    fn prep_write<F: UringFd>(self, fd: F, sqe: &mut SQE<'_>, offset: u64) {
        uring_sys::io_uring_prep_write_fixed(
            sqe.raw_mut(),
            fd.as_raw_fd(),
            self.data.addr,
            self.data.len as u32,
            offset,
            self.index as u16,
        );
        fd.update_sqe(sqe);
    }
}

} // verus!
