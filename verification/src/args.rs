//! What requests are about, as plain values: memory by its address, sets of flags by their bits,
//! and the choices that the kernel knows by number.
use vstd::prelude::*;

verus! {

/// An array in memory: where it starts, and how many elements it has.
#[derive(Clone, Copy, Debug, PartialEq, Eq, Structural)]
pub struct Span {
    pub addr: u64,
    pub len: usize,
}

/// A socket address in memory: where it starts, and how many bytes of it are meant.
#[derive(Clone, Copy, Debug, PartialEq, Eq, Structural)]
pub struct SockaddrStorage {
    pub addr: u64,
    pub len: u32,
}

/// Where an `accept` leaves the peer's address: the address of the storage, and that of the
/// length, which says on entry how large the storage is.
#[derive(Clone, Copy, Debug, PartialEq, Eq, Structural)]
pub struct AcceptAddr {
    pub storage: u64,
    pub len: u64,
}

/// The flags of a message that is sent or received.
#[derive(Clone, Copy, Debug, PartialEq, Eq, Structural)]
pub struct MsgFlags {
    pub bits: i32,
}

/// The flags of a socket that is made.
#[derive(Clone, Copy, Debug, PartialEq, Eq, Structural)]
pub struct SockFlag {
    pub bits: i32,
}

/// The flags of a file that is opened.
#[derive(Clone, Copy, Debug, PartialEq, Eq, Structural)]
pub struct OFlag {
    pub bits: i32,
}

/// The permissions of a file that is made.
#[derive(Clone, Copy, Debug, PartialEq, Eq, Structural)]
pub struct Mode {
    pub bits: u32,
}

/// How a file's space is changed.
#[derive(Clone, Copy, Debug, PartialEq, Eq, Structural)]
pub struct FallocateFlags {
    pub bits: i32,
}

/// The events that a poll waits for.
#[derive(Clone, Copy, Debug, PartialEq, Eq, Structural)]
pub struct PollFlags {
    pub bits: i16,
}

/// How a file is going to be used.
#[allow(non_camel_case_types)]
#[derive(Clone, Copy, Debug, PartialEq, Eq, Structural)]
pub enum PosixFadviseAdvice {
    POSIX_FADV_NORMAL,
    POSIX_FADV_SEQUENTIAL,
    POSIX_FADV_RANDOM,
    POSIX_FADV_NOREUSE,
    POSIX_FADV_WILLNEED,
    POSIX_FADV_DONTNEED,
}

impl PosixFadviseAdvice {
    /// The number that the kernel knows this by.
    pub open spec fn number(self) -> i32 {
        match self {
            PosixFadviseAdvice::POSIX_FADV_NORMAL => 0,
            PosixFadviseAdvice::POSIX_FADV_SEQUENTIAL => 2,
            PosixFadviseAdvice::POSIX_FADV_RANDOM => 1,
            PosixFadviseAdvice::POSIX_FADV_NOREUSE => 5,
            PosixFadviseAdvice::POSIX_FADV_WILLNEED => 3,
            PosixFadviseAdvice::POSIX_FADV_DONTNEED => 4,
        }
    }

    /// The constant of libc for this.
    pub fn to_libc(self) -> (r: i32)
        ensures
            r == self.number(),
    {
        match self {
            PosixFadviseAdvice::POSIX_FADV_NORMAL => posix_fadv_normal(),
            PosixFadviseAdvice::POSIX_FADV_SEQUENTIAL => posix_fadv_sequential(),
            PosixFadviseAdvice::POSIX_FADV_RANDOM => posix_fadv_random(),
            PosixFadviseAdvice::POSIX_FADV_NOREUSE => posix_fadv_noreuse(),
            PosixFadviseAdvice::POSIX_FADV_WILLNEED => posix_fadv_willneed(),
            PosixFadviseAdvice::POSIX_FADV_DONTNEED => posix_fadv_dontneed(),
        }
    }
}

/// The constant `libc::POSIX_FADV_NORMAL`. libc gives it the value 0 on Linux.
#[verifier::external_body]
fn posix_fadv_normal() -> (r: i32)
    ensures
        r == 0,
{
    libc::POSIX_FADV_NORMAL
}

/// The constant `libc::POSIX_FADV_SEQUENTIAL`. libc gives it the value 2 on Linux.
#[verifier::external_body]
fn posix_fadv_sequential() -> (r: i32)
    ensures
        r == 2,
{
    libc::POSIX_FADV_SEQUENTIAL
}

/// The constant `libc::POSIX_FADV_RANDOM`. libc gives it the value 1 on Linux.
#[verifier::external_body]
fn posix_fadv_random() -> (r: i32)
    ensures
        r == 1,
{
    libc::POSIX_FADV_RANDOM
}

/// The constant `libc::POSIX_FADV_NOREUSE`. libc gives it the value 5 for every Linux target but
/// s390x, where it is 7; the library is not for that one.
#[verifier::external_body]
fn posix_fadv_noreuse() -> (r: i32)
    ensures
        r == 5,
{
    libc::POSIX_FADV_NOREUSE
}

/// The constant `libc::POSIX_FADV_WILLNEED`. libc gives it the value 3 on Linux.
#[verifier::external_body]
fn posix_fadv_willneed() -> (r: i32)
    ensures
        r == 3,
{
    libc::POSIX_FADV_WILLNEED
}

/// The constant `libc::POSIX_FADV_DONTNEED`. libc gives it the value 4 for every Linux target but
/// s390x, where it is 6; the library is not for that one.
#[verifier::external_body]
fn posix_fadv_dontneed() -> (r: i32)
    ensures
        r == 4,
{
    libc::POSIX_FADV_DONTNEED
}

/// How memory is going to be used.
#[allow(non_camel_case_types)]
#[derive(Clone, Copy, Debug, PartialEq, Eq, Structural)]
pub enum MmapAdvise {
    MADV_NORMAL,
    MADV_RANDOM,
    MADV_SEQUENTIAL,
    MADV_WILLNEED,
    MADV_DONTNEED,
    MADV_REMOVE,
    MADV_DONTFORK,
    MADV_DOFORK,
    MADV_HWPOISON,
    MADV_MERGEABLE,
    MADV_UNMERGEABLE,
    MADV_SOFT_OFFLINE,
    MADV_HUGEPAGE,
    MADV_NOHUGEPAGE,
    MADV_DONTDUMP,
    MADV_DODUMP,
    MADV_FREE,
}

impl MmapAdvise {
    /// The number that the kernel knows this by.
    pub open spec fn number(self) -> i32 {
        match self {
            MmapAdvise::MADV_NORMAL => 0,
            MmapAdvise::MADV_RANDOM => 1,
            MmapAdvise::MADV_SEQUENTIAL => 2,
            MmapAdvise::MADV_WILLNEED => 3,
            MmapAdvise::MADV_DONTNEED => 4,
            MmapAdvise::MADV_REMOVE => 9,
            MmapAdvise::MADV_DONTFORK => 10,
            MmapAdvise::MADV_DOFORK => 11,
            MmapAdvise::MADV_HWPOISON => 100,
            MmapAdvise::MADV_MERGEABLE => 12,
            MmapAdvise::MADV_UNMERGEABLE => 13,
            MmapAdvise::MADV_SOFT_OFFLINE => 101,
            MmapAdvise::MADV_HUGEPAGE => 14,
            MmapAdvise::MADV_NOHUGEPAGE => 15,
            MmapAdvise::MADV_DONTDUMP => 16,
            MmapAdvise::MADV_DODUMP => 17,
            MmapAdvise::MADV_FREE => 8,
        }
    }

    /// The constant of libc for this.
    pub fn to_libc(self) -> (r: i32)
        ensures
            r == self.number(),
    {
        match self {
            MmapAdvise::MADV_NORMAL => madv_normal(),
            MmapAdvise::MADV_RANDOM => madv_random(),
            MmapAdvise::MADV_SEQUENTIAL => madv_sequential(),
            MmapAdvise::MADV_WILLNEED => madv_willneed(),
            MmapAdvise::MADV_DONTNEED => madv_dontneed(),
            MmapAdvise::MADV_REMOVE => madv_remove(),
            MmapAdvise::MADV_DONTFORK => madv_dontfork(),
            MmapAdvise::MADV_DOFORK => madv_dofork(),
            MmapAdvise::MADV_HWPOISON => madv_hwpoison(),
            MmapAdvise::MADV_MERGEABLE => madv_mergeable(),
            MmapAdvise::MADV_UNMERGEABLE => madv_unmergeable(),
            MmapAdvise::MADV_SOFT_OFFLINE => madv_soft_offline(),
            MmapAdvise::MADV_HUGEPAGE => madv_hugepage(),
            MmapAdvise::MADV_NOHUGEPAGE => madv_nohugepage(),
            MmapAdvise::MADV_DONTDUMP => madv_dontdump(),
            MmapAdvise::MADV_DODUMP => madv_dodump(),
            MmapAdvise::MADV_FREE => madv_free(),
        }
    }
}

/// The constant `libc::MADV_NORMAL`. libc gives it the value 0 on Linux.
#[verifier::external_body]
fn madv_normal() -> (r: i32)
    ensures
        r == 0,
{
    libc::MADV_NORMAL
}

/// The constant `libc::MADV_RANDOM`. libc gives it the value 1 on Linux.
#[verifier::external_body]
fn madv_random() -> (r: i32)
    ensures
        r == 1,
{
    libc::MADV_RANDOM
}

/// The constant `libc::MADV_SEQUENTIAL`. libc gives it the value 2 on Linux.
#[verifier::external_body]
fn madv_sequential() -> (r: i32)
    ensures
        r == 2,
{
    libc::MADV_SEQUENTIAL
}

/// The constant `libc::MADV_WILLNEED`. libc gives it the value 3 on Linux.
#[verifier::external_body]
fn madv_willneed() -> (r: i32)
    ensures
        r == 3,
{
    libc::MADV_WILLNEED
}

/// The constant `libc::MADV_DONTNEED`. libc gives it the value 4 on Linux.
#[verifier::external_body]
fn madv_dontneed() -> (r: i32)
    ensures
        r == 4,
{
    libc::MADV_DONTNEED
}

/// The constant `libc::MADV_REMOVE`. libc gives it the value 9 on Linux.
#[verifier::external_body]
fn madv_remove() -> (r: i32)
    ensures
        r == 9,
{
    libc::MADV_REMOVE
}

/// The constant `libc::MADV_DONTFORK`. libc gives it the value 10 on Linux.
#[verifier::external_body]
fn madv_dontfork() -> (r: i32)
    ensures
        r == 10,
{
    libc::MADV_DONTFORK
}

/// The constant `libc::MADV_DOFORK`. libc gives it the value 11 on Linux.
#[verifier::external_body]
fn madv_dofork() -> (r: i32)
    ensures
        r == 11,
{
    libc::MADV_DOFORK
}

/// The constant `libc::MADV_HWPOISON`. libc gives it the value 100 on Linux.
#[verifier::external_body]
fn madv_hwpoison() -> (r: i32)
    ensures
        r == 100,
{
    libc::MADV_HWPOISON
}

/// The constant `libc::MADV_MERGEABLE`. libc gives it the value 12 on Linux.
#[verifier::external_body]
fn madv_mergeable() -> (r: i32)
    ensures
        r == 12,
{
    libc::MADV_MERGEABLE
}

/// The constant `libc::MADV_UNMERGEABLE`. libc gives it the value 13 on Linux.
#[verifier::external_body]
fn madv_unmergeable() -> (r: i32)
    ensures
        r == 13,
{
    libc::MADV_UNMERGEABLE
}

/// The constant `libc::MADV_SOFT_OFFLINE`. libc gives it the value 101 on Linux.
#[verifier::external_body]
fn madv_soft_offline() -> (r: i32)
    ensures
        r == 101,
{
    libc::MADV_SOFT_OFFLINE
}

/// The constant `libc::MADV_HUGEPAGE`. libc gives it the value 14 on Linux.
#[verifier::external_body]
fn madv_hugepage() -> (r: i32)
    ensures
        r == 14,
{
    libc::MADV_HUGEPAGE
}

/// The constant `libc::MADV_NOHUGEPAGE`. libc gives it the value 15 on Linux.
#[verifier::external_body]
fn madv_nohugepage() -> (r: i32)
    ensures
        r == 15,
{
    libc::MADV_NOHUGEPAGE
}

/// The constant `libc::MADV_DONTDUMP`. libc gives it the value 16 on Linux.
#[verifier::external_body]
fn madv_dontdump() -> (r: i32)
    ensures
        r == 16,
{
    libc::MADV_DONTDUMP
}

/// The constant `libc::MADV_DODUMP`. libc gives it the value 17 on Linux.
#[verifier::external_body]
fn madv_dodump() -> (r: i32)
    ensures
        r == 17,
{
    libc::MADV_DODUMP
}

/// The constant `libc::MADV_FREE`. libc gives it the value 8 on Linux.
#[verifier::external_body]
fn madv_free() -> (r: i32)
    ensures
        r == 8,
{
    libc::MADV_FREE
}

/// What happens to a file in an epoll instance.
#[allow(non_camel_case_types)]
#[derive(Clone, Copy, Debug, PartialEq, Eq, Structural)]
pub enum EpollOp {
    EpollCtlAdd,
    EpollCtlDel,
    EpollCtlMod,
}

impl EpollOp {
    /// The number that the kernel knows this by.
    pub open spec fn number(self) -> i32 {
        match self {
            EpollOp::EpollCtlAdd => 1,
            EpollOp::EpollCtlDel => 2,
            EpollOp::EpollCtlMod => 3,
        }
    }

    /// The constant of libc for this.
    pub fn to_libc(self) -> (r: i32)
        ensures
            r == self.number(),
    {
        match self {
            EpollOp::EpollCtlAdd => epoll_ctl_add(),
            EpollOp::EpollCtlDel => epoll_ctl_del(),
            EpollOp::EpollCtlMod => epoll_ctl_mod(),
        }
    }
}

/// The constant `libc::EPOLL_CTL_ADD`. libc gives it the value 1 on Linux.
#[verifier::external_body]
fn epoll_ctl_add() -> (r: i32)
    ensures
        r == 1,
{
    libc::EPOLL_CTL_ADD
}

/// The constant `libc::EPOLL_CTL_DEL`. libc gives it the value 2 on Linux.
#[verifier::external_body]
fn epoll_ctl_del() -> (r: i32)
    ensures
        r == 2,
{
    libc::EPOLL_CTL_DEL
}

/// The constant `libc::EPOLL_CTL_MOD`. libc gives it the value 3 on Linux.
#[verifier::external_body]
fn epoll_ctl_mod() -> (r: i32)
    ensures
        r == 3,
{
    libc::EPOLL_CTL_MOD
}

} // verus!
