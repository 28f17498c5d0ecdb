//! Sets of flags, each held as the bits that the kernel reads.
use crate::uring_sys::{
    IOSQE_ASYNC, IOSQE_BUFFER_SELECT, IOSQE_FIXED_FILE, IOSQE_IO_DRAIN, IOSQE_IO_HARDLINK,
    IOSQE_IO_LINK,
};
use vstd::prelude::*;

verus! {

/// How the queue treats an entry.
#[derive(Clone, Copy, Debug, PartialEq, Eq, Structural)]
pub struct SubmissionFlags {
    pub bits: u8,
}

#[allow(non_snake_case)]
impl SubmissionFlags {
    /// The entry's file descriptor is an index into the registered files.
    pub fn FIXED_FILE() -> (r: SubmissionFlags)
        ensures
            r.bits == IOSQE_FIXED_FILE,
        opens_invariants none
        no_unwind
    {
        SubmissionFlags { bits: IOSQE_FIXED_FILE }
    }

    /// Starts the event only after all events in flight have completed.
    pub fn IO_DRAIN() -> (r: SubmissionFlags)
        ensures
            r.bits == IOSQE_IO_DRAIN,
        opens_invariants none
        no_unwind
    {
        SubmissionFlags { bits: IOSQE_IO_DRAIN }
    }

    /// Makes the next event wait until this one has completed successfully.
    ///
    /// A link reaches to the next event only, but chains of links can be of any length.
    pub fn IO_LINK() -> (r: SubmissionFlags)
        ensures
            r.bits == IOSQE_IO_LINK,
        opens_invariants none
        no_unwind
    {
        SubmissionFlags { bits: IOSQE_IO_LINK }
    }

    /// Makes the next event wait until this one has completed, successfully or not.
    pub fn IO_HARDLINK() -> (r: SubmissionFlags)
        ensures
            r.bits == IOSQE_IO_HARDLINK,
        opens_invariants none
        no_unwind
    {
        SubmissionFlags { bits: IOSQE_IO_HARDLINK }
    }

    /// Starts the event asynchronously in any case.
    pub fn ASYNC() -> (r: SubmissionFlags)
        ensures
            r.bits == IOSQE_ASYNC,
        opens_invariants none
        no_unwind
    {
        SubmissionFlags { bits: IOSQE_ASYNC }
    }

    /// Takes the buffer from the entry's buffer group.
    pub fn BUFFER_SELECT() -> (r: SubmissionFlags)
        ensures
            r.bits == IOSQE_BUFFER_SELECT,
        opens_invariants none
        no_unwind
    {
        SubmissionFlags { bits: IOSQE_BUFFER_SELECT }
    }

    pub fn empty() -> (r: SubmissionFlags)
        ensures
            r.bits == 0,
    {
        SubmissionFlags { bits: 0 }
    }

    pub fn bits(&self) -> (r: u8)
        ensures
            r == self.bits,
        opens_invariants none
        no_unwind
    {
        self.bits
    }

    /// The set with exactly these bits, those that no flag has a name for included.
    pub fn from_bits_retain(bits: u8) -> (r: SubmissionFlags)
        ensures
            r.bits == bits,
    {
        SubmissionFlags { bits }
    }

    /// Whether every flag of `other` is in this set.
    pub fn contains(&self, other: SubmissionFlags) -> (r: bool)
        ensures
            r == (self.bits & other.bits == other.bits),
    {
        self.bits & other.bits == other.bits
    }

    /// The flags that are in either set.
    pub fn union(self, other: SubmissionFlags) -> (r: SubmissionFlags)
        ensures
            r.bits == self.bits | other.bits,
    {
        SubmissionFlags { bits: self.bits | other.bits }
    }
}

/// What an `fsync` brings to disk.
#[derive(Clone, Copy, Debug, PartialEq, Eq, Structural)]
pub struct FsyncFlags {
    pub bits: u32,
}

#[allow(non_snake_case)]
impl FsyncFlags {
    /// Brings the file's data to disk without its metadata.
    pub fn FSYNC_DATASYNC() -> (r: FsyncFlags)
        ensures
            r.bits == 0x1,
    {
        FsyncFlags { bits: 0x1 }
    }

    pub fn empty() -> (r: FsyncFlags)
        ensures
            r.bits == 0,
    {
        FsyncFlags { bits: 0 }
    }

    pub fn bits(&self) -> (r: u32)
        ensures
            r == self.bits,
    {
        self.bits
    }

    /// The set with exactly these bits, those that no flag has a name for included.
    pub fn from_bits_retain(bits: u32) -> (r: FsyncFlags)
        ensures
            r.bits == bits,
    {
        FsyncFlags { bits }
    }

    /// Whether every flag of `other` is in this set.
    pub fn contains(&self, other: FsyncFlags) -> (r: bool)
        ensures
            r == (self.bits & other.bits == other.bits),
    {
        self.bits & other.bits == other.bits
    }

    /// The flags that are in either set.
    pub fn union(self, other: FsyncFlags) -> (r: FsyncFlags)
        ensures
            r.bits == self.bits | other.bits,
    {
        FsyncFlags { bits: self.bits | other.bits }
    }
}

/// How a `statx` looks its path up.
#[derive(Clone, Copy, Debug, PartialEq, Eq, Structural)]
pub struct StatxFlags {
    pub bits: i32,
}

#[allow(non_snake_case)]
impl StatxFlags {
    /// Does what `stat` does. No bit stands for this.
    pub fn AT_STATX_SYNC_AS_STAT() -> (r: StatxFlags)
        ensures
            r.bits == 0,
    {
        StatxFlags { bits: 0 }
    }

    pub fn AT_SYMLINK_NOFOLLOW() -> (r: StatxFlags)
        ensures
            r.bits == 0x400,
    {
        StatxFlags { bits: 0x400 }
    }

    pub fn AT_NO_AUTOMOUNT() -> (r: StatxFlags)
        ensures
            r.bits == 0x800,
    {
        StatxFlags { bits: 0x800 }
    }

    pub fn AT_EMPTY_PATH() -> (r: StatxFlags)
        ensures
            r.bits == 0x1000,
    {
        StatxFlags { bits: 0x1000 }
    }

    pub fn AT_STATX_FORCE_SYNC() -> (r: StatxFlags)
        ensures
            r.bits == 0x2000,
    {
        StatxFlags { bits: 0x2000 }
    }

    pub fn AT_STATX_DONT_SYNC() -> (r: StatxFlags)
        ensures
            r.bits == 0x4000,
    {
        StatxFlags { bits: 0x4000 }
    }

    pub fn empty() -> (r: StatxFlags)
        ensures
            r.bits == 0,
    {
        StatxFlags { bits: 0 }
    }

    pub fn bits(&self) -> (r: i32)
        ensures
            r == self.bits,
    {
        self.bits
    }

    /// The set with exactly these bits, those that no flag has a name for included.
    pub fn from_bits_retain(bits: i32) -> (r: StatxFlags)
        ensures
            r.bits == bits,
    {
        StatxFlags { bits }
    }

    /// Whether every flag of `other` is in this set.
    pub fn contains(&self, other: StatxFlags) -> (r: bool)
        ensures
            r == (self.bits & other.bits == other.bits),
    {
        self.bits & other.bits == other.bits
    }

    /// The flags that are in either set.
    pub fn union(self, other: StatxFlags) -> (r: StatxFlags)
        ensures
            r.bits == self.bits | other.bits,
    {
        StatxFlags { bits: self.bits | other.bits }
    }
}

/// Which fields a `statx` is to fill in.
#[derive(Clone, Copy, Debug, PartialEq, Eq, Structural)]
pub struct StatxMode {
    pub bits: i32,
}

#[allow(non_snake_case)]
impl StatxMode {
    pub fn STATX_TYPE() -> (r: StatxMode)
        ensures
            r.bits == 0x1,
    {
        StatxMode { bits: 0x1 }
    }

    pub fn STATX_MODE() -> (r: StatxMode)
        ensures
            r.bits == 0x2,
    {
        StatxMode { bits: 0x2 }
    }

    pub fn STATX_NLINK() -> (r: StatxMode)
        ensures
            r.bits == 0x4,
    {
        StatxMode { bits: 0x4 }
    }

    pub fn STATX_UID() -> (r: StatxMode)
        ensures
            r.bits == 0x8,
    {
        StatxMode { bits: 0x8 }
    }

    pub fn STATX_GID() -> (r: StatxMode)
        ensures
            r.bits == 0x10,
    {
        StatxMode { bits: 0x10 }
    }

    pub fn STATX_ATIME() -> (r: StatxMode)
        ensures
            r.bits == 0x20,
    {
        StatxMode { bits: 0x20 }
    }

    pub fn STATX_MTIME() -> (r: StatxMode)
        ensures
            r.bits == 0x40,
    {
        StatxMode { bits: 0x40 }
    }

    pub fn STATX_CTIME() -> (r: StatxMode)
        ensures
            r.bits == 0x80,
    {
        StatxMode { bits: 0x80 }
    }

    pub fn STATX_INO() -> (r: StatxMode)
        ensures
            r.bits == 0x100,
    {
        StatxMode { bits: 0x100 }
    }

    pub fn STATX_SIZE() -> (r: StatxMode)
        ensures
            r.bits == 0x200,
    {
        StatxMode { bits: 0x200 }
    }

    pub fn STATX_BLOCKS() -> (r: StatxMode)
        ensures
            r.bits == 0x400,
    {
        StatxMode { bits: 0x400 }
    }

    pub fn STATX_BTIME() -> (r: StatxMode)
        ensures
            r.bits == 0x800,
    {
        StatxMode { bits: 0x800 }
    }

    pub fn empty() -> (r: StatxMode)
        ensures
            r.bits == 0,
    {
        StatxMode { bits: 0 }
    }

    pub fn bits(&self) -> (r: i32)
        ensures
            r == self.bits,
    {
        self.bits
    }

    /// The set with exactly these bits, those that no flag has a name for included.
    pub fn from_bits_retain(bits: i32) -> (r: StatxMode)
        ensures
            r.bits == bits,
    {
        StatxMode { bits }
    }

    /// Whether every flag of `other` is in this set.
    pub fn contains(&self, other: StatxMode) -> (r: bool)
        ensures
            r == (self.bits & other.bits == other.bits),
    {
        self.bits & other.bits == other.bits
    }

    /// The flags that are in either set.
    pub fn union(self, other: StatxMode) -> (r: StatxMode)
        ensures
            r.bits == self.bits | other.bits,
    {
        StatxMode { bits: self.bits | other.bits }
    }
}

/// How a timeout reads its time.
#[derive(Clone, Copy, Debug, PartialEq, Eq, Structural)]
pub struct TimeoutFlags {
    pub bits: u32,
}

#[allow(non_snake_case)]
impl TimeoutFlags {
    /// The time is a point in time, not an interval.
    pub fn TIMEOUT_ABS() -> (r: TimeoutFlags)
        ensures
            r.bits == 0x1,
    {
        TimeoutFlags { bits: 0x1 }
    }

    pub fn empty() -> (r: TimeoutFlags)
        ensures
            r.bits == 0,
    {
        TimeoutFlags { bits: 0 }
    }

    pub fn bits(&self) -> (r: u32)
        ensures
            r == self.bits,
    {
        self.bits
    }

    /// The set with exactly these bits, those that no flag has a name for included.
    pub fn from_bits_retain(bits: u32) -> (r: TimeoutFlags)
        ensures
            r.bits == bits,
    {
        TimeoutFlags { bits }
    }

    /// Whether every flag of `other` is in this set.
    pub fn contains(&self, other: TimeoutFlags) -> (r: bool)
        ensures
            r == (self.bits & other.bits == other.bits),
    {
        self.bits & other.bits == other.bits
    }

    /// The flags that are in either set.
    pub fn union(self, other: TimeoutFlags) -> (r: TimeoutFlags)
        ensures
            r.bits == self.bits | other.bits,
    {
        TimeoutFlags { bits: self.bits | other.bits }
    }
}

/// How a splice reads its file descriptors.
#[derive(Clone, Copy, Debug, PartialEq, Eq, Structural)]
pub struct SpliceFlags {
    pub bits: u32,
}

#[allow(non_snake_case)]
impl SpliceFlags {
    /// The input is an index into the registered files.
    pub fn F_FD_IN_FIXED() -> (r: SpliceFlags)
        ensures
            r.bits == 0x8000_0000,
    {
        SpliceFlags { bits: 0x8000_0000 }
    }

    pub fn empty() -> (r: SpliceFlags)
        ensures
            r.bits == 0,
    {
        SpliceFlags { bits: 0 }
    }

    pub fn bits(&self) -> (r: u32)
        ensures
            r == self.bits,
    {
        self.bits
    }

    /// The set with exactly these bits, those that no flag has a name for included.
    pub fn from_bits_retain(bits: u32) -> (r: SpliceFlags)
        ensures
            r.bits == bits,
    {
        SpliceFlags { bits }
    }

    /// Whether every flag of `other` is in this set.
    pub fn contains(&self, other: SpliceFlags) -> (r: bool)
        ensures
            r == (self.bits & other.bits == other.bits),
    {
        self.bits & other.bits == other.bits
    }

    /// The flags that are in either set.
    pub fn union(self, other: SpliceFlags) -> (r: SpliceFlags)
        ensures
            r.bits == self.bits | other.bits,
    {
        SpliceFlags { bits: self.bits | other.bits }
    }
}

} // verus!
