//! Preparing submissions to an io_uring: the entries of the submission queue, the requests that
//! they describe, and the batches in which a ring hands them out.
pub mod args;
pub mod flags;
pub mod laws;
pub mod registrar;
pub mod request_laws;
pub mod sqe;
pub mod sqes;
pub mod uring_sys;

pub use flags::{FsyncFlags, SpliceFlags, StatxFlags, StatxMode, SubmissionFlags, TimeoutFlags};
pub use registrar::{RegisteredBuf, RegisteredFd, UringFd, UringReadBuf, UringWriteBuf};
pub use sqe::{BufferGroupId, Personality, SockAddrStorage, SQE};
pub use sqes::{HardLinked, HardLinkedSQE, SQEs, SoftLinked, SoftLinkedSQE};
