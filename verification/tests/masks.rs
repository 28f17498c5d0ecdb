use iou::{FsyncFlags, SpliceFlags, StatxFlags, StatxMode, TimeoutFlags};

#[test]
fn statx_flags_are_those_of_the_platform() {
    assert_eq!(StatxFlags::AT_STATX_SYNC_AS_STAT().bits(), libc::AT_STATX_SYNC_AS_STAT);
    assert_eq!(StatxFlags::AT_NO_AUTOMOUNT().bits(), 1 << 11);
    assert_eq!(StatxFlags::AT_NO_AUTOMOUNT().bits(), libc::AT_NO_AUTOMOUNT);
    assert_eq!(StatxFlags::AT_EMPTY_PATH().bits(), libc::AT_EMPTY_PATH);
    assert_eq!(StatxFlags::AT_STATX_FORCE_SYNC().bits(), libc::AT_STATX_FORCE_SYNC);
    assert_eq!(StatxFlags::AT_STATX_DONT_SYNC().bits(), libc::AT_STATX_DONT_SYNC);
    assert_eq!(StatxFlags::AT_SYMLINK_NOFOLLOW().bits(), 1 << 10);
}

#[test]
fn statx_mode_bits() {
    let modes = [
        StatxMode::STATX_TYPE(),
        StatxMode::STATX_MODE(),
        StatxMode::STATX_NLINK(),
        StatxMode::STATX_UID(),
        StatxMode::STATX_GID(),
        StatxMode::STATX_ATIME(),
        StatxMode::STATX_MTIME(),
        StatxMode::STATX_CTIME(),
        StatxMode::STATX_INO(),
        StatxMode::STATX_SIZE(),
        StatxMode::STATX_BLOCKS(),
        StatxMode::STATX_BTIME(),
    ];
    let mut all = StatxMode::empty();
    for (i, mode) in modes.iter().enumerate() {
        assert_eq!(mode.bits(), 1 << i);
        assert!(!all.contains(*mode));
        all = all.union(*mode);
        assert!(all.contains(*mode));
    }
    assert_eq!(all, StatxMode::from_bits_retain(0xfff));
}

#[test]
fn single_flags() {
    assert_eq!(FsyncFlags::FSYNC_DATASYNC().bits(), 1);
    assert_eq!(TimeoutFlags::TIMEOUT_ABS().bits(), 1);
    assert_eq!(SpliceFlags::F_FD_IN_FIXED().bits(), 1 << 31);
    assert_eq!(SpliceFlags::empty().bits(), 0);
}
