//! The plain values that requests and replies are made of.

use crate::abi::{EBADF, EINVAL, O_CLOEXEC, O_PATH};
use vstd::prelude::*;

verus! {

/// The order in which a machine keeps the bytes of a number.
#[derive(Clone, Copy, Debug, PartialEq, Eq)]
pub enum ByteOrder {
    /// The least significant byte first.
    Little,
    /// The most significant byte first.
    Big,
}

/// What differs between the machines that the host may be.
#[derive(Clone, Copy, Debug, PartialEq, Eq)]
pub struct Machine {
    pub o_directory: i32,
    pub o_nofollow: i32,
    pub order: ByteOrder,
}

impl Machine {
    /// How a file is opened that only stands for a place in the tree.
    #[verifier::allow_in_spec]
    pub fn open_place(self) -> i32
        returns
            O_PATH | self.o_nofollow | O_CLOEXEC,
    {
        O_PATH | self.o_nofollow | O_CLOEXEC
    }
}

pub type Inode = u64;

pub type Handle = u64;

/// A file descriptor of the host.
pub type RawFd = i32;

/// Why a request failed.
#[derive(Clone, Copy, Debug, PartialEq, Eq)]
pub enum FsError {
    /// An error number of the host.
    Os(i32),
    /// A new symbolic link could not be given to its owner, nor be removed again.
    SymlinkRollback { owner: i32, rollback: i32 },
}

impl FsError {
    pub fn from_raw_os_error(code: i32) -> (err: FsError)
        ensures
            err == FsError::Os(code),
    {
        FsError::Os(code)
    }

    pub open spec fn code(self) -> Option<i32> {
        match self {
            FsError::Os(code) => Some(code),
            FsError::SymlinkRollback { .. } => None,
        }
    }

    pub fn raw_os_error(&self) -> (code: Option<i32>)
        ensures
            code == self.code(),
    {
        match self {
            FsError::Os(code) => Some(*code),
            FsError::SymlinkRollback { .. } => None,
        }
    }
}

/// The error for a number that names no inode or handle.
pub fn ebadf() -> (err: FsError)
    ensures
        err == FsError::Os(EBADF),
{
    FsError::from_raw_os_error(EBADF)
}

/// The error for a request that makes no sense.
pub fn einval() -> (err: FsError)
    ensures
        err == FsError::Os(EINVAL),
{
    FsError::from_raw_os_error(EINVAL)
}

/// The attributes of a file, as `stat64` has them.
#[derive(Clone, Copy, Debug, PartialEq, Eq)]
pub struct Stat {
    pub st_dev: u64,
    pub st_ino: u64,
    pub st_nlink: u64,
    pub st_mode: u32,
    pub st_uid: u32,
    pub st_gid: u32,
    pub st_rdev: u64,
    pub st_size: i64,
    pub st_blksize: i64,
    pub st_blocks: i64,
    pub st_atime: i64,
    pub st_atime_nsec: i64,
    pub st_mtime: i64,
    pub st_mtime_nsec: i64,
    pub st_ctime: i64,
    pub st_ctime_nsec: i64,
}

/// Attributes that are all zero.
pub open spec fn zero_stat() -> Stat {
    Stat {
        st_dev: 0,
        st_ino: 0,
        st_nlink: 0,
        st_mode: 0,
        st_uid: 0,
        st_gid: 0,
        st_rdev: 0,
        st_size: 0,
        st_blksize: 0,
        st_blocks: 0,
        st_atime: 0,
        st_atime_nsec: 0,
        st_mtime: 0,
        st_mtime_nsec: 0,
        st_ctime: 0,
        st_ctime_nsec: 0,
    }
}

impl Stat {
    pub fn zeroed() -> (st: Stat)
        ensures
            st == zero_stat(),
    {
        Stat {
            st_dev: 0,
            st_ino: 0,
            st_nlink: 0,
            st_mode: 0,
            st_uid: 0,
            st_gid: 0,
            st_rdev: 0,
            st_size: 0,
            st_blksize: 0,
            st_blocks: 0,
            st_atime: 0,
            st_atime_nsec: 0,
            st_mtime: 0,
            st_mtime_nsec: 0,
            st_ctime: 0,
            st_ctime_nsec: 0,
        }
    }
}

/// A point in time, as `statx` reports it.
#[derive(Clone, Copy, Debug, PartialEq, Eq)]
pub struct StatxTimestamp {
    pub tv_sec: i64,
    pub tv_nsec: u32,
}

/// What `statx` reports of a file.
#[derive(Clone, Copy, Debug, PartialEq, Eq)]
pub struct Statx {
    pub stx_blksize: u32,
    pub stx_nlink: u32,
    pub stx_uid: u32,
    pub stx_gid: u32,
    pub stx_mode: u16,
    pub stx_ino: u64,
    pub stx_size: u64,
    pub stx_blocks: u64,
    pub stx_atime: StatxTimestamp,
    pub stx_ctime: StatxTimestamp,
    pub stx_mtime: StatxTimestamp,
    pub stx_rdev_major: u32,
    pub stx_rdev_minor: u32,
    pub stx_dev_major: u32,
    pub stx_dev_minor: u32,
    pub stx_mnt_id: u64,
}

/// What `statvfs64` reports of a file system.
#[derive(Clone, Copy, Debug, PartialEq, Eq)]
pub struct StatVfs {
    pub f_bsize: u64,
    pub f_frsize: u64,
    pub f_blocks: u64,
    pub f_bfree: u64,
    pub f_bavail: u64,
    pub f_files: u64,
    pub f_ffree: u64,
    pub f_favail: u64,
    pub f_fsid: u64,
    pub f_flag: u64,
    pub f_namemax: u64,
}

/// A time to set, or one of `UTIME_NOW` and `UTIME_OMIT` in `tv_nsec`.
#[derive(Clone, Copy, Debug, PartialEq, Eq)]
pub struct Timespec {
    pub tv_sec: i64,
    pub tv_nsec: i64,
}

/// How long the client may keep what it was told.
#[derive(Clone, Copy, Debug, PartialEq, Eq)]
pub struct Timeout {
    pub secs: u64,
    pub nanos: u32,
}

/// Who makes a request.
#[derive(Clone, Copy, Debug, PartialEq, Eq)]
pub struct Context {
    pub uid: u32,
    pub gid: u32,
    pub pid: i32,
}

/// What a request that creates a file may carry besides its arguments.
#[derive(Debug)]
pub struct Extensions {
    /// The security context of the new file.
    pub secctx: Option<Vec<u8>>,
    /// The supplementary group that lets the caller create the file.
    pub sup_gids: Vec<u32>,
}

/// A directory entry that the client may keep a reference to.
#[derive(Clone, Copy, Debug, PartialEq, Eq)]
pub struct Entry {
    pub inode: Inode,
    pub generation: u64,
    pub attr: Stat,
    pub attr_flags: u32,
    pub attr_timeout: Timeout,
    pub entry_timeout: Timeout,
}

/// The device number that `libc::makedev` composes: the low twelve bits of the major number above
/// the low eight of the minor, the rest of the minor above them, and the rest of the major on top.
pub open spec fn device_number(major: u32, minor: u32) -> u64 {
    ((major as u64 & 0xfff) << 8) | ((major as u64 & 0xfffff000) << 32) | (minor as u64 & 0xff) | ((
    minor as u64 & 0xffffff00) << 12)
}

/// Calls `libc::makedev`. Claimed of it: it returns the device number that the two parts compose,
/// as `device_number` spells out.
#[verifier::external_body]
fn makedev(major: u32, minor: u32) -> (dev: u64)
    ensures
        dev == device_number(major, minor),
{
    libc::makedev(major, minor)
}

/// The attributes in a `statx` report. Sizes and block counts keep their bits.
pub open spec fn stat_of(stx: Statx) -> Stat {
    Stat {
        st_dev: device_number(stx.stx_dev_major, stx.stx_dev_minor),
        st_ino: stx.stx_ino,
        st_nlink: stx.stx_nlink as u64,
        st_mode: stx.stx_mode as u32,
        st_uid: stx.stx_uid,
        st_gid: stx.stx_gid,
        st_rdev: device_number(stx.stx_rdev_major, stx.stx_rdev_minor),
        st_size: stx.stx_size as i64,
        st_blksize: stx.stx_blksize as i64,
        st_blocks: stx.stx_blocks as i64,
        st_atime: stx.stx_atime.tv_sec,
        st_atime_nsec: stx.stx_atime.tv_nsec as i64,
        st_mtime: stx.stx_mtime.tv_sec,
        st_mtime_nsec: stx.stx_mtime.tv_nsec as i64,
        st_ctime: stx.stx_ctime.tv_sec,
        st_ctime_nsec: stx.stx_ctime.tv_nsec as i64,
    }
}

/// Takes a `statx` report apart into the attributes and the mount that the file is on.
pub fn statx(stx: &Statx) -> (parts: (Stat, u64))
    ensures
        parts.0 == stat_of(*stx),
        parts.1 == stx.stx_mnt_id,
{
    let st = Stat {
        st_dev: makedev(stx.stx_dev_major, stx.stx_dev_minor),
        st_ino: stx.stx_ino,
        st_nlink: stx.stx_nlink as u64,
        st_mode: stx.stx_mode as u32,
        st_uid: stx.stx_uid,
        st_gid: stx.stx_gid,
        st_rdev: makedev(stx.stx_rdev_major, stx.stx_rdev_minor),
        st_size: #[verifier::truncate]
        (stx.stx_size as i64),
        st_blksize: stx.stx_blksize as i64,
        st_blocks: #[verifier::truncate]
        (stx.stx_blocks as i64),
        st_atime: stx.stx_atime.tv_sec,
        st_atime_nsec: stx.stx_atime.tv_nsec as i64,
        st_mtime: stx.stx_mtime.tv_sec,
        st_mtime_nsec: stx.stx_mtime.tv_nsec as i64,
        st_ctime: stx.stx_ctime.tv_sec,
        st_ctime_nsec: stx.stx_ctime.tv_nsec as i64,
    };
    (st, stx.stx_mnt_id)
}

/// Only an error of the host has a number, and it is that of the host.
pub proof fn law_only_host_errors_have_numbers(code: i32, owner: i32, rollback: i32)
    ensures
        FsError::Os(code).code() == Some(code),
        (FsError::SymlinkRollback { owner, rollback }).code() is None,
{
}

} // verus!
