//! Numbers fixed by the host kernel and by the FUSE protocol. Those of the kernel are the same on the
//! x86-64, AArch64 and RISC-V machines that run Linux; what differs between them is in `Machine`.

use vstd::prelude::*;

verus! {

// Error numbers.
pub const EPERM: i32 = 1;
pub const EBADF: i32 = 9;
pub const EACCES: i32 = 13;
pub const EINVAL: i32 = 22;
pub const ERANGE: i32 = 34;
pub const ENOSYS: i32 = 38;
pub const ELOOP: i32 = 40;
pub const ENODATA: i32 = 61;
pub const ENOTSUP: i32 = 95;
pub const EOPNOTSUPP: i32 = 95;

// File modes.
pub const S_IFMT: u32 = 0o170000;
pub const S_IFDIR: u32 = 0o040000;
pub const S_IFREG: u32 = 0o100000;
pub const S_IFLNK: u32 = 0o120000;
pub const S_ISUID: u32 = 0o4000;
pub const S_ISGID: u32 = 0o2000;

// Access masks.
pub const F_OK: i32 = 0;
pub const X_OK: i32 = 1;
pub const W_OK: i32 = 2;
pub const R_OK: i32 = 4;

// Flags of open.
pub const O_RDONLY: i32 = 0;
pub const O_WRONLY: i32 = 1;
pub const O_RDWR: i32 = 2;
pub const O_ACCMODE: i32 = 3;
pub const O_CREAT: i32 = 0o100;
pub const O_APPEND: i32 = 0o2000;
pub const O_NONBLOCK: i32 = 0o4000;
pub const O_NOATIME: i32 = 0o1000000;
pub const O_CLOEXEC: i32 = 0o2000000;
pub const O_PATH: i32 = 0o10000000;

// Flags of the `*at` calls.
pub const AT_SYMLINK_NOFOLLOW: i32 = 0x100;
pub const AT_REMOVEDIR: i32 = 0x200;
pub const AT_SYMLINK_FOLLOW: i32 = 0x400;
pub const AT_EMPTY_PATH: i32 = 0x1000;
/// The file itself, not what it points to: `AT_EMPTY_PATH | AT_SYMLINK_NOFOLLOW`.
pub const AT_ITSELF: i32 = 0x1100;

pub const STATX_BASIC_STATS: u32 = 0x7ff;
pub const STATX_MNT_ID: u32 = 0x1000;
/// `STATX_BASIC_STATS | STATX_MNT_ID`.
pub const STATX_MASK: u32 = 0x17ff;

pub const UTIME_NOW: i64 = 0x3fffffff;
pub const UTIME_OMIT: i64 = 0x3ffffffe;

pub const PATH_MAX: usize = 4096;

pub const PROT_NONE: i32 = 0;
pub const PROT_READ: i32 = 1;
pub const PROT_WRITE: i32 = 2;
pub const MAP_SHARED: i32 = 0x01;
pub const MAP_PRIVATE: i32 = 0x02;
pub const MAP_FIXED: i32 = 0x10;
pub const MAP_ANONYMOUS: i32 = 0x20;
/// Stands for no file where fresh memory is mapped.
pub const NO_FD: i32 = -1;

// The FUSE protocol.
/// The inode number of the root directory.
pub const ROOT_ID: u64 = 1;
/// The directory entry is a mount point.
pub const ATTR_SUBMOUNT: u32 = 1;

// What a client and a server agree on when the file system is mounted.
pub const FS_DO_READDIRPLUS: u64 = 0x2000;
pub const FS_READDIRPLUS_AUTO: u64 = 0x4000;
pub const FS_WRITEBACK_CACHE: u64 = 0x10000;
pub const FS_SUBMOUNTS: u64 = 0x8000000;
pub const FS_CREATE_SUPP_GROUP: u64 = 0x400000000;

// What the reply to an open tells the client.
pub const OPEN_DIRECT_IO: u32 = 1;
pub const OPEN_KEEP_CACHE: u32 = 2;
pub const OPEN_CACHE_DIR: u32 = 8;

// Which attributes a setattr request sets.
pub const SET_MODE: u32 = 1;
pub const SET_UID: u32 = 2;
pub const SET_GID: u32 = 4;
pub const SET_SIZE: u32 = 8;
pub const SET_ATIME: u32 = 0x10;
pub const SET_MTIME: u32 = 0x20;
pub const SET_ATIME_NOW: u32 = 0x80;
pub const SET_MTIME_NOW: u32 = 0x100;

/// The mapping may be written to.
pub const SETUPMAPPING_WRITE: u64 = 1;

// The ioctl requests of the guest, of type `v`.
/// Reads sixteen bytes, number 1.
pub const IOC_EXPORT_FD: u32 = 0x80107601;
/// Moves no data, number 2.
pub const IOC_EXIT_CODE: u32 = 0x7602;
/// Moves no data, number 3.
pub const IOC_REMOVE_ROOT_DIR: u32 = 0x7603;
/// The size of the answer to an export request.
pub const EXPORT_FD_SIZE: u32 = 16;

} // verus!
