//! The numbers of the host and of the protocol, and what the kernel says of capabilities.

use caps::errors::CapsError;
use caps::{CapSet, Capability};
use nix::sys::ioctl::{NONE, NRSHIFT, READ, DIRSHIFT, SIZESHIFT, TYPESHIFT};
use passthrough_fs::abi;
use passthrough_fs::capability::{
    ask_host, drop_effective_cap, tell, Changed, EffectiveCap, Held, ScopedCaps,
};
use passthrough_fs::fs::{FIRST_HANDLE, FIRST_INODE, INIT_HANDLE, INIT_INODE};
use passthrough_fs::model::{ByteOrder, FsError, Machine};
use passthrough_fs::step::{HostCap, Reply};

#[test]
fn numbers_are_those_of_the_host() {
    for (ours, theirs) in [
        (abi::EPERM, libc::EPERM),
        (abi::EBADF, libc::EBADF),
        (abi::EACCES, libc::EACCES),
        (abi::EINVAL, libc::EINVAL),
        (abi::ERANGE, libc::ERANGE),
        (abi::ENOSYS, libc::ENOSYS),
        (abi::ELOOP, libc::ELOOP),
        (abi::ENODATA, libc::ENODATA),
        (abi::ENOTSUP, libc::ENOTSUP),
        (abi::EOPNOTSUPP, libc::EOPNOTSUPP),
        (abi::F_OK, libc::F_OK),
        (abi::X_OK, libc::X_OK),
        (abi::W_OK, libc::W_OK),
        (abi::R_OK, libc::R_OK),
        (abi::O_RDONLY, libc::O_RDONLY),
        (abi::O_WRONLY, libc::O_WRONLY),
        (abi::O_RDWR, libc::O_RDWR),
        (abi::O_ACCMODE, libc::O_ACCMODE),
        (abi::O_CREAT, libc::O_CREAT),
        (abi::O_APPEND, libc::O_APPEND),
        (abi::O_NONBLOCK, libc::O_NONBLOCK),
        (abi::O_NOATIME, libc::O_NOATIME),
        (abi::O_CLOEXEC, libc::O_CLOEXEC),
        (abi::O_PATH, libc::O_PATH),
        (abi::AT_SYMLINK_NOFOLLOW, libc::AT_SYMLINK_NOFOLLOW),
        (abi::AT_REMOVEDIR, libc::AT_REMOVEDIR),
        (abi::AT_SYMLINK_FOLLOW, libc::AT_SYMLINK_FOLLOW),
        (abi::AT_EMPTY_PATH, libc::AT_EMPTY_PATH),
        (abi::AT_ITSELF, libc::AT_EMPTY_PATH | libc::AT_SYMLINK_NOFOLLOW),
        (abi::PROT_NONE, libc::PROT_NONE),
        (abi::PROT_READ, libc::PROT_READ),
        (abi::PROT_WRITE, libc::PROT_WRITE),
        (abi::MAP_SHARED, libc::MAP_SHARED),
        (abi::MAP_PRIVATE, libc::MAP_PRIVATE),
        (abi::MAP_FIXED, libc::MAP_FIXED),
        (abi::MAP_ANONYMOUS, libc::MAP_ANONYMOUS),
        (abi::NO_FD, -1),
    ] {
        assert_eq!(ours, theirs);
    }
    for (ours, theirs) in [
        (abi::S_IFMT, libc::S_IFMT),
        (abi::S_IFDIR, libc::S_IFDIR),
        (abi::S_IFREG, libc::S_IFREG),
        (abi::S_IFLNK, libc::S_IFLNK),
        (abi::S_ISUID, libc::S_ISUID),
        (abi::S_ISGID, libc::S_ISGID),
        (abi::STATX_BASIC_STATS, libc::STATX_BASIC_STATS),
        (abi::STATX_MNT_ID, libc::STATX_MNT_ID),
        (abi::STATX_MASK, libc::STATX_BASIC_STATS | libc::STATX_MNT_ID),
    ] {
        assert_eq!(ours, theirs);
    }
    assert_eq!(abi::UTIME_NOW, libc::UTIME_NOW);
    assert_eq!(abi::UTIME_OMIT, libc::UTIME_OMIT);
    assert_eq!(abi::PATH_MAX, libc::PATH_MAX as usize);
}

#[test]
fn the_machine_decides_how_a_place_is_opened() {
    for (o_nofollow, place) in [(0o400000, 0o12400000), (0o100000, 0o12100000)] {
        let machine = Machine { o_directory: 0o200000, o_nofollow, order: ByteOrder::Little };
        assert_eq!(machine.open_place(), place);
    }
}

#[test]
fn ioctl_numbers_are_composed_as_the_kernel_does() {
    let code = |dir: u32, nr: u32, size: u32| {
        (dir << DIRSHIFT as u32)
            | (size << SIZESHIFT as u32)
            | ((b'v' as u32) << TYPESHIFT as u32)
            | (nr << NRSHIFT as u32)
    };
    assert_eq!(abi::IOC_EXPORT_FD, code(READ as u32, 1, 16));
    assert_eq!(abi::IOC_EXIT_CODE, code(NONE as u32, 2, 0));
    assert_eq!(abi::IOC_REMOVE_ROOT_DIR, code(NONE as u32, 3, 0));
    assert_eq!(abi::EXPORT_FD_SIZE as usize, 2 * std::mem::size_of::<u64>());
}

#[test]
fn reserved_numbers_lie_below_the_first_ones() {
    assert_eq!(abi::ROOT_ID, 1);
    assert_eq!(INIT_INODE, abi::ROOT_ID + 1);
    assert_eq!(FIRST_INODE, abi::ROOT_ID + 2);
    assert_eq!(INIT_HANDLE, 0);
    assert_eq!(FIRST_HANDLE, 1);
}

#[test]
fn a_capability_is_dropped_and_restored() {
    let cap = Capability::CAP_FSETID;
    let held = caps::has_cap(None, CapSet::Effective, cap).unwrap();
    let guard = drop_effective_cap(cap).unwrap();
    assert_eq!(guard.is_some(), held);
    assert_eq!(caps::has_cap(None, CapSet::Effective, cap).ok(), Some(false));
    assert!(drop_effective_cap(cap).unwrap().is_none());
    if let Some(guard) = guard {
        guard.restore().unwrap();
        assert_eq!(caps::has_cap(None, CapSet::Effective, cap).ok(), Some(true));
    }
}

#[test]
fn a_capability_comes_back_when_its_guard_is_let_go() {
    let cap = Capability::CAP_FSETID;
    let held = caps::has_cap(None, CapSet::Effective, cap).unwrap();
    {
        let _guard = drop_effective_cap(cap).unwrap();
        assert_eq!(caps::has_cap(None, CapSet::Effective, cap).ok(), Some(false));
    }
    assert_eq!(caps::has_cap(None, CapSet::Effective, cap).ok(), Some(held));
}

#[test]
fn a_capability_is_restored_once() {
    let cap = Capability::CAP_FSETID;
    if let Some(guard) = drop_effective_cap(cap).unwrap() {
        guard.restore().unwrap();
        caps::drop(None, CapSet::Effective, cap).unwrap();
        let again = drop_effective_cap(cap).unwrap();
        assert!(again.is_none());
        assert_eq!(caps::has_cap(None, CapSet::Effective, cap).ok(), Some(false));
        caps::raise(None, CapSet::Effective, cap).unwrap();
    }
}

fn held(asked: EffectiveCap, said: Result<bool, CapsError>) -> Held {
    Held { asked, said }
}

fn broken() -> CapsError {
    CapsError::from("broken")
}

#[test]
fn the_guard_follows_what_the_kernel_said() {
    let cap = Capability::CAP_FSETID;
    let asked = |said| held(EffectiveCap::Other(cap), said);
    let dropped = |said| Some(Changed { cap, said });
    assert!(matches!(ScopedCaps::from_answers(cap, asked(Ok(true)), dropped(Ok(()))), Ok(Some(_))));
    assert!(matches!(ScopedCaps::from_answers(cap, asked(Ok(false)), None), Ok(None)));
    assert!(matches!(
        ScopedCaps::from_answers(cap, asked(Err(broken())), None),
        Err(FsError::Os(libc::EINVAL))
    ));
    assert!(matches!(
        ScopedCaps::from_answers(cap, asked(Ok(true)), dropped(Err(broken()))),
        Err(FsError::Os(libc::EINVAL))
    ));
}

#[test]
fn a_capability_that_cannot_be_restored_is_told() {
    let cap = Capability::CAP_FSETID;
    assert!(ScopedCaps::restored(Changed { cap, said: Ok(()) }).is_ok());
    let err = ScopedCaps::restored(Changed { cap, said: Err(broken()) }).unwrap_err();
    assert_eq!(err.cap, cap);
    assert_eq!(format!("{}", err.error), format!("{}", broken()));
}

#[test]
fn a_capability_that_cannot_be_asked_for_counts_as_missing() {
    for cap in [HostCap::Setuid, HostCap::Setgid, HostCap::Fowner] {
        let told = |said| tell(held(EffectiveCap::Host(cap), said));
        assert!(matches!(told(Ok(true)), Reply::Held(true)));
        assert!(matches!(told(Ok(false)), Reply::Held(false)));
        assert!(matches!(told(Err(broken())), Reply::Held(false)));
    }
}

#[test]
fn the_host_is_asked_for_the_capability_that_is_meant() {
    for (cap, theirs) in [
        (HostCap::Setuid, Capability::CAP_SETUID),
        (HostCap::Setgid, Capability::CAP_SETGID),
        (HostCap::Fowner, Capability::CAP_FOWNER),
    ] {
        let held = caps::has_cap(None, CapSet::Effective, theirs).unwrap();
        assert!(matches!(ask_host(cap), Reply::Held(told) if told == held));
        if let Some(guard) = drop_effective_cap(theirs).unwrap() {
            assert!(matches!(ask_host(cap), Reply::Held(false)));
            guard.restore().unwrap();
        }
        assert!(matches!(ask_host(cap), Reply::Held(told) if told == held));
    }
}
