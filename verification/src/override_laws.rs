//! Which file the work on an override is about, and what of the host's attributes the guest sees.

use crate::abi::{AT_ITSELF, EBADF, ENODATA, ENOTSUP, EOPNOTSUPP, S_IFLNK, S_IFMT};
use crate::metadata::{HasOverride, ReadOverride, StatFile, WriteOverride};
use crate::model::{FsError, RawFd, Stat};
use crate::override_stat::{
    merged, override_of_text, seen, OverrideStat, OVERRIDE_SIZE, UID_MAX,
};
use crate::step::{Reply, Step, Syscall, XattrName, XattrTarget, XattrValue};
use vstd::prelude::*;

verus! {

/// Whether a call asks for something of the file `fd`, or of its override, and changes nothing.
pub open spec fn asks_about(call: Syscall, fd: RawFd) -> bool {
    match call {
        Syscall::FstatAt { fd: of, flags } => of == fd && flags == AT_ITSELF,
        Syscall::GetXattr { target, name, .. } => name == XattrName::Override && (target
            == XattrTarget::Fd(fd) || target == XattrTarget::Follow(fd)),
        _ => false,
    }
}

/// Whether a call stores `value` as the override of the file `fd`.
pub open spec fn stores_override(call: Syscall, fd: RawFd, value: OverrideStat) -> bool {
    call matches Syscall::SetXattr { target, name, value: stored, flags } && (target
        == XattrTarget::Fd(fd) || target == XattrTarget::Follow(fd)) && name == XattrName::Override
        && stored == XattrValue::Override(value) && flags == 0
}

impl ReadOverride {
    /// Whether this is about the file `fd`.
    pub open spec fn is_of(self, fd: RawFd) -> bool {
        match self {
            ReadOverride::Kind { fd: own } => own == fd,
            ReadOverride::ByFd { fd: own } => own == fd,
            ReadOverride::ByPath { fd: own } => own == fd,
        }
    }
}

impl HasOverride {
    /// Whether this is about the file `fd`.
    pub open spec fn is_of(self, fd: RawFd) -> bool {
        match self {
            HasOverride::Kind { fd: own } => own == fd,
            HasOverride::ByFd { fd: own } => own == fd,
            HasOverride::ByPath { fd: own } => own == fd,
        }
    }
}

impl WriteOverride {
    /// Whether this is about the file `fd`.
    pub open spec fn is_of(self, fd: RawFd) -> bool {
        match self {
            WriteOverride::Kind { fd: own, .. } => own == fd,
            WriteOverride::Before { fd: own, read, .. } => own == fd && read.is_of(fd),
            WriteOverride::ByFd { fd: own, .. } => own == fd,
            WriteOverride::ByPath { fd: own, .. } => own == fd,
        }
    }
}

impl StatFile {
    /// Whether this is about the file `fd`.
    pub open spec fn is_of(self, fd: RawFd) -> bool {
        match self {
            StatFile::Host { fd: own, .. } => own == fd,
            StatFile::Override { read, .. } => read.is_of(fd),
        }
    }
}

/// The attributes that the guest sees agree with the host's in all but the owner and the mode, for
/// every override and whoever this process is: an override touches nothing else.
pub proof fn law_override_touches_only_owner_and_mode(
    st: Stat,
    over: OverrideStat,
    host_uid: Option<u32>,
    host_gid: Option<u32>,
)
    ensures
        ({
            let got = seen(st, over, host_uid, host_gid);
            &&& got.st_dev == st.st_dev
            &&& got.st_ino == st.st_ino
            &&& got.st_nlink == st.st_nlink
            &&& got.st_rdev == st.st_rdev
            &&& got.st_size == st.st_size
            &&& got.st_blksize == st.st_blksize
            &&& got.st_blocks == st.st_blocks
            &&& got.st_atime == st.st_atime
            &&& got.st_atime_nsec == st.st_atime_nsec
            &&& got.st_mtime == st.st_mtime
            &&& got.st_mtime_nsec == st.st_mtime_nsec
            &&& got.st_ctime == st.st_ctime
            &&& got.st_ctime_nsec == st.st_ctime_nsec
        }),
{
}

/// Each of the three that an override names is seen as it names it, whatever the host says and
/// whoever this process is; none of the three has a part in another. A mode without a type is seen
/// with the type that the host gives the file, and with no other bit of the host's. What an override
/// leaves out is the host's, the user and the group of this process being root's.
pub proof fn law_override_is_seen(
    st: Stat,
    over: OverrideStat,
    host_uid: Option<u32>,
    host_gid: Option<u32>,
)
    ensures
        ({
            let got = seen(st, over, host_uid, host_gid);
            &&& over.0 matches Some(uid) ==> got.st_uid == uid
            &&& over.1 matches Some(gid) ==> got.st_gid == gid
            &&& over.2 matches Some(mode) ==> got.st_mode == (if mode & S_IFMT != 0 {
                mode
            } else {
                mode | (st.st_mode & S_IFMT)
            })
            &&& over.0 is None ==> got.st_uid == (if host_uid == Some(st.st_uid) {
                0
            } else {
                st.st_uid
            })
            &&& over.1 is None ==> got.st_gid == (if host_gid == Some(st.st_gid) {
                0
            } else {
                st.st_gid
            })
            &&& over.2 is None ==> got.st_mode == st.st_mode
        }),
{
    let host = st.st_mode;
    if let Some(mode) = over.2 {
        assert((host & 0o170000u32) | mode == mode | (host & 0o170000u32)) by (bit_vector);
    }
}

/// Whether a call is about the file `fd` and its override, and changes nothing but that.
pub open spec fn works_on(call: Syscall, fd: RawFd) -> bool {
    asks_about(call, fd) || (call matches Syscall::SetXattr {
        value: XattrValue::Override(value),
        ..
    } && stores_override(call, fd, value))
}

/// Work on the override of a file is about that file from its start to its end. Whatever the host
/// answers, no other file is asked or changed, and nothing of the file but the override.
pub proof fn law_override_work_stays_on_its_file(
    fd: RawFd,
    read: ReadOverride,
    has: HasOverride,
    write: WriteOverride,
    stat: StatFile,
    reply: Reply,
)
    requires
        read.is_of(fd),
        has.is_of(fd),
        write.is_of(fd),
        stat.is_of(fd),
    ensures
        asks_about(read.pending(), fd),
        asks_about(has.pending(), fd),
        works_on(write.pending(), fd),
        asks_about(stat.pending(), fd),
        read.pending().answered_by(reply) ==> (read.next(reply) matches Step::Call(call, then) ==> (
        then.is_of(fd) && call == then.pending() && asks_about(call, fd))),
        has.pending().answered_by(reply) ==> (has.next(reply) matches Step::Call(call, then) ==> (
        then.is_of(fd) && call == then.pending() && asks_about(call, fd))),
        write.pending().answered_by(reply) ==> (write.next(reply) matches Step::Call(call, then)
            ==> (then.is_of(fd) && call == then.pending() && works_on(call, fd))),
        stat.pending().answered_by(reply) ==> (stat.next(reply) matches Step::Call(call, then) ==> (
        then.is_of(fd) && call == then.pending() && asks_about(call, fd))),
{
}

/// How an override is read: the file is asked what kind it is, then for the attribute through the open
/// file, and through its path just where that fails. What the host has is what its text says; a link
/// has none, and neither has a file that is asked in vain. Only the first question can fail.
pub proof fn law_override_reading(fd: RawFd, st: Stat, text: Vec<u8>, e: i32)
    ensures
        ({
            let kind = ReadOverride::Kind { fd };
            let by_fd = ReadOverride::ByFd { fd };
            let by_path = ReadOverride::ByPath { fd };
            &&& kind.pending() == (Syscall::FstatAt { fd, flags: AT_ITSELF })
            &&& by_fd.pending() == (Syscall::GetXattr {
                target: XattrTarget::Fd(fd),
                name: XattrName::Override,
                size: OVERRIDE_SIZE,
            })
            &&& by_path.pending() == (Syscall::GetXattr {
                target: XattrTarget::Follow(fd),
                name: XattrName::Override,
                size: OVERRIDE_SIZE,
            })
            &&& kind.next(Reply::Fail(e)) matches Step::Done(Err(err))
            &&& err == FsError::Os(e)
            &&& match kind.next(Reply::Stat(st)) {
                Step::Call(_, then) => st.st_mode & S_IFMT != S_IFLNK && then == by_fd,
                Step::Done(res) => st.st_mode & S_IFMT == S_IFLNK && res == Ok::<
                    OverrideStat,
                    FsError,
                >((None, None, None)),
            }
            &&& by_fd.next(Reply::Fail(e)) matches Step::Call(_, then)
            &&& then == by_path
            &&& by_path.next(Reply::Fail(e)) matches Step::Done(Ok(none))
            &&& none == (None::<u32>, None::<u32>, None::<u32>)
            &&& by_fd.next(Reply::Bytes(text)) matches Step::Done(Ok(first))
            &&& first == override_of_text(text@)
            &&& by_path.next(Reply::Bytes(text)) matches Step::Done(Ok(second))
            &&& second == override_of_text(text@)
        }),
{
}

/// How it is found out whether a file has an override: through the open file, and through its path just
/// where the host says that there is none to be had. Any other error ends the search with that error,
/// and a link is never said to have one.
pub proof fn law_override_finding(fd: RawFd, st: Stat, n: u64, e: i32)
    ensures
        ({
            let missing = e == ENODATA || e == ENOTSUP || e == EOPNOTSUPP || e == EBADF;
            let kind = HasOverride::Kind { fd };
            let by_fd = HasOverride::ByFd { fd };
            let by_path = HasOverride::ByPath { fd };
            &&& kind.pending() == (Syscall::FstatAt { fd, flags: AT_ITSELF })
            &&& by_fd.pending() == (Syscall::GetXattr {
                target: XattrTarget::Fd(fd),
                name: XattrName::Override,
                size: 0,
            })
            &&& by_path.pending() == (Syscall::GetXattr {
                target: XattrTarget::Follow(fd),
                name: XattrName::Override,
                size: 0,
            })
            &&& kind.next(Reply::Fail(e)) matches Step::Done(Err(err))
            &&& err == FsError::Os(e)
            &&& match kind.next(Reply::Stat(st)) {
                Step::Call(_, then) => st.st_mode & S_IFMT != S_IFLNK && then == by_fd,
                Step::Done(res) => st.st_mode & S_IFMT == S_IFLNK && res == Ok::<bool, FsError>(
                    false,
                ),
            }
            &&& by_fd.next(Reply::Num(n)) matches Step::Done(Ok(found))
            &&& found
            &&& by_path.next(Reply::Num(n)) matches Step::Done(Ok(also))
            &&& also
            &&& match by_fd.next(Reply::Fail(e)) {
                Step::Call(_, then) => missing && then == by_path,
                Step::Done(res) => !missing && res == Err::<bool, FsError>(FsError::Os(e)),
            }
            &&& by_path.next(Reply::Fail(e)) matches Step::Done(res)
            &&& res == if missing {
                Ok::<bool, FsError>(false)
            } else {
                Err(FsError::Os(e))
            }
        }),
{
}

/// What an update of an override leaves: a user or a group that the update names, where its number
/// names someone, and what was there where it does not; the same of the mode. The user is never taken
/// for the group.
pub proof fn law_update_records_what_it_names(
    owner: Option<(u32, u32)>,
    mode: Option<u32>,
    before: OverrideStat,
)
    ensures
        ({
            let after = merged(owner, mode, before);
            &&& owner is None ==> after.0 == before.0 && after.1 == before.1
            &&& owner matches Some((uid, _)) ==> after.0 == (if uid < UID_MAX {
                Some(uid)
            } else {
                before.0
            })
            &&& owner matches Some((_, gid)) ==> after.1 == (if gid < UID_MAX {
                Some(gid)
            } else {
                before.1
            })
            &&& mode is None ==> after.2 == before.2
            &&& mode is Some ==> after.2 == mode
        }),
{
}

/// How an override is updated. A link is left alone. An update that names everything is stored at once,
/// another after what was there is read; it is stored through the open file and, just where the host
/// refuses that, through its path, the same value on both routes. The last refusal is the request's.
pub proof fn law_override_writing(
    fd: RawFd,
    owner: Option<(u32, u32)>,
    mode: Option<u32>,
    st: Stat,
    before: OverrideStat,
    read: ReadOverride,
    reply: Reply,
    e: i32,
)
    requires
        read.next(reply) matches Step::Done(Ok(was)) && was == before,
    ensures
        ({
            let start = WriteOverride::Kind { fd, owner, mode };
            let link = st.st_mode & S_IFMT == S_IFLNK;
            let whole = mode is Some && (owner matches Some((uid, gid)) && uid < UID_MAX && gid
                < UID_MAX);
            let named = match owner {
                Some((uid, gid)) => (Some(uid), Some(gid), mode),
                None => (None, None, mode),
            };
            &&& start.pending() == (Syscall::FstatAt { fd, flags: AT_ITSELF })
            &&& start.next(Reply::Fail(e)) matches Step::Done(Err(err))
            &&& err == FsError::Os(e)
            &&& match start.next(Reply::Stat(st)) {
                Step::Done(res) => link && res is Ok,
                Step::Call(call, then) => !link && (if whole {
                    stores_override(call, fd, named) && stored_by(then, call, fd, named, e)
                } else {
                    call == (Syscall::FstatAt { fd, flags: AT_ITSELF }) && then
                        == (WriteOverride::Before {
                        fd,
                        owner,
                        mode,
                        read: ReadOverride::Kind { fd },
                    })
                }),
            }
            &&& WriteOverride::Before { fd, owner, mode, read }.next(reply) matches Step::Call(
                call,
                then,
            )
            &&& stores_override(call, fd, merged(owner, mode, before))
            &&& stored_by(then, call, fd, merged(owner, mode, before), e)
        }),
{
}

/// Whether a request that waits for a value to be stored by `call`, through the open file, is done once
/// it is, and otherwise tries the path with the same value, to end as that ends.
pub open spec fn stored_by(
    op: WriteOverride,
    call: Syscall,
    fd: RawFd,
    value: OverrideStat,
    e: i32,
) -> bool {
    &&& call matches Syscall::SetXattr { target: XattrTarget::Fd(_), .. }
    &&& op.pending() == call
    &&& op.next(Reply::Unit) matches Step::Done(Ok(_))
    &&& op.next(Reply::Fail(e)) matches Step::Call(again, last)
    &&& again matches Syscall::SetXattr { target: XattrTarget::Follow(_), .. }
    &&& stores_override(again, fd, value)
    &&& last.next(Reply::Unit) matches Step::Done(Ok(_))
    &&& last.next(Reply::Fail(e)) matches Step::Done(Err(err))
    &&& err == FsError::Os(e)
}

} // verus!
