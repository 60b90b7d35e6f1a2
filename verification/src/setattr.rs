//! Changing the attributes of a file.

use crate::abi::{
    O_NONBLOCK, O_RDWR, SET_ATIME, SET_ATIME_NOW, SET_GID, SET_MODE, SET_MTIME, SET_MTIME_NOW,
    SET_SIZE, SET_UID, S_IFMT, UTIME_NOW, UTIME_OMIT,
};
use crate::attr::{getattr_start, GetAttr};
use crate::fs::{FsView, PassthroughFs};
use crate::fs_laws::lemma_release_holds;
use crate::metadata::{
    has_override_xattr, set_override_xattr, stat, HasOverride, StatFile, WriteOverride,
};
use crate::model::{FsError, Handle, Inode, RawFd, Stat, Timeout, Timespec};
use crate::open::{opening, Opening};
use crate::override_stat::{
    clear_suid_sgid, is_backend_code, merged, seen, should_store_override_stat_for_setattr_error,
    without_setid, OverrideStat, UID_MAX,
};
use crate::step::{Path, Reply, Step, Syscall};
use vstd::pervasive::unreached;
use vstd::prelude::*;

verus! {

/// A request to change attributes, once its inode and handle are found.
#[derive(Clone, Copy, Debug, PartialEq, Eq)]
pub struct Change {
    pub inode: Inode,
    /// The place of the inode.
    pub place: RawFd,
    /// The file that the client has open, if the request names one.
    pub open: Option<RawFd>,
    /// The directory of this process's files.
    pub proc_self_fd: RawFd,
    pub attr: Stat,
    /// Which attributes are to be changed.
    pub valid: u32,
    pub host_uid: Option<u32>,
    pub host_gid: Option<u32>,
}

/// Serves the request: mode, owner, size and times, in this order, and then reads what came of it.
#[allow(inconsistent_fields)]
#[derive(Clone, Copy, Debug, PartialEq, Eq)]
pub enum SetAttr {
    /// Finds out where the mode is kept.
    FindMode { change: Change, find: HasOverride },
    /// Changes the mode on the host.
    Chmod { change: Change },
    /// Records the mode for the guest.
    RecordMode { change: Change, write: WriteOverride },
    /// Reads the mode, of which a new owner takes the set-id bits.
    ReadMode { change: Change, stat: StatFile },
    RecordOwner { change: Change, write: WriteOverride },
    OpenToTruncate { change: Change, opening: Opening },
    /// Changes the size, through a file that was opened for it if `opened`.
    Truncate { change: Change, fd: RawFd, opened: bool },
    Times { change: Change },
    Read { get: GetAttr },
}

pub open spec fn sets(valid: u32, flag: u32) -> bool {
    valid & flag == flag
}

fn is_set(valid: u32, flag: u32) -> (set: bool)
    ensures
        set == sets(valid, flag),
{
    valid & flag == flag
}

impl Change {
    pub open spec fn sets(self, flag: u32) -> bool {
        sets(self.valid, flag)
    }

    /// The owner to record; a number that is not set is one that names nobody.
    pub open spec fn owner(self) -> (u32, u32) {
        (
            if self.sets(SET_UID) {
                self.attr.st_uid
            } else {
                u32::MAX
            },
            if self.sets(SET_GID) {
                self.attr.st_gid
            } else {
                u32::MAX
            },
        )
    }

    pub open spec fn atime(self) -> Timespec {
        if self.sets(SET_ATIME_NOW) {
            Timespec { tv_sec: 0, tv_nsec: UTIME_NOW }
        } else if self.sets(SET_ATIME) {
            Timespec { tv_sec: self.attr.st_atime, tv_nsec: self.attr.st_atime_nsec }
        } else {
            Timespec { tv_sec: 0, tv_nsec: UTIME_OMIT }
        }
    }

    pub open spec fn mtime(self) -> Timespec {
        if self.sets(SET_MTIME_NOW) {
            Timespec { tv_sec: 0, tv_nsec: UTIME_NOW }
        } else if self.sets(SET_MTIME) {
            Timespec { tv_sec: self.attr.st_mtime, tv_nsec: self.attr.st_mtime_nsec }
        } else {
            Timespec { tv_sec: 0, tv_nsec: UTIME_OMIT }
        }
    }

    /// The call that changes the mode on the host.
    pub open spec fn chmod(self) -> Syscall {
        match self.open {
            Some(fd) => Syscall::Fchmod { fd, mode: self.attr.st_mode },
            None => Syscall::FchmodAt {
                dir: self.proc_self_fd,
                path: Path::Fd(self.place),
                mode: self.attr.st_mode,
            },
        }
    }

    /// The call that changes the times.
    pub open spec fn set_times(self) -> Syscall {
        match self.open {
            Some(fd) => Syscall::Futimens { fd, atime: self.atime(), mtime: self.mtime() },
            None => Syscall::UtimensAt {
                dir: self.proc_self_fd,
                path: Path::Fd(self.place),
                atime: self.atime(),
                mtime: self.mtime(),
            },
        }
    }

    fn chmod_call(self) -> (call: Syscall)
        ensures
            call == self.chmod(),
    {
        match self.open {
            Some(fd) => Syscall::Fchmod { fd, mode: self.attr.st_mode },
            None => Syscall::FchmodAt {
                dir: self.proc_self_fd,
                path: Path::Fd(self.place),
                mode: self.attr.st_mode,
            },
        }
    }

    fn set_times_call(self) -> (call: Syscall)
        ensures
            call == self.set_times(),
    {
        let mut atime = Timespec { tv_sec: 0, tv_nsec: UTIME_OMIT };
        let mut mtime = Timespec { tv_sec: 0, tv_nsec: UTIME_OMIT };
        if is_set(self.valid, SET_ATIME_NOW) {
            atime.tv_nsec = UTIME_NOW;
        } else if is_set(self.valid, SET_ATIME) {
            atime.tv_sec = self.attr.st_atime;
            atime.tv_nsec = self.attr.st_atime_nsec;
        }
        if is_set(self.valid, SET_MTIME_NOW) {
            mtime.tv_nsec = UTIME_NOW;
        } else if is_set(self.valid, SET_MTIME) {
            mtime.tv_sec = self.attr.st_mtime;
            mtime.tv_nsec = self.attr.st_mtime_nsec;
        }
        match self.open {
            Some(fd) => Syscall::Futimens { fd, atime, mtime },
            None => Syscall::UtimensAt {
                dir: self.proc_self_fd,
                path: Path::Fd(self.place),
                atime,
                mtime,
            },
        }
    }
}

/// The mode that is recorded beside a new owner: one without set-id bits where the file had any.
pub open spec fn mode_beside_owner(st: Stat) -> Option<u32> {
    if without_setid(st.st_mode) != st.st_mode {
        Some(without_setid(st.st_mode))
    } else {
        None
    }
}

/// The new attributes, and how long the client may keep them.
pub type Attributes = (Stat, Timeout);

impl SetAttr {
    /// Whether this request has the file `fd` open.
    pub open spec fn holds(self, fd: RawFd) -> bool {
        self matches SetAttr::Truncate { fd: own, opened, .. } && opened && own == fd
    }

    pub open spec fn pending(self) -> Syscall {
        match self {
            SetAttr::FindMode { find, .. } => find.pending(),
            SetAttr::Chmod { change } => change.chmod(),
            SetAttr::RecordMode { write, .. } => write.pending(),
            SetAttr::ReadMode { stat, .. } => stat.pending(),
            SetAttr::RecordOwner { write, .. } => write.pending(),
            SetAttr::OpenToTruncate { opening, .. } => opening.call(),
            SetAttr::Truncate { change, fd, .. } => Syscall::Ftruncate {
                fd,
                size: change.attr.st_size,
            },
            SetAttr::Times { change } => change.set_times(),
            SetAttr::Read { get } => get.pending(),
        }
    }

    pub open spec fn wait(self) -> Step<SetAttr, Attributes> {
        Step::Call(self.pending(), self)
    }

    /// Where the request starts.
    pub open spec fn to_mode(fs: FsView, change: Change) -> Step<SetAttr, Attributes> {
        if change.sets(SET_MODE) {
            SetAttr::FindMode { change, find: HasOverride::Kind { fd: change.place } }.wait()
        } else {
            SetAttr::to_owner(fs, change)
        }
    }

    /// Where the request stands once the mode is done.
    pub open spec fn to_owner(fs: FsView, change: Change) -> Step<SetAttr, Attributes> {
        if change.sets(SET_UID) || change.sets(SET_GID) {
            SetAttr::ReadMode {
                change,
                stat: StatFile::Host {
                    fd: change.place,
                    host_uid: change.host_uid,
                    host_gid: change.host_gid,
                },
            }.wait()
        } else {
            SetAttr::to_size(fs, change)
        }
    }

    /// Where the request stands once the owner is done.
    pub open spec fn to_size(fs: FsView, change: Change) -> Step<SetAttr, Attributes> {
        if change.sets(SET_SIZE) {
            match change.open {
                Some(fd) => SetAttr::Truncate { change, fd, opened: false }.wait(),
                None => match opening(fs, change.inode, O_NONBLOCK | O_RDWR) {
                    Ok(opening) => SetAttr::OpenToTruncate { change, opening }.wait(),
                    Err(e) => Step::Done(Err(e)),
                },
            }
        } else {
            SetAttr::to_times(fs, change)
        }
    }

    /// Where the request stands once the size is done.
    pub open spec fn to_times(fs: FsView, change: Change) -> Step<SetAttr, Attributes> {
        if change.sets(SET_ATIME) || change.sets(SET_MTIME) {
            SetAttr::Times { change }.wait()
        } else {
            SetAttr::to_read(fs, change)
        }
    }

    /// Where the request stands once all is changed.
    pub open spec fn to_read(fs: FsView, change: Change) -> Step<SetAttr, Attributes> {
        match getattr_start(fs, change.inode) {
            Step::Call(_, get) => SetAttr::Read { get }.wait(),
            Step::Done(res) => Step::Done(res),
        }
    }

    /// The update that records a mode alone.
    pub open spec fn record_mode(change: Change) -> SetAttr {
        SetAttr::RecordMode {
            change,
            write: WriteOverride::Kind {
                fd: change.place,
                owner: None,
                mode: Some(change.attr.st_mode),
            },
        }
    }

    /// The update that records a new owner.
    pub open spec fn record_owner(change: Change, st: Stat) -> SetAttr {
        SetAttr::RecordOwner {
            change,
            write: WriteOverride::Kind {
                fd: change.place,
                owner: Some(change.owner()),
                mode: mode_beside_owner(st),
            },
        }
    }

    pub open spec fn next(self, fs: FsView, reply: Reply) -> (FsView, Step<SetAttr, Attributes>) {
        match self {
            SetAttr::FindMode { change, find } => (
                fs,
                match find.next(reply) {
                    Step::Call(_, find) => SetAttr::FindMode { change, find }.wait(),
                    Step::Done(Ok(true)) => SetAttr::record_mode(change).wait(),
                    Step::Done(Ok(false)) => SetAttr::Chmod { change }.wait(),
                    Step::Done(Err(e)) => Step::Done(Err(e)),
                },
            ),
            SetAttr::Chmod { change } => (
                fs,
                match reply {
                    Reply::Fail(e) => if is_backend_code(e) {
                        SetAttr::record_mode(change).wait()
                    } else {
                        Step::Done(Err(FsError::Os(e)))
                    },
                    _ => SetAttr::to_owner(fs, change),
                },
            ),
            SetAttr::RecordMode { change, write } => (
                fs,
                match write.next(reply) {
                    Step::Call(_, write) => SetAttr::RecordMode { change, write }.wait(),
                    Step::Done(Ok(_)) => SetAttr::to_owner(fs, change),
                    Step::Done(Err(e)) => Step::Done(Err(e)),
                },
            ),
            SetAttr::ReadMode { change, stat } => (
                fs,
                match stat.next(reply) {
                    Step::Call(_, stat) => SetAttr::ReadMode { change, stat }.wait(),
                    Step::Done(Ok(st)) => SetAttr::record_owner(change, st).wait(),
                    Step::Done(Err(e)) => Step::Done(Err(e)),
                },
            ),
            SetAttr::RecordOwner { change, write } => (
                fs,
                match write.next(reply) {
                    Step::Call(_, write) => SetAttr::RecordOwner { change, write }.wait(),
                    Step::Done(Ok(_)) => SetAttr::to_size(fs, change),
                    Step::Done(Err(e)) => Step::Done(Err(e)),
                },
            ),
            SetAttr::OpenToTruncate { change, .. } => (
                fs,
                match reply {
                    Reply::Fail(e) => Step::Done(Err(FsError::Os(e))),
                    Reply::Fd(fd) => SetAttr::Truncate { change, fd, opened: true }.wait(),
                    _ => arbitrary(),
                },
            ),
            SetAttr::Truncate { change, fd, opened } => {
                let fs = if opened {
                    fs.releasing(fd)
                } else {
                    fs
                };
                match reply {
                    Reply::Fail(e) => (fs, Step::Done(Err(FsError::Os(e)))),
                    _ => (fs, SetAttr::to_times(fs, change)),
                }
            },
            SetAttr::Times { change } => (
                fs,
                match reply {
                    Reply::Fail(e) => Step::Done(Err(FsError::Os(e))),
                    _ => SetAttr::to_read(fs, change),
                },
            ),
            SetAttr::Read { get } => (
                fs,
                match get.next(reply) {
                    Step::Call(_, get) => SetAttr::Read { get }.wait(),
                    Step::Done(res) => Step::Done(res),
                },
            ),
        }
    }

    fn do_mode(fs: &PassthroughFs, change: Change) -> (step: Step<SetAttr, Attributes>)
        ensures
            step == SetAttr::to_mode(fs@, change),
    {
        if is_set(change.valid, SET_MODE) {
            match has_override_xattr(change.place) {
                Step::Call(call, find) => Step::Call(call, SetAttr::FindMode { change, find }),
                _ => unreached(),
            }
        } else {
            SetAttr::do_owner(fs, change)
        }
    }

    fn do_owner(fs: &PassthroughFs, change: Change) -> (step: Step<SetAttr, Attributes>)
        ensures
            step == SetAttr::to_owner(fs@, change),
    {
        if is_set(change.valid, SET_UID) || is_set(change.valid, SET_GID) {
            match stat(change.place, change.host_uid, change.host_gid) {
                Step::Call(call, stat) => Step::Call(call, SetAttr::ReadMode { change, stat }),
                _ => unreached(),
            }
        } else {
            SetAttr::do_size(fs, change)
        }
    }

    fn do_size(fs: &PassthroughFs, change: Change) -> (step: Step<SetAttr, Attributes>)
        ensures
            step == SetAttr::to_size(fs@, change),
    {
        if is_set(change.valid, SET_SIZE) {
            match change.open {
                Some(fd) => SetAttr::truncate(change, fd, false),
                None => match fs.open_inode(change.inode, O_NONBLOCK | O_RDWR) {
                    Ok(opening) => Step::Call(
                        opening.call(),
                        SetAttr::OpenToTruncate { change, opening },
                    ),
                    Err(e) => Step::Done(Err(e)),
                },
            }
        } else {
            SetAttr::do_times(fs, change)
        }
    }

    fn truncate(change: Change, fd: RawFd, opened: bool) -> (step: Step<SetAttr, Attributes>)
        ensures
            step == (SetAttr::Truncate { change, fd, opened }).wait(),
    {
        Step::Call(
            Syscall::Ftruncate { fd, size: change.attr.st_size },
            SetAttr::Truncate { change, fd, opened },
        )
    }

    fn do_times(fs: &PassthroughFs, change: Change) -> (step: Step<SetAttr, Attributes>)
        ensures
            step == SetAttr::to_times(fs@, change),
    {
        if is_set(change.valid, SET_ATIME) || is_set(change.valid, SET_MTIME) {
            Step::Call(change.set_times_call(), SetAttr::Times { change })
        } else {
            SetAttr::do_read(fs, change)
        }
    }

    fn do_read(fs: &PassthroughFs, change: Change) -> (step: Step<SetAttr, Attributes>)
        ensures
            step == SetAttr::to_read(fs@, change),
    {
        match fs.do_getattr(change.inode) {
            Step::Call(call, get) => Step::Call(call, SetAttr::Read { get }),
            Step::Done(res) => Step::Done(res),
        }
    }

    fn do_record_mode(change: Change) -> (step: Step<SetAttr, Attributes>)
        ensures
            step == SetAttr::record_mode(change).wait(),
    {
        match set_override_xattr(change.place, None, Some(change.attr.st_mode)) {
            Step::Call(call, write) => Step::Call(call, SetAttr::RecordMode { change, write }),
            _ => unreached(),
        }
    }

    fn do_record_owner(change: Change, st: Stat) -> (step: Step<SetAttr, Attributes>)
        ensures
            step == SetAttr::record_owner(change, st).wait(),
    {
        let uid: u32 = if is_set(change.valid, SET_UID) {
            change.attr.st_uid
        } else {
            u32::MAX
        };
        let gid: u32 = if is_set(change.valid, SET_GID) {
            change.attr.st_gid
        } else {
            u32::MAX
        };
        let mode: u32 = clear_suid_sgid(st.st_mode);
        let mode: Option<u32> = if mode != st.st_mode {
            Some(mode)
        } else {
            None
        };
        match set_override_xattr(change.place, Some((uid, gid)), mode) {
            Step::Call(call, write) => Step::Call(call, SetAttr::RecordOwner { change, write }),
            _ => unreached(),
        }
    }

    pub fn resume(self, fs: &mut PassthroughFs, reply: Reply) -> (step: Step<SetAttr, Attributes>)
        requires
            old(fs).wf(),
            self.pending().answered_by(reply),
        ensures
            final(fs).wf(),
            (final(fs)@, step) == self.next(old(fs)@, reply),
    {
        match self {
            SetAttr::FindMode { change, find } => match find.resume(reply) {
                Step::Call(call, find) => Step::Call(call, SetAttr::FindMode { change, find }),
                Step::Done(Ok(found)) => if found {
                    SetAttr::do_record_mode(change)
                } else {
                    Step::Call(change.chmod_call(), SetAttr::Chmod { change })
                },
                Step::Done(Err(e)) => Step::Done(Err(e)),
            },
            SetAttr::Chmod { change } => match reply {
                Reply::Fail(e) => {
                    let err = FsError::from_raw_os_error(e);
                    if should_store_override_stat_for_setattr_error(&err) {
                        SetAttr::do_record_mode(change)
                    } else {
                        Step::Done(Err(err))
                    }
                },
                _ => SetAttr::do_owner(fs, change),
            },
            SetAttr::RecordMode { change, write } => match write.resume(reply) {
                Step::Call(call, write) => Step::Call(call, SetAttr::RecordMode { change, write }),
                Step::Done(Ok(())) => SetAttr::do_owner(fs, change),
                Step::Done(Err(e)) => Step::Done(Err(e)),
            },
            SetAttr::ReadMode { change, stat } => match stat.resume(reply) {
                Step::Call(call, stat) => Step::Call(call, SetAttr::ReadMode { change, stat }),
                Step::Done(Ok(st)) => SetAttr::do_record_owner(change, st),
                Step::Done(Err(e)) => Step::Done(Err(e)),
            },
            SetAttr::RecordOwner { change, write } => match write.resume(reply) {
                Step::Call(call, write) => Step::Call(call, SetAttr::RecordOwner { change, write }),
                Step::Done(Ok(())) => SetAttr::do_size(fs, change),
                Step::Done(Err(e)) => Step::Done(Err(e)),
            },
            SetAttr::OpenToTruncate { change, opening: _ } => match reply {
                Reply::Fail(e) => Step::Done(Err(FsError::from_raw_os_error(e))),
                Reply::Fd(fd) => SetAttr::truncate(change, fd, true),
                _ => unreached(),
            },
            SetAttr::Truncate { change, fd, opened } => {
                if opened {
                    fs.release_fd(fd);
                }
                match reply {
                    Reply::Fail(e) => Step::Done(Err(FsError::from_raw_os_error(e))),
                    _ => SetAttr::do_times(fs, change),
                }
            },
            SetAttr::Times { change } => match reply {
                Reply::Fail(e) => Step::Done(Err(FsError::from_raw_os_error(e))),
                _ => SetAttr::do_read(fs, change),
            },
            SetAttr::Read { get } => match get.resume(reply) {
                Step::Call(call, get) => Step::Call(call, SetAttr::Read { get }),
                Step::Done(res) => Step::Done(res),
            },
        }
    }
}

/// The request, once its inode and handle are found.
pub open spec fn change_of(
    fs: FsView,
    inode: Inode,
    attr: Stat,
    handle: Option<Handle>,
    valid: u32,
) -> Result<Change, FsError> {
    match fs.find_inode(inode) {
        Err(e) => Err(e),
        Ok(data) => {
            let change = Change {
                inode,
                place: data.fd,
                open: None,
                proc_self_fd: fs.proc_self_fd,
                attr,
                valid,
                host_uid: fs.my_uid,
                host_gid: fs.my_gid,
            };
            match handle {
                None => Ok(change),
                Some(handle) => match fs.find_handle(inode, handle) {
                    Ok(hd) => Ok(Change { open: Some(hd.fd), ..change }),
                    Err(e) => Err(e),
                },
            }
        },
    }
}

/// How a request to change attributes starts.
pub open spec fn setattr_start(
    fs: FsView,
    inode: Inode,
    attr: Stat,
    handle: Option<Handle>,
    valid: u32,
) -> Step<SetAttr, Attributes> {
    match change_of(fs, inode, attr, handle, valid) {
        Ok(change) => SetAttr::to_mode(fs, change),
        Err(e) => Step::Done(Err(e)),
    }
}

impl PassthroughFs {
    /// Changes the attributes of an inode that `valid` names to those of `attr`.
    pub fn setattr(&self, inode: Inode, attr: Stat, handle: Option<Handle>, valid: u32) -> (step:
        Step<SetAttr, Attributes>)
        ensures
            step == setattr_start(self@, inode, attr, handle, valid),
    {
        let data = match self.inode_data(inode) {
            Ok(data) => data,
            Err(e) => {
                return Step::Done(Err(e));
            },
        };
        let open: Option<RawFd> = match handle {
            Some(handle) => match self.handle_data(inode, handle) {
                Ok(hd) => Some(hd.fd),
                Err(e) => {
                    return Step::Done(Err(e));
                },
            },
            None => None,
        };
        SetAttr::do_mode(
            self,
            Change {
                inode,
                place: data.fd,
                open,
                proc_self_fd: self.proc_self_fd(),
                attr,
                valid,
                host_uid: self.my_uid(),
                host_gid: self.my_gid(),
            },
        )
    }
}

/// A request that sets nothing changes nothing: it only reads the attributes.
pub proof fn law_setting_nothing_only_reads(fs: FsView, change: Change)
    requires
        change.valid & (SET_MODE | SET_UID | SET_GID | SET_SIZE | SET_ATIME | SET_MTIME) == 0,
    ensures
        SetAttr::to_mode(fs, change) == SetAttr::to_read(fs, change),
{
    let valid = change.valid;
    assert(valid & 1 == 0 && valid & 2 == 0 && valid & 4 == 0 && valid & 8 == 0 && valid & 0x10 == 0
        && valid & 0x20 == 0) by (bit_vector)
        requires
            valid & (1u32 | 2 | 4 | 8 | 0x10 | 0x20) == 0,
    ;
}

/// A new owner is the one that the guest then sees. It takes the set-id bits from the mode, and
/// changes nothing else of it; a number that the request does not set stays as it was recorded.
pub proof fn law_new_owner_takes_setid_bits(
    change: Change,
    host: Stat,
    before: OverrideStat,
)
    ensures
        ({
            let st = seen(host, before, change.host_uid, change.host_gid);
            let after = merged(Some(change.owner()), mode_beside_owner(st), before);
            &&& seen(host, after, change.host_uid, change.host_gid).st_mode == without_setid(
                st.st_mode,
            )
            &&& !change.sets(SET_UID) ==> after.0 == before.0
            &&& !change.sets(SET_GID) ==> after.1 == before.1
            &&& change.sets(SET_UID) && change.attr.st_uid < UID_MAX ==> seen(
                host,
                after,
                change.host_uid,
                change.host_gid,
            ).st_uid == change.attr.st_uid
            &&& change.sets(SET_GID) && change.attr.st_gid < UID_MAX ==> seen(
                host,
                after,
                change.host_uid,
                change.host_gid,
            ).st_gid == change.attr.st_gid
        }),
{
    let m = host.st_mode;
    let st = seen(host, before, change.host_uid, change.host_gid);
    let mode = st.st_mode;
    if mode & 0o170000 == 0 {
        assert(m & 0o170000 == 0) by {
            if let Some(over) = before.2 {
                assert(((m & 0o170000u32) | over) & 0o170000u32 == 0 ==> m & 0o170000u32 == 0)
                    by (bit_vector);
            }
        }
    }
    assert(m & 0o170000u32 == 0 ==> (m & 0o170000u32) | (mode & !(0o4000u32 | 0o2000u32)) == mode
        & !(0o4000u32 | 0o2000u32)) by (bit_vector);
    assert((mode & !(0o4000u32 | 0o2000u32)) & 0o170000u32 == mode & 0o170000u32) by (bit_vector);
}

/// A mode that is recorded is the one that the guest then sees, with the file's own type where the
/// request names none; the owner stays as it was seen.
pub proof fn law_recorded_mode_is_seen(change: Change, host: Stat, before: OverrideStat)
    ensures
        ({
            let mode = change.attr.st_mode;
            let st = seen(host, before, change.host_uid, change.host_gid);
            let after = seen(
                host,
                merged(None, Some(mode), before),
                change.host_uid,
                change.host_gid,
            );
            &&& after.st_mode & 0o7777 == mode & 0o7777
            &&& mode & S_IFMT == 0 ==> after.st_mode & S_IFMT == host.st_mode & S_IFMT
            &&& after.st_uid == st.st_uid
            &&& after.st_gid == st.st_gid
        }),
{
    let mode = change.attr.st_mode;
    let m = host.st_mode;
    assert(((m & 0o170000u32) | mode) & 0o7777u32 == mode & 0o7777u32) by (bit_vector);
    assert(mode & 0o170000u32 == 0 ==> ((m & 0o170000u32) | mode) & 0o170000u32 == m & 0o170000u32)
        by (bit_vector);
}

/// Changing attributes keeps account of files: one that is opened to change its size is to be closed
/// once that is done.
pub proof fn law_setattr_accounts_for_files(op: SetAttr, fs: FsView, reply: Reply, f: RawFd)
    requires
        op.pending().answered_by(reply),
    ensures
        ({
            let (after, step) = op.next(fs, reply);
            after.holds(f) || (step matches Step::Call(_, op) && op.holds(f)) <==> fs.holds(f)
                || op.holds(f) || reply == Reply::Fd(f)
        }),
{
    if let SetAttr::Truncate { fd, .. } = op {
        lemma_release_holds(fs, Some(fd), f);
    }
}

} // verus!
