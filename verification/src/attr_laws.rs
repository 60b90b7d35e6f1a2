//! Whose attributes are read and changed, and to what.

use crate::abi::{
    ATTR_SUBMOUNT, AT_ITSELF, EACCES, EBADF, EINVAL, ENOTSUP, EOPNOTSUPP, EPERM, O_ACCMODE,
    O_APPEND, O_CLOEXEC, O_NONBLOCK, O_RDWR, SETUPMAPPING_WRITE, SET_ATIME, SET_ATIME_NOW, SET_GID,
    SET_MODE, SET_MTIME, SET_MTIME_NOW, SET_SIZE, SET_UID, S_ISGID, S_ISUID, UTIME_NOW, UTIME_OMIT,
};
use crate::access::grants;
use crate::attr::{
    access_start, creation, getattr_start, metadata_start, stat_start, CheckAccess, GetAttr,
};
use crate::fs::FsView;
use crate::metadata::{HasOverride, ReadOverride, StatFile, WriteOverride};
use crate::model::{Context, FsError, Handle, Inode, RawFd, Stat, Timespec};
use crate::open::{law_open_flags, Opening};
use crate::override_stat::seen;
use crate::setattr::{change_of, setattr_start, Attributes, Change, SetAttr};
use crate::step::{Path, Reply, Step, Syscall};
use vstd::prelude::*;

verus! {

/// The attributes of an inode are asked of the file in its place, first of all. The client may keep
/// them for the time that the options say.
pub proof fn law_attributes_are_of_the_inode(fs: FsView, inode: Inode, place: RawFd, e: i32)
    requires
        fs.has_place(inode, place),
    ensures
        ({
            &&& getattr_start(fs, inode) matches Step::Call(call, op)
            &&& call == (Syscall::FstatAt { fd: place, flags: AT_ITSELF })
            &&& op.timeout == fs.cfg.attr_timeout
            &&& op.stat == (StatFile::Host {
                fd: place,
                host_uid: fs.my_uid,
                host_gid: fs.my_gid,
            })
            &&& op.next(Reply::Fail(e)) matches Step::Done(Err(err))
            &&& err == FsError::Os(e)
            &&& stat_start(fs, inode) matches Ok(stat)
            &&& stat == op.stat
        }),
{
}

/// Reading attributes gives what came of the file, with the time that it started with.
pub proof fn law_attributes_keep_their_time(op: GetAttr, reply: Reply)
    requires
        op.pending().answered_by(reply),
    ensures
        ({
            &&& op.pending() == op.stat.pending()
            &&& match (op.next(reply), op.stat.next(reply)) {
                (Step::Call(call, then), Step::Call(own, stat)) => call == own && then
                    == (GetAttr { timeout: op.timeout, stat }),
                (Step::Done(Ok((st, timeout))), Step::Done(Ok(own))) => st == own && timeout
                    == op.timeout,
                (Step::Done(Err(e)), Step::Done(Err(own))) => e == own,
                _ => false,
            }
        }),
{
}

/// The attributes that the host reports first are the ones that the guest sees, through the override
/// that is read after them, and by the user and group of this process that the reading started with.
pub proof fn law_first_report_is_the_one_seen(
    fd: RawFd,
    host_uid: Option<u32>,
    host_gid: Option<u32>,
    st: Stat,
    read: ReadOverride,
    reply: Reply,
)
    requires
        read.pending().answered_by(reply),
    ensures
        ({
            let start = StatFile::Host { fd, host_uid, host_gid };
            let then = StatFile::Override { st, host_uid, host_gid, read };
            &&& start.next(Reply::Stat(st)) matches Step::Call(call, own)
            &&& call == (Syscall::FstatAt { fd, flags: AT_ITSELF })
            &&& own == (StatFile::Override {
                st,
                host_uid,
                host_gid,
                read: ReadOverride::Kind { fd },
            })
            &&& match (then.next(reply), read.next(reply)) {
                (Step::Call(call, on), Step::Call(own, reading)) => call == own && on
                    == (StatFile::Override { st, host_uid, host_gid, read: reading }),
                (Step::Done(Ok(got)), Step::Done(Ok(over))) => got == seen(
                    st,
                    over,
                    host_uid,
                    host_gid,
                ),
                (Step::Done(Err(e)), Step::Done(Err(own))) => e == own,
                _ => false,
            }
        }),
{
}

/// A caller is judged by the attributes of the file, and by nothing else: it may do what they grant,
/// and is refused what they do not. Where they cannot be read the host's reason is given.
pub proof fn law_access_is_judged_by_the_attributes(op: CheckAccess, reply: Reply)
    requires
        op.pending().answered_by(reply),
    ensures
        ({
            &&& op.pending() == op.stat.pending()
            &&& match (op.next(reply), op.stat.next(reply)) {
                (Step::Call(call, then), Step::Call(own, stat)) => call == own && then.stat == stat
                    && then.ctx == op.ctx && then.mask == op.mask && then.gids == op.gids,
                (Step::Done(Ok(_)), Step::Done(Ok(st))) => grants(op.ctx, st, op.mask, op.gids@),
                (Step::Done(Err(e)), Step::Done(Ok(st))) => e == FsError::Os(EACCES) && !grants(
                    op.ctx,
                    st,
                    op.mask,
                    op.gids@,
                ),
                (Step::Done(Err(e)), Step::Done(Err(own))) => e == own,
                _ => false,
            }
        }),
{
}

/// What a user other than root is granted: all of reading, writing and executing that is asked for is
/// among the three bits of the mode for the owner if the caller is that, else for the group if one of
/// the caller's groups is that, else for the others.
pub proof fn law_each_class_has_its_bits(ctx: Context, st: Stat, mask: u32, gids: Seq<u32>)
    requires
        ctx.uid != 0,
    ensures
        ({
            let owner = ctx.uid == st.st_uid;
            let group = ctx.gid == st.st_gid || gids.contains(st.st_gid);
            let (read, write, run) = if owner {
                (0o400u32, 0o200u32, 0o100u32)
            } else if group {
                (0o40u32, 0o20u32, 0o10u32)
            } else {
                (0o4u32, 0o2u32, 0o1u32)
            };
            grants(ctx, st, mask, gids) <==> {
                &&& mask & 4 != 0 ==> st.st_mode & read != 0
                &&& mask & 2 != 0 ==> st.st_mode & write != 0
                &&& mask & 1 != 0 ==> st.st_mode & run != 0
            }
        }),
{
    let mode = st.st_mode;
    assert((((mode >> 6) & 7) & (mask & 7) == mask & 7 <==> (mask & 4 != 0 ==> mode & 0o400u32 != 0)
        && (mask & 2 != 0 ==> mode & 0o200u32 != 0) && (mask & 1 != 0 ==> mode & 0o100u32 != 0)) && (
    ((mode >> 3) & 7) & (mask & 7) == mask & 7 <==> (mask & 4 != 0 ==> mode & 0o40u32 != 0) && (mask
        & 2 != 0 ==> mode & 0o20u32 != 0) && (mask & 1 != 0 ==> mode & 0o10u32 != 0)) && ((mode & 7)
        & (mask & 7) == mask & 7 <==> (mask & 4 != 0 ==> mode & 4u32 != 0) && (mask & 2 != 0 ==> mode
        & 2u32 != 0) && (mask & 1 != 0 ==> mode & 1u32 != 0)) && (mask & 7 == 0 ==> mask & 4 == 0
        && mask & 2 == 0 && mask & 1 == 0)) by (bit_vector);
}

/// Who may make a file, and of which group it then is: where the client sends supplementary groups the
/// caller must be granted writing and searching of the directory, elsewhere nothing is asked. The file
/// is of the directory's group where that is a set-group-id directory, else of the caller's.
pub proof fn law_maker_and_directory_decide(
    fs: FsView,
    ctx: Context,
    gids: Seq<u32>,
    parent: Stat,
)
    ensures
        match creation(fs, ctx, gids, parent) {
            Err(e) => e == FsError::Os(EACCES) && fs.supplementary_group_extension && !grants(
                ctx,
                parent,
                3,
                gids,
            ),
            Ok((gid, from_directory)) => {
                &&& !fs.supplementary_group_extension || grants(ctx, parent, 3, gids)
                &&& from_directory <==> parent.st_mode & S_ISGID != 0
                &&& gid == (if parent.st_mode & S_ISGID != 0 {
                    parent.st_gid
                } else {
                    ctx.gid
                })
            },
        },
{
}

/// The owner and mode of a new file are recorded for the file in its inode's place.
pub proof fn law_metadata_is_recorded_for_the_inode(
    fs: FsView,
    inode: Inode,
    place: RawFd,
    uid: u32,
    gid: u32,
    mode: Option<u32>,
)
    requires
        fs.has_place(inode, place),
    ensures
        ({
            &&& metadata_start(fs, inode, uid, gid, mode) matches Step::Call(call, write)
            &&& call == (Syscall::FstatAt { fd: place, flags: AT_ITSELF })
            &&& write == (WriteOverride::Kind { fd: place, owner: Some((uid, gid)), mode })
        }),
{
}

/// What a request to change attributes is about: the file in the inode's place, and the file that the
/// client has open where it names one, with the attributes and the choice of them that it sent.
pub proof fn law_change_is_of_the_inode(
    fs: FsView,
    inode: Inode,
    place: RawFd,
    attr: Stat,
    handle: Option<Handle>,
    fd: RawFd,
    valid: u32,
)
    requires
        fs.has_place(inode, place),
        handle matches Some(handle) ==> fs.has_open(inode, handle, fd),
    ensures
        ({
            &&& change_of(fs, inode, attr, handle, valid) matches Ok(change)
            &&& change.inode == inode
            &&& change.place == place
            &&& change.open == (if handle is Some {
                Some(fd)
            } else {
                None
            })
            &&& change.proc_self_fd == fs.proc_self_fd
            &&& change.attr == attr
            &&& change.valid == valid
            &&& change.host_uid == fs.my_uid
            &&& change.host_gid == fs.my_gid
            &&& setattr_start(fs, inode, attr, handle, valid) == SetAttr::to_mode(fs, change)
        }),
{
}

/// The time that a call is to set, from what the request chose: the present where `now` is chosen, else
/// the given one where `given` is, else none.
pub open spec fn is_time(time: Timespec, now: bool, given: bool, sec: i64, nsec: i64) -> bool {
    if now {
        time.tv_nsec == UTIME_NOW && time.tv_sec == 0
    } else if given {
        time.tv_nsec == nsec && time.tv_sec == sec
    } else {
        time.tv_nsec == UTIME_OMIT && time.tv_sec == 0
    }
}

/// Each time of a file is set by its own choice and to its own value: to the present where the request
/// says so, else to the time that it gives where it gives one, and else it stays. The access time never
/// has a part in the modification time, nor that in it. The call is on the file that the client has
/// open, or on the inode's place.
pub proof fn law_times_are_set_as_chosen(change: Change)
    ensures
        ({
            let op = SetAttr::Times { change };
            let valid = change.valid;
            let attr = change.attr;
            let (atime, mtime) = match op.pending() {
                Syscall::Futimens { atime, mtime, .. } => (atime, mtime),
                Syscall::UtimensAt { atime, mtime, .. } => (atime, mtime),
                _ => arbitrary(),
            };
            &&& match op.pending() {
                Syscall::Futimens { fd, .. } => change.open == Some(fd),
                Syscall::UtimensAt { dir, path, .. } => change.open is None && dir
                    == change.proc_self_fd && path == Path::Fd(change.place),
                _ => false,
            }
            &&& is_time(
                atime,
                valid & SET_ATIME_NOW != 0,
                valid & SET_ATIME != 0,
                attr.st_atime,
                attr.st_atime_nsec,
            )
            &&& is_time(
                mtime,
                valid & SET_MTIME_NOW != 0,
                valid & SET_MTIME != 0,
                attr.st_mtime,
                attr.st_mtime_nsec,
            )
        }),
{
    lemma_chosen(change.valid);
}

/// A flag of one bit is set where it is not clear.
proof fn lemma_chosen(valid: u32)
    ensures
        valid & SET_MODE == SET_MODE <==> valid & SET_MODE != 0,
        valid & SET_UID == SET_UID <==> valid & SET_UID != 0,
        valid & SET_GID == SET_GID <==> valid & SET_GID != 0,
        valid & SET_SIZE == SET_SIZE <==> valid & SET_SIZE != 0,
        valid & SET_ATIME == SET_ATIME <==> valid & SET_ATIME != 0,
        valid & SET_MTIME == SET_MTIME <==> valid & SET_MTIME != 0,
        valid & SET_ATIME_NOW == SET_ATIME_NOW <==> valid & SET_ATIME_NOW != 0,
        valid & SET_MTIME_NOW == SET_MTIME_NOW <==> valid & SET_MTIME_NOW != 0,
{
    assert((valid & 1 == 1 <==> valid & 1 != 0) && (valid & 2 == 2 <==> valid & 2 != 0) && (valid
        & 4 == 4 <==> valid & 4 != 0) && (valid & 8 == 8 <==> valid & 8 != 0) && (valid & 0x10
        == 0x10 <==> valid & 0x10 != 0) && (valid & 0x20 == 0x20 <==> valid & 0x20 != 0) && (valid
        & 0x80 == 0x80 <==> valid & 0x80 != 0) && (valid & 0x100 == 0x100 <==> valid & 0x100 != 0))
        by (bit_vector);
}

/// The parts of a request to change attributes, in the order in which they are done.
pub enum Part {
    Mode,
    Owner,
    Size,
    Times,
    Read,
}

/// Whether a part is asked for. What came of it all is always read.
pub open spec fn is_wanted(part: Part, valid: u32) -> bool {
    match part {
        Part::Mode => valid & SET_MODE != 0,
        Part::Owner => valid & SET_UID != 0 || valid & SET_GID != 0,
        Part::Size => valid & SET_SIZE != 0,
        Part::Times => valid & SET_ATIME != 0 || valid & SET_MTIME != 0,
        Part::Read => true,
    }
}

/// Whether a request for `change` stands at the start of a part, in the state `fs`: at the first call
/// that it takes. A file that the client has not open is opened for its size.
pub open spec fn stands_at(
    step: Step<SetAttr, Attributes>,
    fs: FsView,
    change: Change,
    part: Part,
) -> bool {
    match part {
        Part::Mode => step == (SetAttr::FindMode {
            change,
            find: HasOverride::Kind { fd: change.place },
        }).wait(),
        Part::Owner => step == (SetAttr::ReadMode {
            change,
            stat: StatFile::Host {
                fd: change.place,
                host_uid: change.host_uid,
                host_gid: change.host_gid,
            },
        }).wait(),
        Part::Size => match step {
            Step::Call(call, op) => call == op.pending() && match op {
                SetAttr::Truncate { change: own, fd, opened } => own == change && change.open
                    == Some(fd) && !opened,
                SetAttr::OpenToTruncate { change: own, .. } => own == change && change.open is None
                    && (call matches Syscall::OpenAt { dir, path, mode, .. } && dir
                    == fs.proc_self_fd && path == Path::Fd(fs.inodes[change.inode].1.fd) && mode
                    == 0),
                _ => false,
            },
            Step::Done(res) => change.open is None && !fs.inodes.contains_key(change.inode) && res
                == Err::<Attributes, FsError>(FsError::Os(EBADF)),
        },
        Part::Times => step == (SetAttr::Times { change }).wait(),
        Part::Read => match (step, getattr_start(fs, change.inode)) {
            (Step::Call(call, SetAttr::Read { get }), Step::Call(own, own_get)) => call == own
                && get == own_get,
            (Step::Done(res), Step::Done(own)) => res == own,
            _ => false,
        },
    }
}

/// Whether a request stands at the first of the parts from `from` on that is asked for.
pub open spec fn goes_on(
    step: Step<SetAttr, Attributes>,
    fs: FsView,
    change: Change,
    from: Part,
) -> bool {
    let valid = change.valid;
    if from is Mode && is_wanted(Part::Mode, valid) {
        stands_at(step, fs, change, Part::Mode)
    } else if (from is Mode || from is Owner) && is_wanted(Part::Owner, valid) {
        stands_at(step, fs, change, Part::Owner)
    } else if !(from is Times || from is Read) && is_wanted(Part::Size, valid) {
        stands_at(step, fs, change, Part::Size)
    } else if !(from is Read) && is_wanted(Part::Times, valid) {
        stands_at(step, fs, change, Part::Times)
    } else {
        stands_at(step, fs, change, Part::Read)
    }
}

proof fn lemma_parts(fs: FsView, change: Change)
    ensures
        goes_on(SetAttr::to_mode(fs, change), fs, change, Part::Mode),
        goes_on(SetAttr::to_owner(fs, change), fs, change, Part::Owner),
        goes_on(SetAttr::to_size(fs, change), fs, change, Part::Size),
        goes_on(SetAttr::to_times(fs, change), fs, change, Part::Times),
        goes_on(SetAttr::to_read(fs, change), fs, change, Part::Read),
{
    lemma_chosen(change.valid);
}

/// A request changes what it asks for and nothing that it does not, in one order: the mode, the owner,
/// the size and the times. It starts with the first of them that is asked for.
pub proof fn law_change_starts_with_what_is_wanted(fs: FsView, change: Change)
    ensures
        goes_on(SetAttr::to_mode(fs, change), fs, change, Part::Mode),
{
    lemma_parts(fs, change);
}

/// A mode is changed where it is kept. Where the file has an override it is recorded there; where it has
/// none the host is asked to change it, and only where the host cannot is it recorded. Any other
/// refusal of the host ends the request. The mode is in every case the one that the request gives.
pub proof fn law_mode_is_changed_where_it_is_kept(
    change: Change,
    find: HasOverride,
    fs: FsView,
    reply: Reply,
    e: i32,
)
    requires
        find.pending().answered_by(reply),
    ensures
        ({
            let op = SetAttr::FindMode { change, find };
            let chmod = SetAttr::Chmod { change };
            let record = SetAttr::RecordMode {
                change,
                write: WriteOverride::Kind {
                    fd: change.place,
                    owner: None,
                    mode: Some(change.attr.st_mode),
                },
            };
            let cannot = e == EINVAL || e == EPERM || e == ENOTSUP || e == EOPNOTSUPP;
            &&& op.pending() == find.pending()
            &&& op.next(fs, reply).0 == fs
            &&& match (op.next(fs, reply).1, find.next(reply)) {
                (Step::Call(call, then), Step::Call(own, on)) => call == own && then
                    == (SetAttr::FindMode { change, find: on }),
                (Step::Call(call, then), Step::Done(Ok(found))) => call == then.pending() && then
                    == (if found {
                    record
                } else {
                    chmod
                }),
                (Step::Done(Err(err)), Step::Done(Err(own))) => err == own,
                _ => false,
            }
            &&& match chmod.pending() {
                Syscall::Fchmod { fd, mode } => change.open == Some(fd) && mode
                    == change.attr.st_mode,
                Syscall::FchmodAt { dir, path, mode } => change.open is None && dir
                    == change.proc_self_fd && path == Path::Fd(change.place) && mode
                    == change.attr.st_mode,
                _ => false,
            }
            &&& chmod.next(fs, Reply::Unit).0 == fs
            &&& goes_on(chmod.next(fs, Reply::Unit).1, fs, change, Part::Owner)
            &&& chmod.next(fs, Reply::Fail(e)).0 == fs
            &&& match chmod.next(fs, Reply::Fail(e)).1 {
                Step::Call(call, then) => cannot && then == record && call == then.pending(),
                Step::Done(res) => !cannot && res == Err::<Attributes, FsError>(FsError::Os(e)),
            }
        }),
{
    lemma_parts(fs, change);
}

/// A recorded mode and a recorded owner each go before what comes next, and a refusal ends the request.
pub proof fn law_record_goes_before_the_rest(
    change: Change,
    write: WriteOverride,
    fs: FsView,
    reply: Reply,
)
    requires
        write.pending().answered_by(reply),
    ensures
        ({
            let mode = SetAttr::RecordMode { change, write };
            let owner = SetAttr::RecordOwner { change, write };
            &&& mode.pending() == write.pending()
            &&& owner.pending() == write.pending()
            &&& mode.next(fs, reply).0 == fs
            &&& owner.next(fs, reply).0 == fs
            &&& match write.next(reply) {
                Step::Call(_, then) => mode.next(fs, reply).1 == (SetAttr::RecordMode {
                    change,
                    write: then,
                }).wait() && owner.next(fs, reply).1 == (SetAttr::RecordOwner {
                    change,
                    write: then,
                }).wait(),
                Step::Done(Ok(_)) => goes_on(mode.next(fs, reply).1, fs, change, Part::Owner)
                    && goes_on(owner.next(fs, reply).1, fs, change, Part::Size),
                Step::Done(Err(e)) => mode.next(fs, reply).1 == Step::<SetAttr, Attributes>::Done(
                    Err(e),
                ) && owner.next(fs, reply).1 == Step::<SetAttr, Attributes>::Done(Err(e)),
            }
        }),
{
    lemma_parts(fs, change);
}

/// A new owner is recorded for the file in the inode's place: the user that the request sets and the
/// group that it sets, and for one that it does not set the number that names nobody. With them goes
/// the mode that the guest saw, less the set-id bits, just where it had any.
pub proof fn law_new_owner_is_recorded(
    change: Change,
    stat: StatFile,
    fs: FsView,
    reply: Reply,
)
    requires
        stat.pending().answered_by(reply),
    ensures
        ({
            let op = SetAttr::ReadMode { change, stat };
            let valid = change.valid;
            &&& op.pending() == stat.pending()
            &&& op.next(fs, reply).0 == fs
            &&& match (op.next(fs, reply).1, stat.next(reply)) {
                (Step::Call(call, then), Step::Call(own, on)) => call == own && then
                    == (SetAttr::ReadMode { change, stat: on }),
                (Step::Call(call, then), Step::Done(Ok(st))) => {
                    &&& call == then.pending()
                    &&& then matches SetAttr::RecordOwner { change: own, write }
                    &&& own == change
                    &&& write matches WriteOverride::Kind { fd, owner: Some((uid, gid)), mode }
                    &&& fd == change.place
                    &&& uid == (if valid & SET_UID != 0 {
                        change.attr.st_uid
                    } else {
                        u32::MAX
                    })
                    &&& gid == (if valid & SET_GID != 0 {
                        change.attr.st_gid
                    } else {
                        u32::MAX
                    })
                    &&& mode is Some <==> st.st_mode & S_ISUID != 0 || st.st_mode & S_ISGID != 0
                    &&& mode matches Some(mode) ==> mode == st.st_mode & !(S_ISUID | S_ISGID)
                },
                (Step::Done(Err(err)), Step::Done(Err(own))) => err == own,
                _ => false,
            }
        }),
{
    lemma_chosen(change.valid);
    if let Step::Done(Ok(st)) = stat.next(reply) {
        let mode = st.st_mode;
        assert(mode & !(0o4000u32 | 0o2000u32) != mode <==> mode & 0o4000u32 != 0 || mode & 0o2000u32
            != 0) by (bit_vector);
    }
}

/// The size is changed to the one that the request gives, of the file that the client has open or else
/// of one that is opened for it, for reading and writing, and then to be closed.
pub proof fn law_size_is_changed_as_given(
    change: Change,
    fs: FsView,
    fd: RawFd,
    opened: bool,
    opening: Opening,
    e: i32,
)
    ensures
        ({
            let op = SetAttr::Truncate { change, fd, opened };
            let open = SetAttr::OpenToTruncate { change, opening };
            let after = FsView {
                released: if opened {
                    fs.released.push(fd)
                } else {
                    fs.released
                },
                ..fs
            };
            &&& open.next(fs, Reply::Fd(fd)).0 == fs
            &&& open.next(fs, Reply::Fd(fd)).1 == (SetAttr::Truncate {
                change,
                fd,
                opened: true,
            }).wait()
            &&& open.next(fs, Reply::Fail(e)).0 == fs
            &&& open.next(fs, Reply::Fail(e)).1 == Step::<SetAttr, Attributes>::Done(
                Err(FsError::Os(e)),
            )
            &&& op.pending() == (Syscall::Ftruncate { fd, size: change.attr.st_size })
            &&& op.next(fs, Reply::Unit).0 == after
            &&& goes_on(op.next(fs, Reply::Unit).1, after, change, Part::Times)
            &&& op.next(fs, Reply::Fail(e)).0 == after
            &&& op.next(fs, Reply::Fail(e)).1 == Step::<SetAttr, Attributes>::Done(
                Err(FsError::Os(e)),
            )
        }),
{
    lemma_parts(fs, change);
    lemma_parts(fs.releasing(fd), change);
}

/// A file that is opened so that its size can be changed can be read and written to.
pub proof fn law_size_is_changed_of_a_writable_file(fs: FsView, change: Change)
    requires
        change.valid & SET_SIZE != 0,
        change.open is None,
        fs.inodes.contains_key(change.inode),
        fs.machine.o_nofollow & (O_CLOEXEC | O_ACCMODE | O_APPEND) == 0,
    ensures
        ({
            &&& SetAttr::to_size(fs, change) matches Step::Call(call, _)
            &&& call matches Syscall::OpenAt { flags, .. }
            &&& flags & O_ACCMODE == O_RDWR
        }),
{
    lemma_chosen(change.valid);
    law_open_flags(fs.machine, fs.writeback, O_NONBLOCK | O_RDWR);
    assert((0o4000i32 | 2) & 3 == 2) by (bit_vector);
}

/// Once the times are set, and once there is nothing more to change, the attributes are read that the
/// client is told.
pub proof fn law_change_ends_with_the_attributes(
    change: Change,
    get: GetAttr,
    fs: FsView,
    reply: Reply,
    e: i32,
)
    requires
        get.pending().answered_by(reply),
    ensures
        ({
            let times = SetAttr::Times { change };
            let read = SetAttr::Read { get };
            &&& times.next(fs, Reply::Unit).0 == fs
            &&& goes_on(times.next(fs, Reply::Unit).1, fs, change, Part::Read)
            &&& times.next(fs, Reply::Fail(e)).0 == fs
            &&& times.next(fs, Reply::Fail(e)).1 == Step::<SetAttr, Attributes>::Done(
                Err(FsError::Os(e)),
            )
            &&& read.pending() == get.pending()
            &&& read.next(fs, reply).0 == fs
            &&& match (read.next(fs, reply).1, get.next(reply)) {
                (Step::Call(call, then), Step::Call(own, on)) => call == own && then
                    == (SetAttr::Read { get: on }),
                (Step::Done(res), Step::Done(own)) => res == own,
                _ => false,
            }
        }),
{
    lemma_parts(fs, change);
}

/// A check is one of the caller, the inode and the wish that it is asked about.
pub proof fn law_check_is_of_the_caller_and_the_inode(
    fs: FsView,
    ctx: Context,
    inode: Inode,
    place: RawFd,
    mask: u32,
    gids: Vec<u32>,
)
    requires
        fs.has_place(inode, place),
    ensures
        ({
            &&& access_start(fs, ctx, inode, mask, gids) matches Step::Call(call, op)
            &&& call == (Syscall::FstatAt { fd: place, flags: AT_ITSELF })
            &&& op.ctx == ctx
            &&& op.mask == mask
            &&& op.gids == gids
            &&& op.stat == (StatFile::Host {
                fd: place,
                host_uid: fs.my_uid,
                host_gid: fs.my_gid,
            })
        }),
{
}

/// Of an inode that the client does not know no attributes are read, judged by, recorded or changed, and
/// none are changed through a handle that it has not.
pub proof fn law_nothing_is_changed_without_an_inode(
    fs: FsView,
    inode: Inode,
    attr: Stat,
    handle: Option<Handle>,
    valid: u32,
    ctx: Context,
    mask: u32,
    gids: Vec<u32>,
)
    requires
        !fs.inodes.contains_key(inode) || (handle matches Some(handle) && (
        !fs.handles.contains_key(handle) || fs.handles[handle].inode != inode)),
    ensures
        setattr_start(fs, inode, attr, handle, valid) matches Step::Done(Err(e)) && e == FsError::Os(
            EBADF,
        ),
        !fs.inodes.contains_key(inode) ==> {
            &&& getattr_start(fs, inode) matches Step::Done(Err(unread))
            &&& unread == FsError::Os(EBADF)
            &&& access_start(fs, ctx, inode, mask, gids) matches Step::Done(Err(unjudged))
            &&& unjudged == FsError::Os(EBADF)
            &&& metadata_start(fs, inode, ctx.uid, ctx.gid, None) matches Step::Done(Err(unmade))
            &&& unmade == FsError::Os(EBADF)
        },
{
}

/// The choices of a request are told apart: each is one bit, in the place that the protocol gives it.
pub proof fn law_choices_are_bits_of_the_protocol()
    ensures
        SET_MODE == 1 && SET_UID == 2 && SET_GID == 4 && SET_SIZE == 8,
        SET_ATIME == 16 && SET_MTIME == 32 && SET_ATIME_NOW == 128 && SET_MTIME_NOW == 256,
        SETUPMAPPING_WRITE == 1 && ATTR_SUBMOUNT == 1,
{
}

} // verus!
