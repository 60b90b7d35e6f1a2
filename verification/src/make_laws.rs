//! How a file is made: what the host is asked for, part by part, and what the client then has.

use crate::abi::{
    AT_ITSELF, EBADF, OPEN_DIRECT_IO, OPEN_KEEP_CACHE, O_CLOEXEC, O_CREAT, O_PATH, S_ISGID,
};
use crate::attr::{creation, PrepareCreate};
use crate::config::CachePolicy;
use crate::create::{create_start, Create, Created, Job, NewFile};
use crate::data_laws::{gains_handle, uses_file};
use crate::fs::{FsView, INIT_INODE};
use crate::lookup::Lookup;
use crate::metadata::{StatFile, WriteOverride};
use crate::model::{Entry, FsError, Machine, RawFd};
use crate::step::{call_bytes, just_name, CarriedBytes, Path, Reply, Step, Syscall};
use vstd::prelude::*;

verus! {

/// Whether `made` has just those bits of `mode` that `umask` lets through.
pub open spec fn lets_through(made: u32, mode: u32, umask: u32) -> bool {
    made & umask == 0 && made | (mode & umask) == mode
}

/// Whether a directory is made with the mode that is asked for: with the bits that the mask lets
/// through, and as a set-group-id directory if it comes of one.
pub open spec fn is_directory_mode(made: u32, mode: u32, umask: u32, inherits: bool) -> bool {
    if inherits {
        made & S_ISGID == S_ISGID && lets_through(
            made & !S_ISGID,
            mode & !S_ISGID,
            umask & !S_ISGID,
        )
    } else {
        lets_through(made, mode, umask)
    }
}

/// Whether a call asks the host to make what is asked for, in the directory `dir`. A node gets its
/// device. A file is made and opened with the client's flags; it is made unless it is there, a link is
/// not followed, child processes do not get it, and only the part of the mask that is about permissions
/// counts.
pub open spec fn asks_for(
    call: Syscall,
    machine: Machine,
    what: NewFile,
    inherits: bool,
    dir: RawFd,
) -> bool {
    match (what, call) {
        (NewFile::Dir { mode, umask }, Syscall::MkdirAt { dir: at, mode: made }) => at == dir
            && is_directory_mode(made, mode, umask, inherits),
        (
            NewFile::Node { mode, rdev, umask },
            Syscall::MknodAt { dir: at, mode: made, rdev: device },
        ) => at == dir && lets_through(made, mode, umask) && device == rdev,
        (
            NewFile::File { mode, flags, umask, .. },
            Syscall::OpenAt { dir: at, path, flags: how, mode: made },
        ) => {
            let own = O_CREAT | O_CLOEXEC | machine.o_nofollow;
            at == dir && path == Path::Name && lets_through(made, mode, umask & 0o777) && how & own
                == own && how & !own == flags as i32 & !own
        },
        (NewFile::Link, Syscall::SymlinkAt { dir: at }) => at == dir,
        _ => false,
    }
}

proof fn lemma_asks_for(machine: Machine, what: NewFile, inherits: bool, dir: RawFd)
    ensures
        asks_for(what.make(machine, inherits, dir), machine, what, inherits, dir),
{
    match what {
        NewFile::Dir { mode, umask } => {
            lemma_lets_through(mode, umask);
        },
        NewFile::Node { mode, umask, .. } => {
            lemma_lets_through(mode, umask);
        },
        NewFile::File { mode, umask, flags, .. } => {
            lemma_lets_through(mode, umask & 0o777);
            let asked = flags as i32;
            let link = machine.o_nofollow;
            assert((asked | 0o100 | 0o2000000 | link) & (0o100i32 | 0o2000000 | link) == 0o100i32
                | 0o2000000 | link && (asked | 0o100 | 0o2000000 | link) & !(0o100i32 | 0o2000000
                | link) == asked & !(0o100i32 | 0o2000000 | link)) by (bit_vector);
        },
        NewFile::Link => {},
    }
}

proof fn lemma_lets_through(mode: u32, umask: u32)
    ensures
        lets_through(mode & !umask, mode, umask),
        is_directory_mode(mode & !umask, mode, umask, false),
        is_directory_mode((mode & !umask) | S_ISGID, mode, umask, true),
{
    assert((mode & !umask) & umask == 0 && (mode & !umask) | (mode & umask) == mode && ((mode
        & !umask) | 0o2000u32) & 0o2000u32 == 0o2000u32 && (((mode & !umask) | 0o2000u32)
        & !0o2000u32) & (umask & !0o2000u32) == 0 && (((mode & !umask) | 0o2000u32) & !0o2000u32) | (
    (mode & !0o2000u32) & (umask & !0o2000u32)) == mode & !0o2000u32) by (bit_vector);
}

/// Whether a request stands at the making of its file: the host is asked for it in the place of the
/// directory that is named, which the client must know.
pub open spec fn is_making(
    step: Step<Create, Created>,
    fs: FsView,
    job: Job,
    gid: u32,
    inherits: bool,
) -> bool {
    if fs.inodes.contains_key(job.parent) {
        let dir = fs.inodes[job.parent].1.fd;
        &&& step matches Step::Call(call, op)
        &&& op == (Create::Make { job, gid, inherits, dir })
        &&& asks_for(call, job.machine, job.what, inherits, dir)
    } else {
        step == Step::<Create, Created>::Done(Err(FsError::Os(EBADF)))
    }
}

/// The state with a file that may be open queued to be closed.
pub open spec fn closing(fs: FsView, file: Option<RawFd>) -> FsView {
    match file {
        Some(fd) => FsView { released: fs.released.push(fd), ..fs },
        None => fs,
    }
}

/// Whether a request stands at the lookup of the file that it made, in the directory that it made it
/// in.
pub open spec fn is_finding(
    at: (FsView, Step<Create, Created>),
    fs: FsView,
    job: Job,
    gid: u32,
    inherits: bool,
    file: Option<RawFd>,
) -> bool {
    if fs.inodes.contains_key(job.parent) {
        let parent = fs.inodes[job.parent].1;
        let flags = O_PATH | fs.machine.o_nofollow | O_CLOEXEC;
        &&& at.0 == fs
        &&& at.1 matches Step::Call(call, op)
        &&& call == (Syscall::OpenAt { dir: parent.fd, path: Path::Name, flags, mode: 0 })
        &&& op == (Create::Find {
            job,
            gid,
            inherits,
            file,
            lookup: Lookup::Open { parent, flags },
        })
    } else {
        at == (closing(fs, file), Step::<Create, Created>::Done(Err(FsError::Os(EBADF))))
    }
}

/// Whether a request stands at the recording of the owner of its file, in the place of the inode that
/// was found: the maker, and the group that was chosen. The mode of a directory is recorded too.
pub open spec fn is_recording(
    at: (FsView, Step<Create, Created>),
    fs: FsView,
    job: Job,
    gid: u32,
    inherits: bool,
    file: Option<RawFd>,
    entry: Entry,
) -> bool {
    if fs.inodes.contains_key(entry.inode) {
        let place = fs.inodes[entry.inode].1.fd;
        &&& at.0 == fs
        &&& at.1 matches Step::Call(call, op)
        &&& call == (Syscall::FstatAt { fd: place, flags: AT_ITSELF })
        &&& op matches Create::Record { entry: own, file: kept, write }
        &&& own == entry
        &&& kept == file
        &&& write matches WriteOverride::Kind { fd, owner, mode: recorded }
        &&& fd == place
        &&& owner == Some((job.ctx.uid, gid))
        &&& match (job.what, recorded) {
            (NewFile::Dir { mode, umask }, Some(made)) => is_directory_mode(
                made,
                mode,
                umask,
                inherits,
            ),
            (NewFile::Dir { .. }, None) => false,
            (_, recorded) => recorded is None,
        }
    } else {
        at == (closing(fs, file), Step::<Create, Created>::Done(Err(FsError::Os(EBADF))))
    }
}

/// Whether a request stands at the last reading of attributes, those of the inode that was found.
pub open spec fn is_showing(
    at: (FsView, Step<Create, Created>),
    fs: FsView,
    file: Option<RawFd>,
    entry: Entry,
) -> bool {
    if fs.inodes.contains_key(entry.inode) {
        let place = fs.inodes[entry.inode].1.fd;
        let stat = StatFile::Host { fd: place, host_uid: fs.my_uid, host_gid: fs.my_gid };
        &&& at.0 == fs
        &&& at.1 matches Step::Call(call, op)
        &&& call == (Syscall::FstatAt { fd: place, flags: AT_ITSELF })
        &&& op == (Create::Refresh { entry, file, stat })
    } else {
        at == (closing(fs, file), Step::<Create, Created>::Done(Err(FsError::Os(EBADF))))
    }
}

/// Before anything is made the attributes of the directory are read, as the guest sees them.
pub proof fn law_making_starts_with_the_directory(fs: FsView, job: Job, gids: Vec<u32>, dir: RawFd)
    requires
        fs.has_place(job.parent, dir),
    ensures
        ({
            &&& create_start(fs, job, gids) matches Step::Call(call, op)
            &&& call == (Syscall::FstatAt { fd: dir, flags: AT_ITSELF })
            &&& op == (Create::Prepare {
                job,
                prepare: PrepareCreate {
                    ctx: job.ctx,
                    gids,
                    stat: StatFile::Host { fd: dir, host_uid: fs.my_uid, host_gid: fs.my_gid },
                },
            })
        }),
{
}

/// Once they are read the file is made, if its maker may. A maker whose privileges are to go loses them
/// first. What was refused, or could not be read, is not made.
pub proof fn law_file_is_made_once_its_maker_may(
    job: Job,
    prepare: PrepareCreate,
    gid: u32,
    fs: FsView,
    reply: Reply,
    held: bool,
    e: i32,
)
    requires
        prepare.pending().answered_by(reply),
    ensures
        ({
            let op = Create::Prepare { job, prepare };
            let drop = Create::DropPriv { job, gid };
            let (after, step) = op.next(fs, reply);
            &&& op.pending() == prepare.stat.pending()
            &&& after == fs
            &&& match prepare.stat.next(reply) {
                Step::Call(call, stat) => step == Step::<Create, Created>::Call(
                    call,
                    Create::Prepare { job, prepare: PrepareCreate { stat, ..prepare } },
                ),
                Step::Done(Err(e)) => step == Step::<Create, Created>::Done(Err(e)),
                Step::Done(Ok(st)) => match creation(fs, prepare.ctx, prepare.gids@, st) {
                    Err(e) => step == Step::<Create, Created>::Done(Err(e)),
                    Ok((gid, inherits)) => match step {
                        Step::Call(Syscall::DropFsetid, then) => job.what is File
                            && job.what->File_kill_priv && then == (Create::DropPriv { job, gid }),
                        _ => !(job.what is File && job.what->File_kill_priv) && is_making(
                            step,
                            fs,
                            job,
                            gid,
                            inherits,
                        ),
                    },
                },
            }
            &&& drop.pending() == Syscall::DropFsetid
            &&& drop.next(fs, Reply::Held(held)).0 == fs
            &&& is_making(drop.next(fs, Reply::Held(held)).1, fs, job, gid, false)
            &&& drop.next(fs, Reply::Fail(e)) == (
                fs,
                Step::<Create, Created>::Done(Err(FsError::Os(e))),
            )
        }),
{
    let dir = fs.inodes[job.parent].1.fd;
    lemma_asks_for(job.machine, job.what, true, dir);
    lemma_asks_for(job.machine, job.what, false, dir);
}

/// The host is handed the name of the new file, and for a link its text before its name.
pub proof fn law_new_file_gets_its_name(
    machine: Machine,
    what: NewFile,
    inherits: bool,
    dir: RawFd,
    name: Seq<u8>,
    text: Seq<u8>,
)
    ensures
        ({
            let call = what.make(machine, inherits, dir);
            let link = CarriedBytes { name, other: text, value: Seq::empty() };
            &&& !(what is Link) ==> call_bytes(call, just_name(name)).0 == name
            &&& what is Link ==> call_bytes(call, link) == (text, name)
        }),
{
}

/// A file that was made is looked up, with what the host opened for the request if it opened it. A link
/// is first opened, as a place in the tree, in the directory that it was made in. What the host could
/// not make ends the request, with nothing changed.
pub proof fn law_made_file_is_looked_up(
    job: Job,
    gid: u32,
    inherits: bool,
    dir: RawFd,
    fs: FsView,
    fd: RawFd,
    e: i32,
)
    ensures
        ({
            let op = Create::Make { job, gid, inherits, dir };
            let flags = O_PATH | job.machine.o_nofollow | O_CLOEXEC;
            &&& asks_for(op.pending(), job.machine, job.what, inherits, dir)
            &&& op.next(fs, Reply::Fail(e)) == (
                fs,
                Step::<Create, Created>::Done(Err(FsError::Os(e))),
            )
            &&& is_finding(op.next(fs, Reply::Fd(fd)), fs, job, gid, inherits, Some(fd))
            &&& !(job.what is Link) ==> is_finding(
                op.next(fs, Reply::Unit),
                fs,
                job,
                gid,
                inherits,
                None,
            )
            &&& job.what is Link ==> op.next(fs, Reply::Unit) == (
                fs,
                Step::<Create, Created>::Call(
                    Syscall::OpenAt { dir, path: Path::Name, flags, mode: 0 },
                    Create::OpenLink { job, gid, dir },
                ),
            )
        }),
{
    lemma_asks_for(job.machine, job.what, inherits, dir);
}

/// A new link, once it is open, is given to its owner on the host: to its maker and the group that was
/// chosen, where this process may act as any user and group, and to this process where it may not.
/// Then its file is to be closed, and it is looked up.
pub proof fn law_new_link_is_given_to_its_owner(
    job: Job,
    gid: u32,
    dir: RawFd,
    fs: FsView,
    fd: RawFd,
    owner: (u32, u32),
)
    ensures
        ({
            let open = Create::OpenLink { job, gid, dir };
            let own = Create::OwnLink { job, gid, dir, fd, owner };
            let closed = FsView { released: fs.released.push(fd), ..fs };
            &&& open.next(fs, Reply::Fd(fd)).0 == fs
            &&& open.next(fs, Reply::Fd(fd)).1 matches Step::Call(call, then)
            &&& call matches Syscall::FchownAt { fd: of, uid, gid: group, flags }
            &&& of == fd
            &&& fs.my_uid is None ==> uid == job.ctx.uid
            &&& fs.my_uid matches Some(mine) ==> uid == mine
            &&& fs.my_gid is None ==> group == gid
            &&& fs.my_gid matches Some(mine) ==> group == mine
            &&& flags == AT_ITSELF
            &&& then == (Create::OwnLink { job, gid, dir, fd, owner: (uid, group) })
            &&& is_finding(own.next(fs, Reply::Unit), closed, job, gid, false, None)
        }),
{
}

/// A file that was found is recorded as its maker's; a link, which can hold no override, is not. A
/// lookup that fails closes what was opened and ends the request.
pub proof fn law_found_file_is_recorded(
    job: Job,
    gid: u32,
    inherits: bool,
    file: Option<RawFd>,
    lookup: Lookup,
    fs: FsView,
    reply: Reply,
)
    requires
        lookup.pending().answered_by(reply),
    ensures
        ({
            let op = Create::Find { job, gid, inherits, file, lookup };
            let (found, step) = lookup.next(fs, reply);
            let at = op.next(fs, reply);
            &&& op.pending() == lookup.pending()
            &&& match step {
                Step::Call(call, then) => at == (
                    found,
                    Step::<Create, Created>::Call(
                        call,
                        Create::Find { job, gid, inherits, file, lookup: then },
                    ),
                ),
                Step::Done(Err(e)) => at == (
                    closing(found, file),
                    Step::<Create, Created>::Done(Err(e)),
                ),
                Step::Done(Ok(entry)) => if job.what is Link {
                    is_showing(at, found, file, entry)
                } else {
                    is_recording(at, found, job, gid, inherits, file, entry)
                },
            }
        }),
{
    if let NewFile::Dir { mode, umask } = job.what {
        lemma_lets_through(mode, umask);
    }
}

/// A file that was recorded has its attributes read again. A record that fails closes what was opened
/// and ends the request.
pub proof fn law_recorded_file_is_read_again(
    entry: Entry,
    file: Option<RawFd>,
    write: WriteOverride,
    fs: FsView,
    reply: Reply,
)
    requires
        write.pending().answered_by(reply),
    ensures
        ({
            let op = Create::Record { entry, file, write };
            let at = op.next(fs, reply);
            &&& op.pending() == write.pending()
            &&& match write.next(reply) {
                Step::Call(call, then) => at == (
                    fs,
                    Step::<Create, Created>::Call(
                        call,
                        Create::Record { entry, file, write: then },
                    ),
                ),
                Step::Done(Err(e)) => at == (
                    closing(fs, file),
                    Step::<Create, Created>::Done(Err(e)),
                ),
                Step::Done(Ok(_)) => is_showing(at, fs, file, entry),
            }
        }),
{
}

/// The client is told of the file as it was found, with the attributes that were read last. A file that
/// was opened is then the client's: as a file of the inode that it is told, under the handle that it is
/// told, and it is the very file that the host opened. One that was not opened has no handle.
pub proof fn law_new_file_is_handed_over(
    entry: Entry,
    file: Option<RawFd>,
    stat: StatFile,
    fs: FsView,
    reply: Reply,
)
    requires
        stat.pending().answered_by(reply),
    ensures
        ({
            let op = Create::Refresh { entry, file, stat };
            let (after, step) = op.next(fs, reply);
            &&& op.pending() == stat.pending()
            &&& match stat.next(reply) {
                Step::Call(call, then) => after == fs && step == Step::<Create, Created>::Call(
                    call,
                    Create::Refresh { entry, file, stat: then },
                ),
                Step::Done(Err(e)) => after == closing(fs, file) && step == Step::<
                    Create,
                    Created,
                >::Done(Err(e)),
                Step::Done(Ok(attr)) => {
                    &&& step matches Step::Done(Ok((told, handle, options)))
                    &&& told.attr == attr
                    &&& told.inode == entry.inode
                    &&& told.generation == entry.generation
                    &&& told.attr_flags == entry.attr_flags
                    &&& told.attr_timeout == entry.attr_timeout
                    &&& told.entry_timeout == entry.entry_timeout
                    &&& match (file, handle) {
                        (Some(fd), Some(handle)) => {
                            &&& gains_handle(fs, after, told.inode, handle, fd)
                            &&& options == (match fs.cfg.cache_policy {
                                CachePolicy::Never => OPEN_DIRECT_IO,
                                CachePolicy::Auto => 0,
                                CachePolicy::Always => OPEN_KEEP_CACHE,
                            })
                        },
                        (None, None) => after == fs && options == 0,
                        _ => false,
                    }
                },
            }
        }),
{
}

/// However a request that makes a file ends: where it ends with a handle, that handle is one of the
/// inode that the client is told, in the state after it, and stands for the file that the request had
/// open; and where it ends without one, it had no file open and no handle has changed.
pub proof fn law_handle_is_of_the_new_file(op: Create, fs: FsView, reply: Reply)
    requires
        op.pending().answered_by(reply),
        op.next(fs, reply).1 matches Step::Done(Ok(_)),
    ensures
        ({
            let (after, step) = op.next(fs, reply);
            &&& step matches Step::Done(Ok((entry, handle, _)))
            &&& match handle {
                Some(handle) => {
                    &&& after.find_handle(entry.inode, handle) matches Ok(data)
                    &&& op.holds(data.fd)
                    &&& gains_handle(fs, after, entry.inode, handle, data.fd)
                },
                None => after.handles == fs.handles && forall|fd: RawFd| !#[trigger] op.holds(fd),
            }
        }),
{
}

/// What a request that makes a file has open is what the host opened to make it, from then to its end:
/// no step exchanges it for another, and a request that opened nothing has nothing.
pub proof fn law_request_keeps_the_file_it_opened(op: Create, fs: FsView, reply: Reply)
    requires
        op.pending().answered_by(reply),
    ensures
        op.next(fs, reply).1 matches Step::Call(_, then) ==> opened_by(then) == (match (op, reply) {
            (Create::Make { .. }, Reply::Fd(fd)) => Some(fd),
            _ => opened_by(op),
        }),
{
}

/// The file that a request opened when it made it.
pub open spec fn opened_by(op: Create) -> Option<RawFd> {
    match op {
        Create::Find { file, .. } => file,
        Create::Record { file, .. } => file,
        Create::Refresh { file, .. } => file,
        _ => None,
    }
}

/// The handle that comes with a new file leads the requests of the client, for the inode that it is
/// told, to the file that the host opened to make it.
pub proof fn law_new_file_is_the_one_used(
    entry: Entry,
    fd: RawFd,
    stat: StatFile,
    fs: FsView,
    reply: Reply,
    size: u32,
    offset: u64,
)
    requires
        entry.inode != INIT_INODE,
        stat.pending().answered_by(reply),
        stat.next(reply) matches Step::Done(Ok(_)),
    ensures
        ({
            let (after, step) = (Create::Refresh { entry, file: Some(fd), stat }).next(fs, reply);
            &&& step matches Step::Done(Ok((told, Some(handle), _)))
            &&& uses_file(after, told.inode, handle, fd, size, offset)
        }),
{
}

} // verus!
