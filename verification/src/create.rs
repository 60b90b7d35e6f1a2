//! Making files, directories, nodes and symbolic links.
//!
//! The host makes the file as the user of this process. What the guest is to see as its owner and
//! mode is recorded beside it, or, for a link, in its owner on the host.

use crate::abi::{
    AT_ITSELF, EACCES, OPEN_DIRECT_IO, OPEN_KEEP_CACHE, O_CLOEXEC, O_CREAT, S_ISGID,
};
use crate::access::{grants, inherits, CREATE_ACCESS};
use crate::attr::{creation, metadata_start, prepare_start, stat_start, PrepareCreate};
use crate::config::CachePolicy;
use crate::fs::{FsView, PassthroughFs};
use crate::fs_laws::{law_handles_account_for_files, lemma_release_holds};
use crate::lookup::{law_lookup_step_accounts_for_files, lookup_start, Lookup};
use crate::metadata::{stat, StatFile, WriteOverride};
use crate::model::{Context, Entry, Extensions, FsError, Handle, Inode, Machine, RawFd, Stat};
use crate::override_stat::{merged, seen, OverrideStat, UID_MAX};
use crate::scoped::{scope, scoped, Scoped};
use crate::step::{
    bare, carries, carry, copied, just_name, Carried, CarriedBytes, Carrying, Path, Reply, Step,
    Syscall,
};
use vstd::pervasive::unreached;
use vstd::prelude::*;

verus! {

/// What is to be made.
#[allow(inconsistent_fields)]
#[derive(Clone, Copy, Debug, PartialEq, Eq)]
pub enum NewFile {
    Dir { mode: u32, umask: u32 },
    Node { mode: u32, rdev: u32, umask: u32 },
    File { mode: u32, kill_priv: bool, flags: u32, umask: u32 },
    Link,
}

/// Who makes what, and where.
#[derive(Clone, Copy, Debug, PartialEq, Eq)]
pub struct Job {
    pub ctx: Context,
    pub parent: Inode,
    /// The machine on which it is made.
    pub machine: Machine,
    pub what: NewFile,
}

/// The new entry, and for a file that is opened too its handle and what the client is told about
/// caching.
pub type Created = (Entry, Option<Handle>, u32);

/// Serves a request that makes a file.
#[allow(inconsistent_fields)]
#[derive(Debug)]
pub enum Create {
    /// Reads the attributes of the directory.
    Prepare { job: Job, prepare: PrepareCreate },
    DropPriv { job: Job, gid: u32 },
    Make { job: Job, gid: u32, inherits: bool, dir: RawFd },
    /// Opens the new link.
    OpenLink { job: Job, gid: u32, dir: RawFd },
    /// Gives the new link to its owner.
    OwnLink { job: Job, gid: u32, dir: RawFd, fd: RawFd, owner: (u32, u32) },
    /// Removes the new link after `error`.
    UndoLink { dir: RawFd, error: i32 },
    Find { job: Job, gid: u32, inherits: bool, file: Option<RawFd>, lookup: Lookup },
    /// Records the owner and mode.
    Record { entry: Entry, file: Option<RawFd>, write: WriteOverride },
    /// Reads the attributes again, now as they were recorded.
    Refresh { entry: Entry, file: Option<RawFd>, stat: StatFile },
}

impl NewFile {
    /// The mode that the host is asked for. A directory in a set-group-id directory is one too.
    pub open spec fn create_mode(self, inherits: bool) -> u32 {
        match self {
            NewFile::Dir { mode, umask } => if inherits {
                (mode & !umask) | S_ISGID
            } else {
                mode & !umask
            },
            NewFile::Node { mode, umask, .. } => mode & !umask,
            NewFile::File { mode, umask, .. } => mode & !(umask & 0o777),
            NewFile::Link => 0,
        }
    }

    /// The mode that is recorded for the guest; `None` keeps that of the host.
    pub open spec fn recorded_mode(self, inherits: bool) -> Option<u32> {
        if self is Dir {
            Some(self.create_mode(inherits))
        } else {
            None
        }
    }

    /// The call that makes the file in the directory `dir`.
    pub open spec fn make(self, machine: Machine, inherits: bool, dir: RawFd) -> Syscall {
        let mode = self.create_mode(inherits);
        match self {
            NewFile::Dir { .. } => Syscall::MkdirAt { dir, mode },
            NewFile::Node { rdev, .. } => Syscall::MknodAt { dir, mode, rdev: rdev as u64 },
            NewFile::File { flags, .. } => Syscall::OpenAt {
                dir,
                path: Path::Name,
                flags: flags as i32 | O_CREAT | O_CLOEXEC | machine.o_nofollow,
                mode,
            },
            NewFile::Link => Syscall::SymlinkAt { dir },
        }
    }

    fn mode_for(self, inherits: bool) -> (mode: u32)
        ensures
            mode == self.create_mode(inherits),
    {
        match self {
            NewFile::Dir { mode, umask } => {
                let mut create_mode: u32 = mode & !umask;
                if inherits {
                    create_mode = create_mode | S_ISGID;
                }
                create_mode
            },
            NewFile::Node { mode, rdev: _, umask } => mode & !umask,
            NewFile::File { mode, kill_priv: _, flags: _, umask } => mode & !(umask & 0o777),
            NewFile::Link => 0,
        }
    }

    fn make_call(self, machine: Machine, inherits: bool, dir: RawFd) -> (call: Syscall)
        ensures
            call == self.make(machine, inherits, dir),
    {
        let mode: u32 = self.mode_for(inherits);
        match self {
            NewFile::Dir { mode: _, umask: _ } => Syscall::MkdirAt { dir, mode },
            NewFile::Node { mode: _, rdev, umask: _ } => Syscall::MknodAt {
                dir,
                mode,
                rdev: rdev as u64,
            },
            NewFile::File { mode: _, kill_priv: _, flags, umask: _ } => Syscall::OpenAt {
                dir,
                path: Path::Name,
                flags: #[verifier::truncate]
                (flags as i32) | O_CREAT | O_CLOEXEC | machine.o_nofollow,
                mode,
            },
            NewFile::Link => Syscall::SymlinkAt { dir },
        }
    }
}

/// What the client is told about caching a file that it created.
pub open spec fn create_options(policy: CachePolicy) -> u32 {
    match policy {
        CachePolicy::Never => OPEN_DIRECT_IO,
        CachePolicy::Auto => 0,
        CachePolicy::Always => OPEN_KEEP_CACHE,
    }
}

/// The owner that a new link gets on the host, which the guest will see: the user of this process,
/// seen as root, where this process cannot act as another.
pub open spec fn link_owner(fs: FsView, job: Job, gid: u32) -> (u32, u32) {
    (
        match fs.my_uid {
            Some(uid) => uid,
            None => job.ctx.uid,
        },
        match fs.my_gid {
            Some(gid) => gid,
            None => gid,
        },
    )
}

impl Create {
    /// Whether this request has the file `fd` open.
    pub open spec fn holds(self, fd: RawFd) -> bool {
        match self {
            Create::OwnLink { fd: own, .. } => own == fd,
            Create::Find { file, lookup, .. } => file == Some(fd) || lookup.holds(fd),
            Create::Record { file, .. } => file == Some(fd),
            Create::Refresh { file, .. } => file == Some(fd),
            _ => false,
        }
    }

    pub open spec fn pending(self) -> Syscall {
        match self {
            Create::Prepare { prepare, .. } => prepare.pending(),
            Create::DropPriv { .. } => Syscall::DropFsetid,
            Create::Make { job, inherits, dir, .. } => job.what.make(job.machine, inherits, dir),
            Create::OpenLink { job, dir, .. } => Syscall::OpenAt {
                dir,
                path: Path::Name,
                flags: job.machine.open_place(),
                mode: 0,
            },
            Create::OwnLink { fd, owner, .. } => Syscall::FchownAt {
                fd,
                uid: owner.0,
                gid: owner.1,
                flags: AT_ITSELF,
            },
            Create::UndoLink { dir, .. } => Syscall::UnlinkAt { dir, flags: 0 },
            Create::Find { lookup, .. } => lookup.pending(),
            Create::Record { write, .. } => write.pending(),
            Create::Refresh { stat, .. } => stat.pending(),
        }
    }

    pub open spec fn wait(self) -> Step<Create, Created> {
        Step::Call(self.pending(), self)
    }

    /// Gives up with a file that may be open.
    pub open spec fn fail(fs: FsView, file: Option<RawFd>, e: FsError) -> (
        FsView,
        Step<Create, Created>,
    ) {
        (fs.releasing_if(file), Step::Done(Err(e)))
    }

    /// Where the request stands once the caller may create the file and nothing is left to be
    /// prepared.
    pub open spec fn to_make(fs: FsView, job: Job, gid: u32, inherits: bool) -> Step<
        Create,
        Created,
    > {
        match fs.find_inode(job.parent) {
            Ok(data) => Create::Make { job, gid, inherits, dir: data.fd }.wait(),
            Err(e) => Step::Done(Err(e)),
        }
    }

    /// Where the request stands once the directory's attributes are known.
    pub open spec fn prepared(fs: FsView, job: Job, res: Result<(u32, bool), FsError>) -> Step<
        Create,
        Created,
    > {
        match res {
            Ok((gid, inherits)) => match job.what {
                NewFile::File { kill_priv: true, .. } => Create::DropPriv { job, gid }.wait(),
                _ => Create::to_make(fs, job, gid, inherits),
            },
            Err(e) => Step::Done(Err(e)),
        }
    }

    /// Where the request stands once the file is there, opened as `file` if it was opened.
    pub open spec fn to_find(
        fs: FsView,
        job: Job,
        gid: u32,
        inherits: bool,
        file: Option<RawFd>,
    ) -> (FsView, Step<Create, Created>) {
        match lookup_start(fs, job.parent) {
            Step::Call(_, lookup) => (
                fs,
                Create::Find { job, gid, inherits, file, lookup }.wait(),
            ),
            Step::Done(Err(e)) => Create::fail(fs, file, e),
            Step::Done(Ok(_)) => arbitrary(),
        }
    }

    /// Where the request stands once the file is found as `entry`.
    pub open spec fn to_record(
        fs: FsView,
        job: Job,
        gid: u32,
        inherits: bool,
        file: Option<RawFd>,
        entry: Entry,
    ) -> (FsView, Step<Create, Created>) {
        if job.what is Link {
            Create::to_refresh(fs, file, entry)
        } else {
            match metadata_start(
                fs,
                entry.inode,
                job.ctx.uid,
                gid,
                job.what.recorded_mode(inherits),
            ) {
                Step::Call(_, write) => (fs, Create::Record { entry, file, write }.wait()),
                Step::Done(Err(e)) => Create::fail(fs, file, e),
                Step::Done(Ok(_)) => arbitrary(),
            }
        }
    }

    /// Where the request stands once all is recorded.
    pub open spec fn to_refresh(fs: FsView, file: Option<RawFd>, entry: Entry) -> (
        FsView,
        Step<Create, Created>,
    ) {
        match stat_start(fs, entry.inode) {
            Ok(stat) => (fs, Create::Refresh { entry, file, stat }.wait()),
            Err(e) => Create::fail(fs, file, e),
        }
    }

    /// How the request ends: a file that was opened gets a handle.
    pub open spec fn finish(fs: FsView, file: Option<RawFd>, entry: Entry) -> (
        FsView,
        Step<Create, Created>,
    ) {
        match file {
            Some(fd) => (
                fs.with_handle(entry.inode, fd),
                Step::Done(
                    Ok((entry, Some(fs.next_handle), create_options(fs.cfg.cache_policy))),
                ),
            ),
            None => (fs, Step::Done(Ok((entry, None, 0)))),
        }
    }

    pub open spec fn next(self, fs: FsView, reply: Reply) -> (FsView, Step<Create, Created>) {
        match self {
            Create::Prepare { job, prepare } => match prepare.next(fs, reply) {
                Step::Call(_, prepare) => (fs, Create::Prepare { job, prepare }.wait()),
                Step::Done(res) => (fs, Create::prepared(fs, job, res)),
            },
            Create::DropPriv { job, gid } => match reply {
                Reply::Fail(e) => (fs, Step::Done(Err(FsError::Os(e)))),
                _ => (fs, Create::to_make(fs, job, gid, false)),
            },
            Create::Make { job, gid, inherits, dir } => match reply {
                Reply::Fail(e) => (fs, Step::Done(Err(FsError::Os(e)))),
                Reply::Fd(fd) => Create::to_find(fs, job, gid, inherits, Some(fd)),
                _ => if job.what is Link {
                    (fs, Create::OpenLink { job, gid, dir }.wait())
                } else {
                    Create::to_find(fs, job, gid, inherits, None)
                },
            },
            Create::OpenLink { job, gid, dir } => match reply {
                Reply::Fail(error) => (fs, Create::UndoLink { dir, error }.wait()),
                Reply::Fd(fd) => (
                    fs,
                    Create::OwnLink { job, gid, dir, fd, owner: link_owner(fs, job, gid) }.wait(),
                ),
                _ => arbitrary(),
            },
            Create::OwnLink { job, gid, dir, fd, .. } => match reply {
                Reply::Fail(error) => (
                    fs.releasing(fd),
                    Create::UndoLink { dir, error }.wait(),
                ),
                _ => Create::to_find(fs.releasing(fd), job, gid, false, None),
            },
            Create::UndoLink { error, .. } => match reply {
                Reply::Fail(rollback) => (
                    fs,
                    Step::Done(Err(FsError::SymlinkRollback { owner: error, rollback })),
                ),
                _ => (fs, Step::Done(Err(FsError::Os(error)))),
            },
            Create::Find { job, gid, inherits, file, lookup } => {
                let (fs, step) = lookup.next(fs, reply);
                match step {
                    Step::Call(_, lookup) => (
                        fs,
                        Create::Find { job, gid, inherits, file, lookup }.wait(),
                    ),
                    Step::Done(Ok(entry)) => Create::to_record(
                        fs,
                        job,
                        gid,
                        inherits,
                        file,
                        entry,
                    ),
                    Step::Done(Err(e)) => Create::fail(fs, file, e),
                }
            },
            Create::Record { entry, file, write } => match write.next(reply) {
                Step::Call(_, write) => (fs, Create::Record { entry, file, write }.wait()),
                Step::Done(Ok(_)) => Create::to_refresh(fs, file, entry),
                Step::Done(Err(e)) => Create::fail(fs, file, e),
            },
            Create::Refresh { entry, file, stat } => match stat.next(reply) {
                Step::Call(_, stat) => (fs, Create::Refresh { entry, file, stat }.wait()),
                Step::Done(Ok(attr)) => Create::finish(fs, file, Entry { attr, ..entry }),
                Step::Done(Err(e)) => Create::fail(fs, file, e),
            },
        }
    }

    fn do_make(fs: &PassthroughFs, job: Job, gid: u32, inherits: bool) -> (step: Step<
        Create,
        Created,
    >)
        ensures
            step == Create::to_make(fs@, job, gid, inherits),
    {
        match fs.inode_data(job.parent) {
            Ok(data) => Step::Call(
                job.what.make_call(job.machine, inherits, data.fd),
                Create::Make { job, gid, inherits, dir: data.fd },
            ),
            Err(e) => Step::Done(Err(e)),
        }
    }

    fn do_prepared(fs: &PassthroughFs, job: Job, gid: u32, inherits: bool) -> (step: Step<
        Create,
        Created,
    >)
        ensures
            step == Create::prepared(fs@, job, Ok((gid, inherits))),
    {
        match job.what {
            NewFile::File { mode: _, kill_priv: true, flags: _, umask: _ } => Step::Call(
                Syscall::DropFsetid,
                Create::DropPriv { job, gid },
            ),
            _ => Create::do_make(fs, job, gid, inherits),
        }
    }

    fn do_find(
        fs: &mut PassthroughFs,
        job: Job,
        gid: u32,
        inherits: bool,
        file: Option<RawFd>,
    ) -> (step: Step<Create, Created>)
        requires
            old(fs).wf(),
        ensures
            final(fs).wf(),
            (final(fs)@, step) == Create::to_find(old(fs)@, job, gid, inherits, file),
    {
        match fs.do_lookup(job.parent) {
            Step::Call(call, lookup) => Step::Call(
                call,
                Create::Find { job, gid, inherits, file, lookup },
            ),
            Step::Done(Err(e)) => {
                fs.release_if(file);
                Step::Done(Err(e))
            },
            Step::Done(Ok(_)) => unreached(),
        }
    }

    fn do_record(
        fs: &mut PassthroughFs,
        job: Job,
        gid: u32,
        inherits: bool,
        file: Option<RawFd>,
        entry: Entry,
    ) -> (step: Step<Create, Created>)
        requires
            old(fs).wf(),
        ensures
            final(fs).wf(),
            (final(fs)@, step) == Create::to_record(old(fs)@, job, gid, inherits, file, entry),
    {
        let mode: Option<u32> = match job.what {
            NewFile::Link => {
                return Create::refresh_entry_attr(fs, file, entry);
            },
            NewFile::Dir { mode: _, umask: _ } => Some(job.what.mode_for(inherits)),
            _ => None,
        };
        match fs.set_guest_metadata(entry.inode, job.ctx.uid, gid, mode) {
            Step::Call(call, write) => Step::Call(call, Create::Record { entry, file, write }),
            Step::Done(Err(e)) => {
                fs.release_if(file);
                Step::Done(Err(e))
            },
            Step::Done(Ok(_)) => unreached(),
        }
    }

    /// Starts to read the attributes of the new entry again.
    fn refresh_entry_attr(fs: &mut PassthroughFs, file: Option<RawFd>, entry: Entry) -> (step: Step<
        Create,
        Created,
    >)
        requires
            old(fs).wf(),
        ensures
            final(fs).wf(),
            (final(fs)@, step) == Create::to_refresh(old(fs)@, file, entry),
    {
        match fs.inode_data(entry.inode) {
            Ok(data) => match stat(data.fd, fs.my_uid(), fs.my_gid()) {
                Step::Call(call, stat) => Step::Call(call, Create::Refresh { entry, file, stat }),
                _ => unreached(),
            },
            Err(e) => {
                fs.release_if(file);
                Step::Done(Err(e))
            },
        }
    }

    fn do_finish(fs: &mut PassthroughFs, file: Option<RawFd>, entry: Entry) -> (step: Step<
        Create,
        Created,
    >)
        requires
            old(fs).wf(),
        ensures
            final(fs).wf(),
            (final(fs)@, step) == Create::finish(old(fs)@, file, entry),
    {
        match file {
            Some(fd) => {
                let handle: Handle = fs.add_handle(entry.inode, fd);
                let opts: u32 = match fs.cfg().cache_policy {
                    CachePolicy::Never => OPEN_DIRECT_IO,
                    CachePolicy::Always => OPEN_KEEP_CACHE,
                    CachePolicy::Auto => 0,
                };
                Step::Done(Ok((entry, Some(handle), opts)))
            },
            None => Step::Done(Ok((entry, None, 0))),
        }
    }

    pub fn resume(self, fs: &mut PassthroughFs, reply: Reply) -> (step: Step<Create, Created>)
        requires
            old(fs).wf(),
            self.pending().answered_by(reply),
        ensures
            final(fs).wf(),
            (final(fs)@, step) == self.next(old(fs)@, reply),
    {
        match self {
            Create::Prepare { job, prepare } => match prepare.resume(fs, reply) {
                Step::Call(call, prepare) => Step::Call(call, Create::Prepare { job, prepare }),
                Step::Done(Ok((gid, inherits))) => Create::do_prepared(fs, job, gid, inherits),
                Step::Done(Err(e)) => Step::Done(Err(e)),
            },
            Create::DropPriv { job, gid } => match reply {
                Reply::Fail(e) => Step::Done(Err(FsError::from_raw_os_error(e))),
                _ => Create::do_make(fs, job, gid, false),
            },
            Create::Make { job, gid, inherits, dir } => match reply {
                Reply::Fail(e) => Step::Done(Err(FsError::from_raw_os_error(e))),
                Reply::Fd(fd) => Create::do_find(fs, job, gid, inherits, Some(fd)),
                _ => match job.what {
                    NewFile::Link => Step::Call(
                        Syscall::OpenAt {
                            dir,
                            path: Path::Name,
                            flags: job.machine.open_place(),
                            mode: 0,
                        },
                        Create::OpenLink { job, gid, dir },
                    ),
                    _ => Create::do_find(fs, job, gid, inherits, None),
                },
            },
            Create::OpenLink { job, gid, dir } => match reply {
                Reply::Fail(error) => Step::Call(
                    Syscall::UnlinkAt { dir, flags: 0 },
                    Create::UndoLink { dir, error },
                ),
                Reply::Fd(fd) => {
                    let uid: u32 = fs.my_uid().unwrap_or(job.ctx.uid);
                    let group: u32 = fs.my_gid().unwrap_or(gid);
                    Step::Call(
                        Syscall::FchownAt { fd, uid, gid: group, flags: AT_ITSELF },
                        Create::OwnLink { job, gid, dir, fd, owner: (uid, group) },
                    )
                },
                _ => unreached(),
            },
            Create::OwnLink { job, gid, dir, fd, owner: _ } => {
                fs.release_fd(fd);
                match reply {
                    Reply::Fail(error) => Step::Call(
                        Syscall::UnlinkAt { dir, flags: 0 },
                        Create::UndoLink { dir, error },
                    ),
                    _ => Create::do_find(fs, job, gid, false, None),
                }
            },
            Create::UndoLink { dir: _, error } => match reply {
                Reply::Fail(rollback) => Step::Done(
                    Err(FsError::SymlinkRollback { owner: error, rollback }),
                ),
                _ => Step::Done(Err(FsError::from_raw_os_error(error))),
            },
            Create::Find { job, gid, inherits, file, lookup } => match lookup.resume(fs, reply) {
                Step::Call(call, lookup) => Step::Call(
                    call,
                    Create::Find { job, gid, inherits, file, lookup },
                ),
                Step::Done(Ok(entry)) => Create::do_record(fs, job, gid, inherits, file, entry),
                Step::Done(Err(e)) => {
                    fs.release_if(file);
                    Step::Done(Err(e))
                },
            },
            Create::Record { entry, file, write } => match write.resume(reply) {
                Step::Call(call, write) => Step::Call(call, Create::Record { entry, file, write }),
                Step::Done(Ok(())) => Create::refresh_entry_attr(fs, file, entry),
                Step::Done(Err(e)) => {
                    fs.release_if(file);
                    Step::Done(Err(e))
                },
            },
            Create::Refresh { entry, file, stat } => match stat.resume(reply) {
                Step::Call(call, stat) => Step::Call(call, Create::Refresh { entry, file, stat }),
                Step::Done(Ok(attr)) => Create::do_finish(fs, file, Entry { attr, ..entry }),
                Step::Done(Err(e)) => {
                    fs.release_if(file);
                    Step::Done(Err(e))
                },
            },
        }
    }
}

impl Carrying<Create> {
    pub fn resume(self, fs: &mut PassthroughFs, reply: Reply) -> (step: Step<
        Carrying<Create>,
        Created,
    >)
        requires
            old(fs).wf(),
            self.op.pending().answered_by(reply),
        ensures
            final(fs).wf(),
            (final(fs)@, bare(step)) == self.op.next(old(fs)@, reply),
            carries(step, self.carried@),
    {
        carry(self.op.resume(fs, reply), self.carried)
    }
}

/// How a request that makes a file starts.
pub open spec fn create_start(fs: FsView, job: Job, gids: Vec<u32>) -> Step<Create, Created> {
    match prepare_start(fs, job.ctx, job.parent, gids) {
        Step::Call(_, prepare) => Create::Prepare { job, prepare }.wait(),
        Step::Done(res) => Create::prepared(fs, job, res),
    }
}

impl PassthroughFs {
    fn start_create(&self, job: Job, extensions: Extensions) -> (step: Step<Create, Created>)
        requires
            extensions.secctx is None,
        ensures
            step == create_start(self@, job, extensions.sup_gids),
    {
        match self.prepare_create(job.ctx, job.parent, extensions.sup_gids) {
            Step::Call(call, prepare) => Step::Call(call, Create::Prepare { job, prepare }),
            Step::Done(Ok((gid, inherits))) => Create::do_prepared(self, job, gid, inherits),
            Step::Done(Err(e)) => Step::Done(Err(e)),
        }
    }

    /// Makes a directory. Security contexts are not supported.
    pub fn mkdir(
        &self,
        ctx: Context,
        parent: Inode,
        name: &[u8],
        mode: u32,
        umask: u32,
        extensions: Extensions,
    ) -> (step: Step<Carrying<Create>, Created>)
        requires
            extensions.secctx is None,
        ensures
            bare(step) == create_start(
                self@,
                (Job { ctx, parent, machine: self@.machine, what: NewFile::Dir { mode, umask } }),
                extensions.sup_gids,
            ),
            carries(step, just_name(name@)),
    {
        let step = self.start_create(
            Job { ctx, parent, machine: self.machine(), what: NewFile::Dir { mode, umask } },
            extensions,
        );
        carry(step, Carried::named(name))
    }

    /// Makes a device node, a socket, a pipe or a plain file. Security contexts are not supported.
    pub fn mknod(
        &self,
        ctx: Context,
        parent: Inode,
        name: &[u8],
        mode: u32,
        rdev: u32,
        umask: u32,
        extensions: Extensions,
    ) -> (step: Step<Carrying<Create>, Created>)
        requires
            extensions.secctx is None,
        ensures
            bare(step) == create_start(
                self@,
                (Job {
                    ctx,
                    parent,
                    machine: self@.machine,
                    what: NewFile::Node { mode, rdev, umask },
                }),
                extensions.sup_gids,
            ),
            carries(step, just_name(name@)),
    {
        let step = self.start_create(
            Job {
                ctx,
                parent,
                machine: self.machine(),
                what: NewFile::Node { mode, rdev, umask },
            },
            extensions,
        );
        carry(step, Carried::named(name))
    }

    /// Makes a file, unless it is there, and opens it. Security contexts are not supported.
    pub fn create(
        &self,
        ctx: Context,
        parent: Inode,
        name: &[u8],
        mode: u32,
        kill_priv: bool,
        flags: u32,
        umask: u32,
        extensions: Extensions,
    ) -> (step: Step<Carrying<Scoped<Create, Created>>, Created>)
        requires
            extensions.secctx is None,
        ensures
            bare(step) == scoped(
                create_start(
                    self@,
                    (Job {
                        ctx,
                        parent,
                        machine: self@.machine,
                        what: NewFile::File { mode, kill_priv, flags, umask },
                    }),
                    extensions.sup_gids,
                ),
                false,
            ),
            carries(step, just_name(name@)),
    {
        let step = self.start_create(
            Job {
                ctx,
                parent,
                machine: self.machine(),
                what: NewFile::File { mode, kill_priv, flags, umask },
            },
            extensions,
        );
        carry(scope(step, false), Carried::named(name))
    }

    /// Makes a symbolic link with the text `linkname`. Security contexts are not supported.
    pub fn symlink(
        &self,
        ctx: Context,
        linkname: &[u8],
        parent: Inode,
        name: &[u8],
        extensions: Extensions,
    ) -> (step: Step<Carrying<Create>, Created>)
        requires
            extensions.secctx is None,
        ensures
            bare(step) == create_start(
                self@,
                (Job { ctx, parent, machine: self@.machine, what: NewFile::Link }),
                extensions.sup_gids,
            ),
            carries(
                step,
                (CarriedBytes { name: name@, other: linkname@, value: Seq::empty() }),
            ),
    {
        let step = self.start_create(
            Job { ctx, parent, machine: self.machine(), what: NewFile::Link },
            extensions,
        );
        carry(
            step,
            Carried { name: copied(name), other: copied(linkname), value: Vec::new() },
        )
    }
}

/// A request that makes a file keeps account of files: what the host opened for it is held by the
/// request until an inode or a handle has it or it is to be closed, and nothing else is.
pub proof fn law_create_accounts_for_files(op: Create, fs: FsView, reply: Reply, f: RawFd)
    requires
        fs.wf(),
        op.pending().answered_by(reply),
    ensures
        ({
            let (after, step) = op.next(fs, reply);
            after.holds(f) || (step matches Step::Call(_, op) && op.holds(f)) <==> fs.holds(f)
                || op.holds(f) || reply == Reply::Fd(f)
        }),
{
    match op {
        Create::Make { .. } => {
            if let Reply::Fd(fd) = reply {
                lemma_release_holds(fs, Some(fd), f);
            }
        },
        Create::OwnLink { fd, .. } => {
            lemma_release_holds(fs, Some(fd), f);
        },
        Create::Find { file, lookup, .. } => {
            if !(file == Some(f)) {
                law_lookup_step_accounts_for_files(lookup, fs, reply, f);
            }
            lemma_release_holds(lookup.next(fs, reply).0, file, f);
        },
        Create::Record { file, .. } => {
            lemma_release_holds(fs, file, f);
        },
        Create::Refresh { entry, file, .. } => {
            lemma_release_holds(fs, file, f);
            if let Some(fd) = file {
                law_handles_account_for_files(fs, entry.inode, fd, 0, f);
            }
        },
        _ => {},
    }
}

/// Where the client sends supplementary groups, a caller who may not write to the directory and
/// search it makes nothing in it: the request fails before the host is asked to make anything.
pub proof fn law_refused_creation_makes_nothing(
    fs: FsView,
    job: Job,
    gids: Seq<u32>,
    parent: Stat,
)
    requires
        fs.supplementary_group_extension,
        !grants(job.ctx, parent, CREATE_ACCESS, gids),
    ensures
        Create::prepared(fs, job, creation(fs, job.ctx, gids, parent)) matches Step::Done(Err(e))
            && e == FsError::Os(EACCES),
{
}

/// A directory that is made in a set-group-id directory is one too, for the host and for the guest,
/// and belongs to its maker and to the group of the directory that it is in.
pub proof fn law_setgid_directory_passes_on_its_group(
    fs: FsView,
    job: Job,
    mode: u32,
    umask: u32,
    gids: Seq<u32>,
    parent: Stat,
    entry: Entry,
)
    requires
        job.what == (NewFile::Dir { mode, umask }),
        inherits(parent),
        creation(fs, job.ctx, gids, parent) is Ok,
        fs.find_inode(job.parent) is Ok,
        fs.find_inode(entry.inode) is Ok,
    ensures
        ({
            let create_mode = job.what.create_mode(true);
            &&& create_mode & S_ISGID == S_ISGID
            &&& Create::prepared(fs, job, creation(fs, job.ctx, gids, parent)) == Create::Make {
                job,
                gid: parent.st_gid,
                inherits: true,
                dir: fs.inodes[job.parent].1.fd,
            }.wait()
            &&& job.what.make(job.machine, true, fs.inodes[job.parent].1.fd) == (Syscall::MkdirAt {
                dir: fs.inodes[job.parent].1.fd,
                mode: create_mode,
            })
            &&& Create::to_record(fs, job, parent.st_gid, true, None, entry).1 == Create::Record {
                entry,
                file: None,
                write: WriteOverride::Kind {
                    fd: fs.inodes[entry.inode].1.fd,
                    owner: Some((job.ctx.uid, parent.st_gid)),
                    mode: Some(create_mode),
                },
            }.wait()
        }),
{
    assert(((mode & !umask) | 0o2000u32) & 0o2000u32 == 0o2000u32) by (bit_vector);
}

/// Outside of set-group-id directories a new file belongs to the group of its maker.
pub proof fn law_new_file_belongs_to_its_makers_group(
    fs: FsView,
    ctx: Context,
    gids: Seq<u32>,
    parent: Stat,
)
    requires
        !inherits(parent),
    ensures
        creation(fs, ctx, gids, parent) matches Ok(made) ==> made == (ctx.gid, false),
{
}

/// The owner that is recorded for a new file is the one that the guest then sees, whatever was
/// recorded before and whoever owns the file on the host. A directory is seen with the mode that it
/// was made with.
pub proof fn law_recorded_owner_is_seen(
    what: NewFile,
    inherits: bool,
    st: Stat,
    owner: (u32, u32),
    before: OverrideStat,
    host_uid: Option<u32>,
    host_gid: Option<u32>,
)
    requires
        owner.0 < UID_MAX,
        owner.1 < UID_MAX,
    ensures
        ({
            let mode = what.recorded_mode(inherits);
            let attr = seen(st, merged(Some(owner), mode, before), host_uid, host_gid);
            &&& attr.st_uid == owner.0
            &&& attr.st_gid == owner.1
            &&& mode matches Some(mode) ==> attr.st_mode & 0o7777 == mode & 0o7777
        }),
{
    if let Some(mode) = what.recorded_mode(inherits) {
        let host = st.st_mode;
        assert(((host & 0o170000u32) | mode) & 0o7777u32 == mode & 0o7777u32) by (bit_vector);
    }
}

/// The guest sees a new link as its maker's, of the group that was chosen, where this process may
/// act as any user and group; where it may not, the link is root's.
pub proof fn law_link_owner_is_seen(fs: FsView, job: Job, gid: u32, st: Stat)
    ensures
        ({
            let owner = link_owner(fs, job, gid);
            let given = Stat { st_uid: owner.0, st_gid: owner.1, ..st };
            let attr = seen(given, (None, None, None), fs.my_uid, fs.my_gid);
            &&& attr.st_uid == (if fs.my_uid is None {
                job.ctx.uid
            } else {
                0
            })
            &&& attr.st_gid == (if fs.my_gid is None {
                gid
            } else {
                0
            })
        }),
{
}

/// A link that cannot be given to its owner is removed, and the request fails with the reason; where
/// it cannot be removed either, the request names both reasons.
pub proof fn law_link_without_owner_is_removed(
    fs: FsView,
    job: Job,
    gid: u32,
    dir: RawFd,
    fd: RawFd,
    owner: (u32, u32),
    error: i32,
    rollback: i32,
)
    ensures
        ({
            let undo = Create::UndoLink { dir, error };
            &&& undo.pending() == (Syscall::UnlinkAt { dir, flags: 0 })
            &&& Create::OpenLink { job, gid, dir }.next(fs, Reply::Fail(error)) == (
                fs,
                undo.wait(),
            )
            &&& Create::OwnLink { job, gid, dir, fd, owner }.next(fs, Reply::Fail(error)) == (
                fs.releasing(fd),
                undo.wait(),
            )
            &&& undo.next(fs, Reply::Unit).1 matches Step::Done(Err(e)) && e == FsError::Os(error)
            &&& undo.next(fs, Reply::Fail(rollback)).1 matches Step::Done(Err(e)) && e
                == (FsError::SymlinkRollback { owner: error, rollback })
        }),
{
}

} // verus!
