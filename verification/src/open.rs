//! Opening and closing files for the client.

use crate::abi::{
    OPEN_CACHE_DIR, OPEN_DIRECT_IO, OPEN_KEEP_CACHE, O_ACCMODE, O_APPEND, O_CLOEXEC, O_NOATIME,
    O_RDWR, O_WRONLY,
};
use crate::config::CachePolicy;
use crate::fs::{FsView, PassthroughFs, INIT_HANDLE, INIT_INODE};
use crate::fs_laws::law_handles_account_for_files;
use crate::model::{ebadf, FsError, Handle, Inode, Machine, RawFd};
use crate::scoped::{scope, scoped, Scoped};
use crate::step::{Path, Reply, Step, Syscall};
use vstd::pervasive::unreached;
use vstd::prelude::*;

verus! {

/// The flags that a file is opened with when the client asks for `flags`. A client that caches
/// writes reads files that it opened for writing, and places appended data itself. The link under
/// `/proc/self/fd` is always followed, and no child process gets the file.
pub open spec fn open_flags(machine: Machine, writeback: bool, flags: i32) -> i32 {
    let readable = if writeback && flags & O_ACCMODE == O_WRONLY {
        (flags & !O_ACCMODE) | O_RDWR
    } else {
        flags
    };
    let placed = if writeback && readable & O_APPEND != 0 {
        readable & !O_APPEND
    } else {
        readable
    };
    (placed | O_CLOEXEC) & !machine.o_nofollow
}

/// How an inode is opened: through the link to its place under `/proc/self/fd`.
#[derive(Clone, Copy, Debug, PartialEq, Eq)]
pub struct Opening {
    pub dir: RawFd,
    pub place: RawFd,
    pub flags: i32,
}

impl Opening {
    /// The call that opens the file.
    #[verifier::allow_in_spec]
    pub fn call(self) -> Syscall
        returns
            (Syscall::OpenAt {
                dir: self.dir,
                path: Path::Fd(self.place),
                flags: self.flags,
                mode: 0,
            }),
    {
        Syscall::OpenAt {
            dir: self.dir,
            path: Path::Fd(self.place),
            flags: self.flags,
            mode: 0,
        }
    }
}

/// How `inode` is opened when the client asks for `flags`.
pub open spec fn opening(fs: FsView, inode: Inode, flags: i32) -> Result<Opening, FsError> {
    match fs.find_inode(inode) {
        Ok(data) => Ok(
            Opening {
                dir: fs.proc_self_fd,
                place: data.fd,
                flags: open_flags(fs.machine, fs.writeback, flags),
            },
        ),
        Err(e) => Err(e),
    }
}

/// The flags that the client's flags stand for: without the right to it no file is opened so that
/// its access time stays.
pub open spec fn granted_flags(fs: FsView, flags: u32) -> u32 {
    if fs.cap_fowner {
        flags
    } else {
        flags & !(O_NOATIME as u32)
    }
}

/// What the reply to an open tells the client about caching.
pub open spec fn open_options(machine: Machine, policy: CachePolicy, flags: u32) -> u32 {
    let is_dir = flags & (machine.o_directory as u32) != 0;
    match policy {
        CachePolicy::Never => if is_dir {
            0
        } else {
            OPEN_DIRECT_IO
        },
        CachePolicy::Auto => 0,
        CachePolicy::Always => if is_dir {
            OPEN_CACHE_DIR
        } else {
            OPEN_KEEP_CACHE
        },
    }
}

/// Opens an inode for the client.
#[derive(Clone, Copy, Debug, PartialEq, Eq)]
pub enum Open {
    DropPriv { inode: Inode, flags: u32 },
    File { inode: Inode, flags: u32, opening: Opening },
}

impl Open {
    pub open spec fn pending(self) -> Syscall {
        match self {
            Open::DropPriv { .. } => Syscall::DropFsetid,
            Open::File { opening, .. } => opening.call(),
        }
    }

    pub open spec fn wait(self) -> Step<Open, (Option<Handle>, u32)> {
        Step::Call(self.pending(), self)
    }

    /// Where the open stands once nothing but the file is missing.
    pub open spec fn file(fs: FsView, inode: Inode, flags: u32) -> Step<
        Open,
        (Option<Handle>, u32),
    > {
        match opening(fs, inode, flags as i32) {
            Ok(opening) => Open::File { inode, flags, opening }.wait(),
            Err(e) => Step::Done(Err(e)),
        }
    }

    pub open spec fn next(self, fs: FsView, reply: Reply) -> (
        FsView,
        Step<Open, (Option<Handle>, u32)>,
    ) {
        match (self, reply) {
            (_, Reply::Fail(e)) => (fs, Step::Done(Err(FsError::Os(e)))),
            (Open::DropPriv { inode, flags }, _) => (fs, Open::file(fs, inode, flags)),
            (Open::File { inode, flags, .. }, Reply::Fd(fd)) => (
                fs.with_handle(inode, fd),
                Step::Done(
                    Ok(
                        (
                            Some(fs.next_handle),
                            open_options(fs.machine, fs.cfg.cache_policy, flags),
                        ),
                    ),
                ),
            ),
            _ => arbitrary(),
        }
    }

    fn open_file(fs: &PassthroughFs, inode: Inode, flags: u32) -> (step: Step<
        Open,
        (Option<Handle>, u32),
    >)
        ensures
            step == Open::file(fs@, inode, flags),
    {
        match fs.open_inode(
            inode,
            #[verifier::truncate]
            (flags as i32),
        ) {
            Ok(opening) => Step::Call(opening.call(), Open::File { inode, flags, opening }),
            Err(e) => Step::Done(Err(e)),
        }
    }

    pub fn resume(self, fs: &mut PassthroughFs, reply: Reply) -> (step: Step<
        Open,
        (Option<Handle>, u32),
    >)
        requires
            old(fs).wf(),
            self.pending().answered_by(reply),
        ensures
            final(fs).wf(),
            (final(fs)@, step) == self.next(old(fs)@, reply),
    {
        match self {
            Open::DropPriv { inode, flags } => match reply {
                Reply::Fail(e) => Step::Done(Err(FsError::from_raw_os_error(e))),
                _ => Open::open_file(fs, inode, flags),
            },
            Open::File { inode, flags, opening: _ } => match reply {
                Reply::Fail(e) => Step::Done(Err(FsError::from_raw_os_error(e))),
                Reply::Fd(fd) => {
                    let handle: Handle = fs.add_handle(inode, fd);
                    let opts: u32 = options_for(fs.machine(), fs.cfg().cache_policy, flags);
                    Step::Done(Ok((Some(handle), opts)))
                },
                _ => unreached(),
            },
        }
    }
}

/// What the reply to an open tells the client, by the caching policy.
pub fn options_for(machine: Machine, policy: CachePolicy, flags: u32) -> (opts: u32)
    ensures
        opts == open_options(machine, policy, flags),
{
    let directory: u32 = #[verifier::truncate]
    (machine.o_directory as u32);
    match policy {
        CachePolicy::Never => if flags & directory == 0 {
            OPEN_DIRECT_IO
        } else {
            0
        },
        CachePolicy::Always => if flags & directory == 0 {
            OPEN_KEEP_CACHE
        } else {
            OPEN_CACHE_DIR
        },
        CachePolicy::Auto => 0,
    }
}

/// How an open of a file of the host starts.
pub open spec fn open_start(fs: FsView, inode: Inode, kill_priv: bool, flags: u32) -> Step<
    Open,
    (Option<Handle>, u32),
> {
    let flags = granted_flags(fs, flags);
    if kill_priv {
        Open::DropPriv { inode, flags }.wait()
    } else {
        Open::file(fs, inode, flags)
    }
}

/// How an open starts. The init program is always open.
pub open spec fn any_open_start(fs: FsView, inode: Inode, kill_priv: bool, flags: u32) -> Step<
    Open,
    (Option<Handle>, u32),
> {
    if inode == INIT_INODE {
        Step::Done(Ok((Some(INIT_HANDLE), 0)))
    } else {
        open_start(fs, inode, kill_priv, flags)
    }
}

/// How an open of a directory starts.
pub open spec fn opendir_start(fs: FsView, inode: Inode, flags: u32) -> Step<
    Open,
    (Option<Handle>, u32),
> {
    open_start(fs, inode, false, flags | (fs.machine.o_directory as u32))
}

/// Takes a handle of the client out of use.
#[derive(Clone, Copy, Debug, PartialEq, Eq)]
pub enum Release {
    /// Waits for the file to leave the export table.
    Exported { fsid: u64, handle: Handle },
}

impl Release {
    pub open spec fn pending(self) -> Syscall {
        match self {
            Release::Exported { fsid, handle } => Syscall::ExportRemove { fsid, handle },
        }
    }

    pub open spec fn next(self, reply: Reply) -> Step<Release, ()> {
        Step::Done(Ok(()))
    }

    pub fn resume(self, _reply: Reply) -> (step: Step<Release, ()>)
        requires
            self.pending().answered_by(_reply),
        ensures
            step == self.next(_reply),
    {
        Step::Done(Ok(()))
    }
}

/// How the release of a handle goes: the handle goes at once, and with it its place in the export
/// table.
pub open spec fn released(fs: FsView, inode: Inode, handle: Handle) -> (FsView, Step<Release, ()>) {
    match fs.find_handle(inode, handle) {
        Err(e) => (fs, Step::Done(Err(e))),
        Ok(data) => (
            fs.without_handle(handle),
            if data.exported {
                let op = Release::Exported { fsid: fs.cfg.export_fsid, handle };
                Step::Call(op.pending(), op)
            } else {
                Step::Done(Ok(()))
            },
        ),
    }
}

impl PassthroughFs {
    /// Says how an inode is opened.
    pub fn open_inode(&self, inode: Inode, flags: i32) -> (res: Result<Opening, FsError>)
        ensures
            res == opening(self@, inode, flags),
    {
        let data = match self.inode_data(inode) {
            Ok(data) => data,
            Err(e) => {
                return Err(e);
            },
        };
        let mut flags: i32 = flags;
        let writeback = self.writeback();
        if writeback && flags & O_ACCMODE == O_WRONLY {
            flags = flags & !O_ACCMODE;
            flags = flags | O_RDWR;
        }
        if writeback && flags & O_APPEND != 0 {
            flags = flags & !O_APPEND;
        }
        Ok(
            Opening {
                dir: self.proc_self_fd(),
                place: data.fd,
                flags: (flags | O_CLOEXEC) & !self.machine().o_nofollow,
            },
        )
    }

    /// Starts to open a file of the host for the client.
    pub fn do_open(&self, inode: Inode, kill_priv: bool, flags: u32) -> (step: Step<
        Open,
        (Option<Handle>, u32),
    >)
        ensures
            step == open_start(self@, inode, kill_priv, flags),
    {
        let mut flags: u32 = flags;
        if !self.cap_fowner() {
            flags = flags & !(O_NOATIME as u32);
        }
        if kill_priv {
            Step::Call(Syscall::DropFsetid, Open::DropPriv { inode, flags })
        } else {
            Open::open_file(self, inode, flags)
        }
    }

    /// Opens a file. The init program is always open under its own handle.
    pub fn open(&self, inode: Inode, kill_priv: bool, flags: u32) -> (step: Step<
        Scoped<Open, (Option<Handle>, u32)>,
        (Option<Handle>, u32),
    >)
        ensures
            step == scoped(any_open_start(self@, inode, kill_priv, flags), false),
    {
        if inode == INIT_INODE {
            Step::Done(Ok((Some(INIT_HANDLE), 0)))
        } else {
            scope(self.do_open(inode, kill_priv, flags), false)
        }
    }

    /// Opens a directory.
    pub fn opendir(&self, inode: Inode, flags: u32) -> (step: Step<Open, (Option<Handle>, u32)>)
        ensures
            step == opendir_start(self@, inode, flags),
    {
        let directory: u32 = #[verifier::truncate]
        (self.machine().o_directory as u32);
        self.do_open(inode, false, flags | directory)
    }

    fn do_release(&mut self, inode: Inode, handle: Handle) -> (step: Step<Release, ()>)
        requires
            old(self).wf(),
        ensures
            final(self).wf(),
            (final(self)@, step) == released(old(self)@, inode, handle),
    {
        match self.handle_data(inode, handle) {
            Err(_) => Step::Done(Err(ebadf())),
            Ok(data) => {
                self.remove_handle(handle);
                if data.exported {
                    let fsid: u64 = self.cfg().export_fsid;
                    Step::Call(
                        Syscall::ExportRemove { fsid, handle },
                        Release::Exported { fsid, handle },
                    )
                } else {
                    Step::Done(Ok(()))
                }
            },
        }
    }

    /// Closes a file of the client.
    pub fn release(&mut self, inode: Inode, handle: Handle) -> (step: Step<Release, ()>)
        requires
            old(self).wf(),
        ensures
            final(self).wf(),
            (final(self)@, step) == released(old(self)@, inode, handle),
    {
        self.do_release(inode, handle)
    }

    /// Closes a directory of the client.
    pub fn releasedir(&mut self, inode: Inode, handle: Handle) -> (step: Step<Release, ()>)
        requires
            old(self).wf(),
        ensures
            final(self).wf(),
            (final(self)@, step) == released(old(self)@, inode, handle),
    {
        self.do_release(inode, handle)
    }
}

/// Whatever flags the client asks for, the file is closed in child processes and links under
/// `/proc/self/fd` are followed. With cached writes a file that is opened for writing alone can be
/// read too, and none is opened for appending. Without them nothing else changes, and no other flag
/// changes in any case. The flag that keeps a link from being followed is one of its own on every
/// machine.
pub proof fn law_open_flags(machine: Machine, writeback: bool, flags: i32)
    requires
        machine.o_nofollow & (O_CLOEXEC | O_ACCMODE | O_APPEND) == 0,
    ensures
        ({
            let opened = open_flags(machine, writeback, flags);
            &&& opened & O_CLOEXEC == O_CLOEXEC
            &&& opened & machine.o_nofollow == 0
            &&& writeback && flags & O_ACCMODE == O_WRONLY ==> opened & O_ACCMODE == O_RDWR
            &&& !(writeback && flags & O_ACCMODE == O_WRONLY) ==> opened & O_ACCMODE == flags
                & O_ACCMODE
            &&& writeback ==> opened & O_APPEND == 0
            &&& !writeback ==> opened | O_CLOEXEC | machine.o_nofollow == flags | O_CLOEXEC
                | machine.o_nofollow
            &&& opened & !(O_CLOEXEC | O_ACCMODE | O_APPEND | machine.o_nofollow) == flags & !(
            O_CLOEXEC | O_ACCMODE | O_APPEND | machine.o_nofollow)
        }),
{
    let link = machine.o_nofollow;
    assert(0o2000000i32 | 3 | 0o2000 == 0o2002003) by (bit_vector);
    assert(forall|f: i32| #[trigger]
        ((f | 0o2000000) & !link) & 0o2000000 == 0o2000000i32 && ((f | 0o2000000) & !link) & link
            == 0 && ((f | 0o2000000) & !link) & 3 == f & 3 && ((f | 0o2000000) & !link) & 0o2000
            == f & 0o2000 && ((f | 0o2000000) & !link) | 0o2000000 | link == f | 0o2000000 | link)
        by (bit_vector)
        requires
            link & 0o2002003 == 0,
    ;
    assert(((flags & !3i32) | 2) & 3 == 2) by (bit_vector);
    assert(forall|f: i32| #[trigger]
        (f & !0o2000i32) & 0o2000 == 0 && (f & !0o2000i32) & 3 == f & 3) by (bit_vector);
    assert({
        let readable = if writeback && flags & 3 == 1 {
            (flags & !3i32) | 2
        } else {
            flags
        };
        let placed = if writeback && readable & 0o2000 != 0 {
            readable & !0o2000i32
        } else {
            readable
        };
        let others = !(0o2000000i32 | 3 | 0o2000 | link);
        ((placed | 0o2000000) & !link) & others == flags & others
    }) by (bit_vector);
}

/// A file that the client closed cannot be closed again, nor be used.
pub proof fn law_release_is_final(fs: FsView, inode: Inode, handle: Handle)
    requires
        fs.find_handle(inode, handle) is Ok,
    ensures
        released(fs, inode, handle).0.find_handle(inode, handle) is Err,
        released(released(fs, inode, handle).0, inode, handle).1 matches Step::Done(Err(e)) && e
            == FsError::Os(crate::abi::EBADF),
{
}

/// Opening keeps account of files: what the host opened for the client is under a handle.
pub proof fn law_open_accounts_for_files(op: Open, fs: FsView, reply: Reply, f: RawFd)
    requires
        op.pending().answered_by(reply),
    ensures
        op.next(fs, reply).0.holds(f) <==> fs.holds(f) || reply == Reply::Fd(f),
{
    if let Open::File { inode, flags, .. } = op {
        if let Reply::Fd(fd) = reply {
            law_handles_account_for_files(fs, inode, fd, 0, f);
        }
    }
}

} // verus!
