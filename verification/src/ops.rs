//! Requests that are passed on to the host in one or two calls.

use crate::abi::{AT_REMOVEDIR, AT_SYMLINK_FOLLOW, PATH_MAX};
use crate::fs::{FsView, PassthroughFs};
use crate::lookup::{law_lookup_step_accounts_for_files, lookup_start, Lookup};
use crate::model::{Entry, FsError, Handle, Inode, RawFd, StatVfs};
use crate::step::{
    bare, carries, carry, copied, just_name, Carried, CarriedBytes, Carrying, Path, Reply, Step,
    Syscall,
};
use vstd::pervasive::unreached;
use vstd::prelude::*;

verus! {

/// A request whose only answer is whether its one call succeeded.
#[derive(Clone, Copy, Debug, PartialEq, Eq)]
pub struct Simple {
    pub call: Syscall,
}

impl Simple {
    pub open spec fn pending(self) -> Syscall {
        self.call
    }

    pub open spec fn next(self, reply: Reply) -> Step<Simple, ()> {
        match reply {
            Reply::Fail(e) => Step::Done(Err(FsError::Os(e))),
            _ => Step::Done(Ok(())),
        }
    }

    pub fn resume(self, reply: Reply) -> (step: Step<Simple, ()>)
        requires
            self.pending().answered_by(reply),
        ensures
            step == self.next(reply),
    {
        match reply {
            Reply::Fail(e) => Step::Done(Err(FsError::from_raw_os_error(e))),
            _ => Step::Done(Ok(())),
        }
    }
}

impl Carrying<Simple> {
    pub fn resume(self, reply: Reply) -> (step: Step<Carrying<Simple>, ()>)
        requires
            self.op.pending().answered_by(reply),
        ensures
            bare(step) == self.op.next(reply),
            carries(step, self.carried@),
    {
        carry(self.op.resume(reply), self.carried)
    }
}

/// The step that waits for the one call of such a request, or the error that keeps it from being
/// made.
pub open spec fn simple(call: Result<Syscall, FsError>) -> Step<Simple, ()> {
    match call {
        Ok(call) => Step::Call(call, Simple { call }),
        Err(e) => Step::Done(Err(e)),
    }
}

fn make_simple(call: Result<Syscall, FsError>) -> (step: Step<Simple, ()>)
    ensures
        step == simple(call),
{
    match call {
        Ok(call) => Step::Call(call, Simple { call }),
        Err(e) => Step::Done(Err(e)),
    }
}

/// Asks for the state of the host's file system.
#[derive(Clone, Copy, Debug, PartialEq, Eq)]
pub struct StatFs {
    pub fd: RawFd,
}

impl StatFs {
    pub open spec fn pending(self) -> Syscall {
        Syscall::FstatVfs { fd: self.fd }
    }

    pub open spec fn wait(self) -> Step<StatFs, StatVfs> {
        Step::Call(self.pending(), self)
    }

    pub open spec fn next(self, reply: Reply) -> Step<StatFs, StatVfs> {
        match reply {
            Reply::Fail(e) => Step::Done(Err(FsError::Os(e))),
            Reply::StatVfs(out) => Step::Done(Ok(out)),
            _ => arbitrary(),
        }
    }

    pub fn resume(self, reply: Reply) -> (step: Step<StatFs, StatVfs>)
        requires
            self.pending().answered_by(reply),
        ensures
            step == self.next(reply),
    {
        match reply {
            Reply::Fail(e) => Step::Done(Err(FsError::from_raw_os_error(e))),
            Reply::StatVfs(out) => Step::Done(Ok(out)),
            _ => unreached(),
        }
    }
}

/// Reads the text of a symbolic link.
#[derive(Clone, Copy, Debug, PartialEq, Eq)]
pub struct ReadLink {
    pub fd: RawFd,
}

impl ReadLink {
    pub open spec fn pending(self) -> Syscall {
        Syscall::ReadLinkAt { fd: self.fd, size: PATH_MAX }
    }

    pub open spec fn wait(self) -> Step<ReadLink, Vec<u8>> {
        Step::Call(self.pending(), self)
    }

    pub open spec fn next(self, reply: Reply) -> Step<ReadLink, Vec<u8>> {
        match reply {
            Reply::Fail(e) => Step::Done(Err(FsError::Os(e))),
            Reply::Bytes(text) => Step::Done(Ok(text)),
            _ => arbitrary(),
        }
    }

    pub fn resume(self, reply: Reply) -> (step: Step<ReadLink, Vec<u8>>)
        requires
            self.pending().answered_by(reply),
        ensures
            step == self.next(reply),
    {
        match reply {
            Reply::Fail(e) => Step::Done(Err(FsError::from_raw_os_error(e))),
            Reply::Bytes(text) => Step::Done(Ok(text)),
            _ => unreached(),
        }
    }
}

/// Moves the position in a file.
#[derive(Clone, Copy, Debug, PartialEq, Eq)]
pub struct Seek {
    pub fd: RawFd,
    pub offset: i64,
    pub whence: i32,
}

impl Seek {
    pub open spec fn pending(self) -> Syscall {
        Syscall::Lseek { fd: self.fd, offset: self.offset, whence: self.whence }
    }

    pub open spec fn wait(self) -> Step<Seek, u64> {
        Step::Call(self.pending(), self)
    }

    pub open spec fn next(self, reply: Reply) -> Step<Seek, u64> {
        match reply {
            Reply::Fail(e) => Step::Done(Err(FsError::Os(e))),
            Reply::Num(n) => Step::Done(Ok(n)),
            _ => arbitrary(),
        }
    }

    pub fn resume(self, reply: Reply) -> (step: Step<Seek, u64>)
        requires
            self.pending().answered_by(reply),
        ensures
            step == self.next(reply),
    {
        match reply {
            Reply::Fail(e) => Step::Done(Err(FsError::from_raw_os_error(e))),
            Reply::Num(n) => Step::Done(Ok(n)),
            _ => unreached(),
        }
    }
}

/// Copies from one file to another.
#[derive(Clone, Copy, Debug, PartialEq, Eq)]
pub struct CopyRange {
    pub fd_in: RawFd,
    pub offset_in: i64,
    pub fd_out: RawFd,
    pub offset_out: i64,
    pub len: usize,
    pub flags: u32,
}

impl CopyRange {
    pub open spec fn pending(self) -> Syscall {
        Syscall::CopyFileRange {
            fd_in: self.fd_in,
            offset_in: self.offset_in,
            fd_out: self.fd_out,
            offset_out: self.offset_out,
            len: self.len,
            flags: self.flags,
        }
    }

    pub open spec fn wait(self) -> Step<CopyRange, usize> {
        Step::Call(self.pending(), self)
    }

    pub open spec fn next(self, reply: Reply) -> Step<CopyRange, usize> {
        match reply {
            Reply::Fail(e) => Step::Done(Err(FsError::Os(e))),
            Reply::Num(n) => Step::Done(Ok(n as usize)),
            _ => arbitrary(),
        }
    }

    pub fn resume(self, reply: Reply) -> (step: Step<CopyRange, usize>)
        requires
            self.pending().answered_by(reply),
        ensures
            step == self.next(reply),
    {
        match reply {
            Reply::Fail(e) => Step::Done(Err(FsError::from_raw_os_error(e))),
            Reply::Num(n) => Step::Done(
                Ok(
                    #[verifier::truncate]
                    (n as usize),
                ),
            ),
            _ => unreached(),
        }
    }
}

/// Flushes a file as the host does whenever a file is closed: by closing a duplicate of it.
#[derive(Clone, Copy, Debug, PartialEq, Eq)]
pub enum Flush {
    Duplicate { fd: RawFd },
    Close { fd: RawFd },
}

impl Flush {
    pub open spec fn pending(self) -> Syscall {
        match self {
            Flush::Duplicate { fd } => Syscall::Dup { fd },
            Flush::Close { fd } => Syscall::Close { fd },
        }
    }

    pub open spec fn wait(self) -> Step<Flush, ()> {
        Step::Call(self.pending(), self)
    }

    pub open spec fn next(self, reply: Reply) -> Step<Flush, ()> {
        match (self, reply) {
            (_, Reply::Fail(e)) => Step::Done(Err(FsError::Os(e))),
            (Flush::Duplicate { .. }, Reply::Fd(fd)) => Flush::Close { fd }.wait(),
            _ => Step::Done(Ok(())),
        }
    }

    pub fn resume(self, reply: Reply) -> (step: Step<Flush, ()>)
        requires
            self.pending().answered_by(reply),
        ensures
            step == self.next(reply),
    {
        match self {
            Flush::Duplicate { fd: _ } => match reply {
                Reply::Fail(e) => Step::Done(Err(FsError::from_raw_os_error(e))),
                Reply::Fd(fd) => Step::Call(Syscall::Close { fd }, Flush::Close { fd }),
                _ => unreached(),
            },
            Flush::Close { fd: _ } => match reply {
                Reply::Fail(e) => Step::Done(Err(FsError::from_raw_os_error(e))),
                _ => Step::Done(Ok(())),
            },
        }
    }
}

/// Gives a file one more name, and looks that name up.
#[derive(Clone, Copy, Debug, PartialEq, Eq)]
pub enum Link {
    Make { newparent: Inode, proc_self_fd: RawFd, place: RawFd, new_dir: RawFd },
    Find { lookup: Lookup },
}

impl Link {
    /// Whether this request has the file `fd` open.
    pub open spec fn holds(self, fd: RawFd) -> bool {
        self matches Link::Find { lookup } && lookup.holds(fd)
    }

    pub open spec fn pending(self) -> Syscall {
        match self {
            Link::Make { proc_self_fd, place, new_dir, .. } => Syscall::LinkAt {
                old_dir: proc_self_fd,
                path: Path::Fd(place),
                new_dir,
                flags: AT_SYMLINK_FOLLOW,
            },
            Link::Find { lookup } => lookup.pending(),
        }
    }

    pub open spec fn wait(self) -> Step<Link, Entry> {
        Step::Call(self.pending(), self)
    }

    pub open spec fn next(self, fs: FsView, reply: Reply) -> (FsView, Step<Link, Entry>) {
        match self {
            Link::Make { newparent, .. } => match reply {
                Reply::Fail(e) => (fs, Step::Done(Err(FsError::Os(e)))),
                _ => match lookup_start(fs, newparent) {
                    Step::Call(_, lookup) => (fs, Link::Find { lookup }.wait()),
                    Step::Done(res) => (fs, Step::Done(res)),
                },
            },
            Link::Find { lookup } => {
                let (fs, step) = lookup.next(fs, reply);
                match step {
                    Step::Call(_, lookup) => (fs, Link::Find { lookup }.wait()),
                    Step::Done(res) => (fs, Step::Done(res)),
                }
            },
        }
    }

    pub fn resume(self, fs: &mut PassthroughFs, reply: Reply) -> (step: Step<Link, Entry>)
        requires
            old(fs).wf(),
            self.pending().answered_by(reply),
        ensures
            final(fs).wf(),
            (final(fs)@, step) == self.next(old(fs)@, reply),
    {
        match self {
            Link::Make { newparent, proc_self_fd: _, place: _, new_dir: _ } => match reply {
                Reply::Fail(e) => Step::Done(Err(FsError::from_raw_os_error(e))),
                _ => match fs.do_lookup(newparent) {
                    Step::Call(call, lookup) => Step::Call(call, Link::Find { lookup }),
                    Step::Done(res) => Step::Done(res),
                },
            },
            Link::Find { lookup } => match lookup.resume(fs, reply) {
                Step::Call(call, lookup) => Step::Call(call, Link::Find { lookup }),
                Step::Done(res) => Step::Done(res),
            },
        }
    }
}

impl Carrying<Link> {
    pub fn resume(self, fs: &mut PassthroughFs, reply: Reply) -> (step: Step<Carrying<Link>, Entry>)
        requires
            old(fs).wf(),
            self.op.pending().answered_by(reply),
        ensures
            final(fs).wf(),
            (final(fs)@, bare(step)) == self.op.next(old(fs)@, reply),
            carries(step, self.carried@),
    {
        carry(self.op.resume(fs, reply), self.carried)
    }
}

/// How a request for one more name starts.
pub open spec fn link_start(fs: FsView, inode: Inode, newparent: Inode) -> Step<Link, Entry> {
    match (fs.find_inode(inode), fs.find_inode(newparent)) {
        (Err(e), _) => Step::Done(Err(e)),
        (_, Err(e)) => Step::Done(Err(e)),
        (Ok(data), Ok(dir)) => Link::Make {
            newparent,
            proc_self_fd: fs.proc_self_fd,
            place: data.fd,
            new_dir: dir.fd,
        }.wait(),
    }
}

/// How a request that moves a name starts.
pub open spec fn rename_start(fs: FsView, olddir: Inode, newdir: Inode, flags: u32) -> Step<
    Simple,
    (),
> {
    simple(
        match (fs.find_inode(olddir), fs.find_inode(newdir)) {
            (Err(e), _) => Err(e),
            (_, Err(e)) => Err(e),
            (Ok(old_data), Ok(new_data)) => Ok(
                Syscall::RenameAt2 { old_dir: old_data.fd, new_dir: new_data.fd, flags },
            ),
        },
    )
}

/// How a copy starts.
pub open spec fn copy_start(
    fs: FsView,
    from: (Inode, Handle, u64),
    to: (Inode, Handle, u64),
    len: u64,
    flags: u64,
) -> Step<CopyRange, usize> {
    match (fs.find_handle(from.0, from.1), fs.find_handle(to.0, to.1)) {
        (Err(e), _) => Step::Done(Err(e)),
        (_, Err(e)) => Step::Done(Err(e)),
        (Ok(data_in), Ok(data_out)) => CopyRange {
            fd_in: data_in.fd,
            offset_in: from.2 as i64,
            fd_out: data_out.fd,
            offset_out: to.2 as i64,
            len: len as usize,
            flags: flags as u32,
        }.wait(),
    }
}

impl FsView {
    /// The call on an inode's place, if the client knows the inode.
    pub open spec fn on_inode(self, inode: Inode, call: spec_fn(RawFd) -> Syscall) -> Result<
        Syscall,
        FsError,
    > {
        match self.find_inode(inode) {
            Ok(data) => Ok(call(data.fd)),
            Err(e) => Err(e),
        }
    }

    /// The call on an open file, if it is one of the client.
    pub open spec fn on_handle(
        self,
        inode: Inode,
        handle: Handle,
        call: spec_fn(RawFd) -> Syscall,
    ) -> Result<Syscall, FsError> {
        match self.find_handle(inode, handle) {
            Ok(data) => Ok(call(data.fd)),
            Err(e) => Err(e),
        }
    }
}

/// How a request for the state of the host's file system starts.
pub open spec fn statfs_start(fs: FsView, inode: Inode) -> Step<StatFs, StatVfs> {
    match fs.find_inode(inode) {
        Ok(data) => StatFs { fd: data.fd }.wait(),
        Err(e) => Step::Done(Err(e)),
    }
}

/// How a request that removes a name starts.
pub open spec fn unlink_start(fs: FsView, parent: Inode, flags: i32) -> Step<Simple, ()> {
    simple(fs.on_inode(parent, |dir: RawFd| Syscall::UnlinkAt { dir, flags }))
}

/// How a request for the text of a link starts.
pub open spec fn readlink_start(fs: FsView, inode: Inode) -> Step<ReadLink, Vec<u8>> {
    match fs.find_inode(inode) {
        Ok(data) => ReadLink { fd: data.fd }.wait(),
        Err(e) => Step::Done(Err(e)),
    }
}

/// How a flush starts.
pub open spec fn flush_start(fs: FsView, inode: Inode, handle: Handle) -> Step<Flush, ()> {
    match fs.find_handle(inode, handle) {
        Ok(data) => Flush::Duplicate { fd: data.fd }.wait(),
        Err(e) => Step::Done(Err(e)),
    }
}

/// How a request that writes a file to the disk starts.
pub open spec fn fsync_start(fs: FsView, inode: Inode, datasync: bool, handle: Handle) -> Step<
    Simple,
    (),
> {
    simple(
        fs.on_handle(
            inode,
            handle,
            |fd: RawFd|
                if datasync {
                    Syscall::Fdatasync { fd }
                } else {
                    Syscall::Fsync { fd }
                },
        ),
    )
}

/// How a request that reserves or frees space starts.
pub open spec fn fallocate_start(
    fs: FsView,
    inode: Inode,
    handle: Handle,
    mode: u32,
    offset: u64,
    length: u64,
) -> Step<Simple, ()> {
    simple(
        fs.on_handle(
            inode,
            handle,
            |fd: RawFd|
                Syscall::Fallocate {
                    fd,
                    mode: mode as i32,
                    offset: offset as i64,
                    length: length as i64,
                },
        ),
    )
}

/// How a request that moves the position in a file starts.
pub open spec fn lseek_start(
    fs: FsView,
    inode: Inode,
    handle: Handle,
    offset: u64,
    whence: u32,
) -> Step<Seek, u64> {
    match fs.find_handle(inode, handle) {
        Ok(data) => Seek { fd: data.fd, offset: offset as i64, whence: whence as i32 }.wait(),
        Err(e) => Step::Done(Err(e)),
    }
}

impl PassthroughFs {
    /// Asks for the state of the host's file system.
    pub fn statfs(&self, inode: Inode) -> (step: Step<StatFs, StatVfs>)
        ensures
            step == statfs_start(self@, inode),
    {
        match self.inode_data(inode) {
            Ok(data) => Step::Call(Syscall::FstatVfs { fd: data.fd }, StatFs { fd: data.fd }),
            Err(e) => Step::Done(Err(e)),
        }
    }

    fn do_unlink(&self, parent: Inode, flags: i32) -> (step: Step<Simple, ()>)
        ensures
            step == unlink_start(self@, parent, flags),
    {
        match self.inode_data(parent) {
            Ok(data) => make_simple(Ok(Syscall::UnlinkAt { dir: data.fd, flags })),
            Err(e) => make_simple(Err(e)),
        }
    }

    /// Removes a name of a file.
    pub fn unlink(&self, parent: Inode, name: &[u8]) -> (step: Step<Carrying<Simple>, ()>)
        ensures
            bare(step) == unlink_start(self@, parent, 0),
            carries(step, just_name(name@)),
    {
        carry(self.do_unlink(parent, 0), Carried::named(name))
    }

    /// Removes a directory.
    pub fn rmdir(&self, parent: Inode, name: &[u8]) -> (step: Step<Carrying<Simple>, ()>)
        ensures
            bare(step) == unlink_start(self@, parent, AT_REMOVEDIR),
            carries(step, just_name(name@)),
    {
        carry(self.do_unlink(parent, AT_REMOVEDIR), Carried::named(name))
    }

    fn do_rename(&self, olddir: Inode, newdir: Inode, flags: u32) -> (step: Step<Simple, ()>)
        ensures
            step == rename_start(self@, olddir, newdir, flags),
    {
        let old_data = match self.inode_data(olddir) {
            Ok(data) => data,
            Err(e) => {
                return make_simple(Err(e));
            },
        };
        let new_data = match self.inode_data(newdir) {
            Ok(data) => data,
            Err(e) => {
                return make_simple(Err(e));
            },
        };
        make_simple(
            Ok(Syscall::RenameAt2 { old_dir: old_data.fd, new_dir: new_data.fd, flags }),
        )
    }

    /// Moves `oldname` in `olddir` to `newname` in `newdir`.
    pub fn rename(
        &self,
        olddir: Inode,
        oldname: &[u8],
        newdir: Inode,
        newname: &[u8],
        flags: u32,
    ) -> (step: Step<Carrying<Simple>, ()>)
        ensures
            bare(step) == rename_start(self@, olddir, newdir, flags),
            carries(
                step,
                (CarriedBytes { name: oldname@, other: newname@, value: Seq::empty() }),
            ),
    {
        carry(
            self.do_rename(olddir, newdir, flags),
            Carried { name: copied(oldname), other: copied(newname), value: Vec::new() },
        )
    }

    fn do_link(&self, inode: Inode, newparent: Inode) -> (step: Step<Link, Entry>)
        ensures
            step == link_start(self@, inode, newparent),
    {
        let data = match self.inode_data(inode) {
            Ok(data) => data,
            Err(e) => {
                return Step::Done(Err(e));
            },
        };
        let dir = match self.inode_data(newparent) {
            Ok(dir) => dir,
            Err(e) => {
                return Step::Done(Err(e));
            },
        };
        Step::Call(
            Syscall::LinkAt {
                old_dir: self.proc_self_fd(),
                path: Path::Fd(data.fd),
                new_dir: dir.fd,
                flags: AT_SYMLINK_FOLLOW,
            },
            Link::Make {
                newparent,
                proc_self_fd: self.proc_self_fd(),
                place: data.fd,
                new_dir: dir.fd,
            },
        )
    }

    /// Gives a file one more name.
    pub fn link(&self, inode: Inode, newparent: Inode, newname: &[u8]) -> (step: Step<
        Carrying<Link>,
        Entry,
    >)
        ensures
            bare(step) == link_start(self@, inode, newparent),
            carries(step, just_name(newname@)),
    {
        carry(self.do_link(inode, newparent), Carried::named(newname))
    }

    /// Reads the text of a symbolic link.
    pub fn readlink(&self, inode: Inode) -> (step: Step<ReadLink, Vec<u8>>)
        ensures
            step == readlink_start(self@, inode),
    {
        match self.inode_data(inode) {
            Ok(data) => Step::Call(
                Syscall::ReadLinkAt { fd: data.fd, size: PATH_MAX },
                ReadLink { fd: data.fd },
            ),
            Err(e) => Step::Done(Err(e)),
        }
    }

    /// Flushes a file, as the client closes one of its descriptors for it.
    pub fn flush(&self, inode: Inode, handle: Handle) -> (step: Step<Flush, ()>)
        ensures
            step == flush_start(self@, inode, handle),
    {
        match self.handle_data(inode, handle) {
            Ok(data) => Step::Call(
                Syscall::Dup { fd: data.fd },
                Flush::Duplicate { fd: data.fd },
            ),
            Err(e) => Step::Done(Err(e)),
        }
    }

    /// Writes a file to the disk, its attributes too unless `datasync`.
    pub fn fsync(&self, inode: Inode, datasync: bool, handle: Handle) -> (step: Step<Simple, ()>)
        ensures
            step == fsync_start(self@, inode, datasync, handle),
    {
        match self.handle_data(inode, handle) {
            Ok(data) => if datasync {
                make_simple(Ok(Syscall::Fdatasync { fd: data.fd }))
            } else {
                make_simple(Ok(Syscall::Fsync { fd: data.fd }))
            },
            Err(e) => make_simple(Err(e)),
        }
    }

    /// Writes a directory to the disk.
    pub fn fsyncdir(&self, inode: Inode, datasync: bool, handle: Handle) -> (step: Step<Simple, ()>)
        ensures
            step == fsync_start(self@, inode, datasync, handle),
    {
        self.fsync(inode, datasync, handle)
    }

    /// Reserves or frees space of a file.
    pub fn fallocate(&self, inode: Inode, handle: Handle, mode: u32, offset: u64, length: u64) -> (step:
        Step<Simple, ()>)
        ensures
            step == fallocate_start(self@, inode, handle, mode, offset, length),
    {
        match self.handle_data(inode, handle) {
            Ok(data) => make_simple(
                Ok(
                    Syscall::Fallocate {
                        fd: data.fd,
                        mode: #[verifier::truncate]
                        (mode as i32),
                        offset: #[verifier::truncate]
                        (offset as i64),
                        length: #[verifier::truncate]
                        (length as i64),
                    },
                ),
            ),
            Err(e) => make_simple(Err(e)),
        }
    }

    /// Moves the position in a file.
    pub fn lseek(&self, inode: Inode, handle: Handle, offset: u64, whence: u32) -> (step: Step<
        Seek,
        u64,
    >)
        ensures
            step == lseek_start(self@, inode, handle, offset, whence),
    {
        match self.handle_data(inode, handle) {
            Ok(data) => {
                let offset: i64 = #[verifier::truncate]
                (offset as i64);
                let whence: i32 = #[verifier::truncate]
                (whence as i32);
                Step::Call(
                    Syscall::Lseek { fd: data.fd, offset, whence },
                    Seek { fd: data.fd, offset, whence },
                )
            },
            Err(e) => Step::Done(Err(e)),
        }
    }

    /// Copies `len` bytes from one open file to another.
    pub fn copyfilerange(
        &self,
        inode_in: Inode,
        handle_in: Handle,
        offset_in: u64,
        inode_out: Inode,
        handle_out: Handle,
        offset_out: u64,
        len: u64,
        flags: u64,
    ) -> (step: Step<CopyRange, usize>)
        requires
            self@.find_handle(inode_in, handle_in) is Ok && self@.find_handle(
                inode_out,
                handle_out,
            ) is Ok ==> len <= usize::MAX && flags <= u32::MAX,
        ensures
            step == copy_start(
                self@,
                (inode_in, handle_in, offset_in),
                (inode_out, handle_out, offset_out),
                len,
                flags,
            ),
    {
        let data_in = match self.handle_data(inode_in, handle_in) {
            Ok(data) => data,
            Err(e) => {
                return Step::Done(Err(e));
            },
        };
        let data_out = match self.handle_data(inode_out, handle_out) {
            Ok(data) => data,
            Err(e) => {
                return Step::Done(Err(e));
            },
        };
        let op = CopyRange {
            fd_in: data_in.fd,
            offset_in: #[verifier::truncate]
            (offset_in as i64),
            fd_out: data_out.fd,
            offset_out: #[verifier::truncate]
            (offset_out as i64),
            len: len as usize,
            flags: flags as u32,
        };
        Step::Call(
            Syscall::CopyFileRange {
                fd_in: op.fd_in,
                offset_in: op.offset_in,
                fd_out: op.fd_out,
                offset_out: op.offset_out,
                len: op.len,
                flags: op.flags,
            },
            op,
        )
    }
}

/// Linking keeps account of files.
pub proof fn law_link_accounts_for_files(op: Link, fs: FsView, reply: Reply, f: RawFd)
    requires
        fs.wf(),
        op.pending().answered_by(reply),
    ensures
        ({
            let (after, step) = op.next(fs, reply);
            after.holds(f) || (step matches Step::Call(_, op) && op.holds(f)) <==> fs.holds(f)
                || op.holds(f) || reply == Reply::Fd(f)
        }),
{
    if let Link::Find { lookup } = op {
        law_lookup_step_accounts_for_files(lookup, fs, reply, f);
    }
}

} // verus!
