//! Moving data between files and the client.

use crate::abi::{EINVAL, S_ISGID, S_ISUID};
use crate::fs::{FsView, PassthroughFs, INIT_INODE};
use crate::metadata::{
    has_override_xattr, set_override_xattr, stat, HasOverride, StatFile, WriteOverride,
};
use crate::model::{einval, FsError, Handle, Inode, RawFd, Stat};
use crate::override_stat::{clear_suid_sgid, law_only_setid_bits_are_cleared, without_setid};
use crate::scoped::{scope, scoped, Scoped};
use crate::step::{Reply, Step, Syscall};
use vstd::pervasive::unreached;
use vstd::prelude::*;

verus! {

/// Serves a read: the host sends the data and says how much it was.
#[derive(Clone, Copy, Debug, PartialEq, Eq)]
pub enum Read {
    Init { start: usize, len: usize },
    File { fd: RawFd, size: usize, offset: u64 },
}

impl Read {
    pub open spec fn pending(self) -> Syscall {
        match self {
            Read::Init { start, len } => Syscall::SendInit { start, len },
            Read::File { fd, size, offset } => Syscall::SendFile { fd, size, offset },
        }
    }

    pub open spec fn wait(self) -> Step<Read, usize> {
        Step::Call(self.pending(), self)
    }

    pub open spec fn next(self, reply: Reply) -> Step<Read, usize> {
        match reply {
            Reply::Fail(e) => Step::Done(Err(FsError::Os(e))),
            Reply::Num(n) => Step::Done(Ok(n as usize)),
            _ => arbitrary(),
        }
    }

    pub fn resume(self, reply: Reply) -> (step: Step<Read, usize>)
        requires
            self.pending().answered_by(reply),
        ensures
            step == self.next(reply),
    {
        match reply {
            Reply::Fail(e) => Step::Done(Err(FsError::from_raw_os_error(e))),
            Reply::Num(n) => Step::Done(
                Ok(
                    #[verifier::truncate]
                    (n as usize),
                ),
            ),
            _ => unreached(),
        }
    }
}

/// How much of the init program a read of `size` bytes at `start` gets: as much as there is.
pub open spec fn init_part(init_len: usize, start: usize, size: u32) -> usize {
    if start + size < init_len {
        size as usize
    } else {
        (init_len - start) as usize
    }
}

/// How a read starts.
pub open spec fn read_start(fs: FsView, inode: Inode, handle: Handle, size: u32, offset: u64) -> Step<
    Read,
    usize,
> {
    if inode == INIT_INODE {
        if offset > usize::MAX {
            Step::Done(Err(FsError::Os(EINVAL)))
        } else {
            Read::Init {
                start: offset as usize,
                len: init_part(fs.init_len, offset as usize, size),
            }.wait()
        }
    } else {
        match fs.find_handle(inode, handle) {
            Ok(data) => Read::File { fd: data.fd, size: size as usize, offset }.wait(),
            Err(e) => Step::Done(Err(e)),
        }
    }
}

/// Serves a write. Where the writer's privileges are to go, the set-id bits of the file go too: the
/// host takes them from its mode, and those in an override are taken here.
#[allow(inconsistent_fields)]
#[derive(Clone, Copy, Debug, PartialEq, Eq)]
pub enum Write {
    DropPriv { inode: Inode, handle: Handle, size: u32, offset: u64 },
    Store { fd: RawFd, size: usize, offset: u64, kill_priv: bool },
    /// Finds out whether the file, of which `done` bytes were written, has an override.
    FindMode { fd: RawFd, done: usize, find: HasOverride },
    ReadMode { fd: RawFd, done: usize, stat: StatFile },
    RecordMode { done: usize, write: WriteOverride },
}

impl Write {
    pub open spec fn pending(self) -> Syscall {
        match self {
            Write::DropPriv { .. } => Syscall::DropFsetid,
            Write::Store { fd, size, offset, .. } => Syscall::StoreFile { fd, size, offset },
            Write::FindMode { find, .. } => find.pending(),
            Write::ReadMode { stat, .. } => stat.pending(),
            Write::RecordMode { write, .. } => write.pending(),
        }
    }

    pub open spec fn wait(self) -> Step<Write, usize> {
        Step::Call(self.pending(), self)
    }

    /// Where the write stands once nothing but the data is missing.
    pub open spec fn to_store(
        fs: FsView,
        inode: Inode,
        handle: Handle,
        size: u32,
        offset: u64,
        kill_priv: bool,
    ) -> Step<Write, usize> {
        match fs.find_handle(inode, handle) {
            Ok(data) => Write::Store {
                fd: data.fd,
                size: size as usize,
                offset,
                kill_priv,
            }.wait(),
            Err(e) => Step::Done(Err(e)),
        }
    }

    /// Where the write stands once the file's mode is known.
    pub open spec fn to_record(fd: RawFd, done: usize, st: Stat) -> Step<Write, usize> {
        let mode = without_setid(st.st_mode);
        if mode != st.st_mode {
            Write::RecordMode {
                done,
                write: WriteOverride::Kind { fd, owner: None, mode: Some(mode) },
            }.wait()
        } else {
            Step::Done(Ok(done))
        }
    }

    pub open spec fn next(self, fs: FsView, reply: Reply) -> Step<Write, usize> {
        match self {
            Write::DropPriv { inode, handle, size, offset } => match reply {
                Reply::Fail(e) => Step::Done(Err(FsError::Os(e))),
                _ => Write::to_store(fs, inode, handle, size, offset, true),
            },
            Write::Store { fd, kill_priv, .. } => match reply {
                Reply::Fail(e) => Step::Done(Err(FsError::Os(e))),
                Reply::Num(n) => if kill_priv {
                    Write::FindMode {
                        fd,
                        done: n as usize,
                        find: HasOverride::Kind { fd },
                    }.wait()
                } else {
                    Step::Done(Ok(n as usize))
                },
                _ => arbitrary(),
            },
            Write::FindMode { fd, done, find } => match find.next(reply) {
                Step::Call(_, find) => Write::FindMode { fd, done, find }.wait(),
                Step::Done(Ok(true)) => Write::ReadMode {
                    fd,
                    done,
                    stat: StatFile::Host { fd, host_uid: fs.my_uid, host_gid: fs.my_gid },
                }.wait(),
                Step::Done(Ok(false)) => Step::Done(Ok(done)),
                Step::Done(Err(e)) => Step::Done(Err(e)),
            },
            Write::ReadMode { fd, done, stat } => match stat.next(reply) {
                Step::Call(_, stat) => Write::ReadMode { fd, done, stat }.wait(),
                Step::Done(Ok(st)) => Write::to_record(fd, done, st),
                Step::Done(Err(e)) => Step::Done(Err(e)),
            },
            Write::RecordMode { done, write } => match write.next(reply) {
                Step::Call(_, write) => Write::RecordMode { done, write }.wait(),
                Step::Done(Ok(_)) => Step::Done(Ok(done)),
                Step::Done(Err(e)) => Step::Done(Err(e)),
            },
        }
    }

    fn do_store(
        fs: &PassthroughFs,
        inode: Inode,
        handle: Handle,
        size: u32,
        offset: u64,
        kill_priv: bool,
    ) -> (step: Step<Write, usize>)
        ensures
            step == Write::to_store(fs@, inode, handle, size, offset, kill_priv),
    {
        match fs.handle_data(inode, handle) {
            Ok(data) => Step::Call(
                Syscall::StoreFile { fd: data.fd, size: size as usize, offset },
                Write::Store { fd: data.fd, size: size as usize, offset, kill_priv },
            ),
            Err(e) => Step::Done(Err(e)),
        }
    }

    fn do_record(fd: RawFd, done: usize, st: Stat) -> (step: Step<Write, usize>)
        ensures
            step == Write::to_record(fd, done, st),
    {
        let mode: u32 = clear_suid_sgid(st.st_mode);
        if mode != st.st_mode {
            match set_override_xattr(fd, None, Some(mode)) {
                Step::Call(call, write) => Step::Call(call, Write::RecordMode { done, write }),
                _ => unreached(),
            }
        } else {
            Step::Done(Ok(done))
        }
    }

    pub fn resume(self, fs: &PassthroughFs, reply: Reply) -> (step: Step<Write, usize>)
        requires
            self.pending().answered_by(reply),
        ensures
            step == self.next(fs@, reply),
    {
        match self {
            Write::DropPriv { inode, handle, size, offset } => match reply {
                Reply::Fail(e) => Step::Done(Err(FsError::from_raw_os_error(e))),
                _ => Write::do_store(fs, inode, handle, size, offset, true),
            },
            Write::Store { fd, size: _, offset: _, kill_priv } => match reply {
                Reply::Fail(e) => Step::Done(Err(FsError::from_raw_os_error(e))),
                Reply::Num(n) => {
                    let done: usize = #[verifier::truncate]
                    (n as usize);
                    if kill_priv {
                        match has_override_xattr(fd) {
                            Step::Call(call, find) => Step::Call(
                                call,
                                Write::FindMode { fd, done, find },
                            ),
                            _ => unreached(),
                        }
                    } else {
                        Step::Done(Ok(done))
                    }
                },
                _ => unreached(),
            },
            Write::FindMode { fd, done, find } => match find.resume(reply) {
                Step::Call(call, find) => Step::Call(call, Write::FindMode { fd, done, find }),
                Step::Done(Ok(found)) => if found {
                    match stat(fd, fs.my_uid(), fs.my_gid()) {
                        Step::Call(call, stat) => Step::Call(
                            call,
                            Write::ReadMode { fd, done, stat },
                        ),
                        _ => unreached(),
                    }
                } else {
                    Step::Done(Ok(done))
                },
                Step::Done(Err(e)) => Step::Done(Err(e)),
            },
            Write::ReadMode { fd, done, stat } => match stat.resume(reply) {
                Step::Call(call, stat) => Step::Call(call, Write::ReadMode { fd, done, stat }),
                Step::Done(Ok(st)) => Write::do_record(fd, done, st),
                Step::Done(Err(e)) => Step::Done(Err(e)),
            },
            Write::RecordMode { done, write } => match write.resume(reply) {
                Step::Call(call, write) => Step::Call(call, Write::RecordMode { done, write }),
                Step::Done(Ok(())) => Step::Done(Ok(done)),
                Step::Done(Err(e)) => Step::Done(Err(e)),
            },
        }
    }
}

/// How a write starts.
pub open spec fn write_start(
    fs: FsView,
    inode: Inode,
    handle: Handle,
    size: u32,
    offset: u64,
    kill_priv: bool,
) -> Step<Write, usize> {
    if kill_priv {
        Write::DropPriv { inode, handle, size, offset }.wait()
    } else {
        Write::to_store(fs, inode, handle, size, offset, false)
    }
}

impl PassthroughFs {
    /// Reads from a file, or from the init program, which is not read beyond its end.
    pub fn read(&self, inode: Inode, handle: Handle, size: u32, offset: u64) -> (step: Step<
        Read,
        usize,
    >)
        requires
            inode == INIT_INODE && offset <= usize::MAX ==> offset <= self@.init_len,
        ensures
            step == read_start(self@, inode, handle, size, offset),
    {
        if inode == INIT_INODE {
            if offset > usize::MAX as u64 {
                return Step::Done(Err(einval()));
            }
            let start: usize = offset as usize;
            let rest: usize = self.init_len() - start;
            let len: usize = if (size as usize) < rest {
                size as usize
            } else {
                rest
            };
            return Step::Call(Syscall::SendInit { start, len }, Read::Init { start, len });
        }
        match self.handle_data(inode, handle) {
            Ok(data) => Step::Call(
                Syscall::SendFile { fd: data.fd, size: size as usize, offset },
                Read::File { fd: data.fd, size: size as usize, offset },
            ),
            Err(e) => Step::Done(Err(e)),
        }
    }

    fn do_write(
        &self,
        inode: Inode,
        handle: Handle,
        size: u32,
        offset: u64,
        kill_priv: bool,
    ) -> (step: Step<Write, usize>)
        ensures
            step == write_start(self@, inode, handle, size, offset, kill_priv),
    {
        if kill_priv {
            Step::Call(Syscall::DropFsetid, Write::DropPriv { inode, handle, size, offset })
        } else {
            Write::do_store(self, inode, handle, size, offset, kill_priv)
        }
    }

    /// Writes to a file.
    pub fn write(
        &self,
        inode: Inode,
        handle: Handle,
        size: u32,
        offset: u64,
        kill_priv: bool,
    ) -> (step: Step<Scoped<Write, usize>, usize>)
        ensures
            step == scoped(write_start(self@, inode, handle, size, offset, kill_priv), false),
    {
        scope(self.do_write(inode, handle, size, offset, kill_priv), false)
    }
}

/// A read of the init program stays within it, and gets all that is asked for and there. The client is
/// told how much was sent.
pub proof fn law_init_is_read_within_its_bounds(
    fs: FsView,
    handle: Handle,
    size: u32,
    offset: u64,
    n: u64,
    e: i32,
)
    requires
        offset <= fs.init_len,
    ensures
        match read_start(fs, INIT_INODE, handle, size, offset) {
            Step::Call(Syscall::SendInit { start, len }, _) => {
                &&& start == offset
                &&& start + len <= fs.init_len
                &&& len <= size
                &&& len == size || start + len == fs.init_len
            },
            _ => false,
        },
        n <= usize::MAX ==> (read_start(fs, INIT_INODE, handle, size, offset) matches Step::Call(
            _,
            op,
        ) && (op.next(Reply::Num(n)) matches Step::Done(Ok(sent)) && sent == n)),
        read_start(fs, INIT_INODE, handle, size, offset) matches Step::Call(_, op) && (op.next(
            Reply::Fail(e),
        ) matches Step::Done(Err(err)) && err == FsError::Os(e)),
{
}

/// A write with the writer's privileges gone leaves no set-id bit in an override: what is recorded
/// has none and is the mode otherwise, and nothing is recorded only where there was none.
pub proof fn law_write_takes_setid_bits(fd: RawFd, done: usize, st: Stat)
    ensures
        match Write::to_record(fd, done, st) {
            Step::Call(_, Write::RecordMode { write, .. }) => {
                write matches WriteOverride::Kind { fd: to, owner, mode: Some(mode) } && to == fd
                    && owner is None && mode & S_ISUID == 0 && mode & S_ISGID == 0 && mode | (
                st.st_mode & (S_ISUID | S_ISGID)) == st.st_mode
            },
            Step::Call(..) => false,
            Step::Done(res) => res == Ok::<usize, FsError>(done) && st.st_mode & S_ISUID == 0
                && st.st_mode & S_ISGID == 0,
        },
{
    law_only_setid_bits_are_cleared(st.st_mode);
}

/// The capability to keep set-id bits is dropped before any data is written for a writer whose
/// privileges are to go, and if it cannot be dropped nothing is written.
pub proof fn law_no_write_with_privileges(
    fs: FsView,
    inode: Inode,
    handle: Handle,
    size: u32,
    offset: u64,
    e: i32,
)
    ensures
        ({
            let start = Write::DropPriv { inode, handle, size, offset };
            &&& start.pending() == Syscall::DropFsetid
            &&& start.next(fs, Reply::Fail(e)) matches Step::Done(Err(err)) && err == FsError::Os(e)
        }),
{
}

} // verus!
