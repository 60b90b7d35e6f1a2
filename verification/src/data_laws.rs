//! Which bytes of which file a request moves, and what becomes of the files that the client opens.

use crate::abi::{
    EBADF, EINVAL, MAP_ANONYMOUS, MAP_FIXED, MAP_PRIVATE, MAP_SHARED, NO_FD, OPEN_CACHE_DIR, OPEN_DIRECT_IO,
    OPEN_KEEP_CACHE, O_ACCMODE, O_APPEND, O_CLOEXEC, O_NOATIME, O_RDONLY, O_RDWR, PROT_NONE,
    PROT_READ, PROT_WRITE, SETUPMAPPING_WRITE, S_ISGID, S_ISUID,
};
use crate::config::CachePolicy;
use crate::create::create_options;
use crate::fs::{FsView, INIT_HANDLE, INIT_INODE};
use crate::io::{read_start, write_start, Write};
use crate::mapping::{
    fits, is_addressable, setupmapping_start, RemoveMapping, RemovemappingOne,
};
use crate::metadata::{HasOverride, ReadOverride, StatFile, WriteOverride};
use crate::model::{FsError, Handle, Inode, Machine, RawFd};
use crate::open::{
    any_open_start, granted_flags, law_open_flags, open_options, open_start, opendir_start, released,
    Open, Release,
};
use crate::ops::{copy_start, fallocate_start, flush_start, fsync_start, lseek_start};
use crate::override_laws::{law_override_work_stays_on_its_file, works_on};
use crate::override_stat::law_only_setid_bits_are_cleared;
use crate::step::{Path, Reply, Step, Syscall};
use vstd::prelude::*;

verus! {

/// The number that the bits of `n` stand for on the host, where half of the numbers are negative.
pub open spec fn signed(n: u64) -> int {
    if n <= i64::MAX {
        n as int
    } else {
        n - 0x1_0000_0000_0000_0000
    }
}

/// The same of a number of half the width.
pub open spec fn signed_half(n: u32) -> int {
    if n <= i32::MAX {
        n as int
    } else {
        n - 0x1_0000_0000
    }
}

pub proof fn lemma_signed(n: u64)
    ensures
        (n as i64) == signed(n),
{
    assert(n > 0x7fff_ffff_ffff_ffffu64 ==> (n as i64) == n - 0x1_0000_0000_0000_0000)
        by (bit_vector);
}

pub proof fn lemma_signed_half(n: u32)
    ensures
        (n as i32) == signed_half(n),
{
    assert(n > 0x7fff_ffffu32 ==> (n as i32) == n - 0x1_0000_0000) by (bit_vector);
}

impl FsView {
    /// Whether the client has `fd` open as `handle`, for the file that it knows as `inode`.
    pub open spec fn has_open(self, inode: Inode, handle: Handle, fd: RawFd) -> bool {
        &&& self.handles.contains_key(handle)
        &&& self.handles[handle].inode == inode
        &&& self.handles[handle].fd == fd
    }

    /// Whether the client knows a file as `inode`, whose place is open as `fd`.
    pub open spec fn has_place(self, inode: Inode, fd: RawFd) -> bool {
        &&& self.inodes.contains_key(inode)
        &&& self.inodes[inode].1.fd == fd
    }
}

/// Whether a write that goes on has stored `done` bytes in `fd`, and is about that file only.
pub open spec fn has_written(op: Write, fd: RawFd, done: usize) -> bool {
    match op {
        Write::FindMode { fd: own, done: n, find } => own == fd && n == done && find.is_of(fd),
        Write::ReadMode { fd: own, done: n, stat } => own == fd && n == done && stat.is_of(fd),
        Write::RecordMode { done: n, write } => n == done && write.is_of(fd),
        _ => false,
    }
}

/// A read sends the client just the bytes that it asked for: `size` of them at `offset` of the file
/// that it has open. The client is told how many the host sent, or why it sent none.
pub proof fn law_read_sends_what_is_asked_for(
    fs: FsView,
    inode: Inode,
    handle: Handle,
    fd: RawFd,
    size: u32,
    offset: u64,
    n: u64,
    e: i32,
)
    requires
        inode != INIT_INODE,
        fs.has_open(inode, handle, fd),
        n <= usize::MAX,
    ensures
        ({
            &&& read_start(fs, inode, handle, size, offset) matches Step::Call(call, op)
            &&& call matches Syscall::SendFile { fd: from, size: asked, offset: at }
            &&& from == fd
            &&& asked == size
            &&& at == offset
            &&& op.next(Reply::Num(n)) matches Step::Done(Ok(sent))
            &&& sent == n
            &&& op.next(Reply::Fail(e)) matches Step::Done(Err(err))
            &&& err == FsError::Os(e)
        }),
{
}

/// A write stores just the bytes that the client sent: `size` of them at `offset` of the file that it
/// has open, whether or not the writer's privileges are to go first. Where they need not go, the
/// client is told how many bytes the host stored.
pub proof fn law_write_stores_what_is_sent(
    fs: FsView,
    inode: Inode,
    handle: Handle,
    fd: RawFd,
    size: u32,
    offset: u64,
    kill_priv: bool,
    held: bool,
    n: u64,
    e: i32,
)
    requires
        fs.has_open(inode, handle, fd),
        n <= usize::MAX,
    ensures
        ({
            let first = write_start(fs, inode, handle, size, offset, kill_priv);
            let store = match first {
                Step::Call(Syscall::DropFsetid, op) => op.next(fs, Reply::Held(held)),
                _ => first,
            };
            &&& kill_priv <==> (first matches Step::Call(Syscall::DropFsetid, _))
            &&& store matches Step::Call(call, op)
            &&& call matches Syscall::StoreFile { fd: to, size: sent, offset: at }
            &&& to == fd
            &&& sent == size
            &&& at == offset
            &&& op.next(fs, Reply::Fail(e)) matches Step::Done(Err(err))
            &&& err == FsError::Os(e)
            &&& match op.next(fs, Reply::Num(n)) {
                Step::Done(res) => !kill_priv && res == Ok::<usize, FsError>(n as usize),
                Step::Call(_, then) => kill_priv && has_written(then, fd, n as usize),
            }
        }),
{
}

/// What a write does after the data is stored is about the file that it wrote to and nothing else. It
/// changes no number of bytes: a write that ends well ends with the number that the host stored.
pub proof fn law_write_reports_what_was_stored(
    op: Write,
    fs: FsView,
    fd: RawFd,
    done: usize,
    reply: Reply,
)
    requires
        has_written(op, fd, done),
        op.pending().answered_by(reply),
    ensures
        op.next(fs, reply) matches Step::Done(Ok(n)) ==> n == done,
        op.next(fs, reply) matches Step::Call(call, then) ==> has_written(then, fd, done) && call
            == then.pending() && works_on(call, fd),
{
    match op {
        Write::FindMode { find, .. } => {
            law_override_work_stays_on_its_file(
                fd,
                ReadOverride::Kind { fd },
                find,
                WriteOverride::Kind { fd, owner: None, mode: None },
                StatFile::Host { fd, host_uid: None, host_gid: None },
                reply,
            );
        },
        Write::ReadMode { stat, .. } => {
            law_override_work_stays_on_its_file(
                fd,
                ReadOverride::Kind { fd },
                HasOverride::Kind { fd },
                WriteOverride::Kind { fd, owner: None, mode: None },
                stat,
                reply,
            );
        },
        Write::RecordMode { write, .. } => {
            law_override_work_stays_on_its_file(
                fd,
                ReadOverride::Kind { fd },
                HasOverride::Kind { fd },
                write,
                StatFile::Host { fd, host_uid: None, host_gid: None },
                reply,
            );
        },
        _ => {},
    }
}

/// A write for a writer whose privileges are gone takes the set-id bits out of an override, where the
/// file has one: it finds out whether there is one, reads the mode that the guest sees if so, and records
/// that without the bits if it had any. In every other case it is done.
pub proof fn law_write_takes_the_bits_of_an_override(
    fd: RawFd,
    done: usize,
    find: HasOverride,
    stat: StatFile,
    write: WriteOverride,
    fs: FsView,
    reply: Reply,
)
    ensures
        (Write::FindMode { fd, done, find }).pending() == find.pending(),
        (Write::ReadMode { fd, done, stat }).pending() == stat.pending(),
        (Write::RecordMode { done, write }).pending() == write.pending(),
        find.pending().answered_by(reply) ==> ({
            let op = Write::FindMode { fd, done, find };
            match find.next(reply) {
                Step::Call(_, then) => op.next(fs, reply) == (Write::FindMode {
                    fd,
                    done,
                    find: then,
                }).wait(),
                Step::Done(Ok(true)) => op.next(fs, reply) == (Write::ReadMode {
                    fd,
                    done,
                    stat: StatFile::Host { fd, host_uid: fs.my_uid, host_gid: fs.my_gid },
                }).wait(),
                Step::Done(Ok(false)) => op.next(fs, reply) == Step::<Write, usize>::Done(Ok(done)),
                Step::Done(Err(e)) => op.next(fs, reply) == Step::<Write, usize>::Done(Err(e)),
            }
        }),
        stat.pending().answered_by(reply) ==> ({
            let op = Write::ReadMode { fd, done, stat };
            match (op.next(fs, reply), stat.next(reply)) {
                (step, Step::Call(_, then)) => step == (Write::ReadMode {
                    fd,
                    done,
                    stat: then,
                }).wait(),
                (Step::Call(_, then), Step::Done(Ok(st))) => {
                    &&& st.st_mode & S_ISUID != 0 || st.st_mode & S_ISGID != 0
                    &&& then == (Write::RecordMode {
                        done,
                        write: WriteOverride::Kind {
                            fd,
                            owner: None,
                            mode: Some(st.st_mode & !(S_ISUID | S_ISGID)),
                        },
                    })
                },
                (Step::Done(res), Step::Done(Ok(st))) => {
                    &&& st.st_mode & S_ISUID == 0 && st.st_mode & S_ISGID == 0
                    &&& res == Ok::<usize, FsError>(done)
                },
                (step, Step::Done(Err(e))) => step == Step::<Write, usize>::Done(Err(e)),
            }
        }),
        write.pending().answered_by(reply) ==> ({
            let op = Write::RecordMode { done, write };
            match write.next(reply) {
                Step::Call(_, then) => op.next(fs, reply) == (Write::RecordMode {
                    done,
                    write: then,
                }).wait(),
                Step::Done(Ok(_)) => op.next(fs, reply) == Step::<Write, usize>::Done(Ok(done)),
                Step::Done(Err(e)) => op.next(fs, reply) == Step::<Write, usize>::Done(Err(e)),
            }
        }),
{
    if let Step::Done(Ok(st)) = stat.next(reply) {
        law_only_setid_bits_are_cleared(st.st_mode);
        let mode = st.st_mode;
        assert(mode & !(0o4000u32 | 0o2000u32) != mode <==> mode & 0o4000u32 != 0 || mode & 0o2000u32
            != 0) by (bit_vector);
    }
}

/// A file is written to the disk through the handle that is named, its attributes too just where that
/// is asked for.
pub proof fn law_sync_is_of_the_open_file(
    fs: FsView,
    inode: Inode,
    handle: Handle,
    fd: RawFd,
    datasync: bool,
    e: i32,
)
    requires
        fs.has_open(inode, handle, fd),
    ensures
        ({
            &&& fsync_start(fs, inode, datasync, handle) matches Step::Call(call, op)
            &&& match call {
                Syscall::Fdatasync { fd: of } => datasync && of == fd,
                Syscall::Fsync { fd: of } => !datasync && of == fd,
                _ => false,
            }
            &&& op.next(Reply::Unit) matches Step::Done(Ok(_))
            &&& op.next(Reply::Fail(e)) matches Step::Done(Err(err))
            &&& err == FsError::Os(e)
        }),
{
}

/// Space is reserved or freed in the file that is open, in the range that is named.
pub proof fn law_space_is_reserved_where_asked(
    fs: FsView,
    inode: Inode,
    handle: Handle,
    fd: RawFd,
    mode: u32,
    offset: u64,
    length: u64,
    e: i32,
)
    requires
        fs.has_open(inode, handle, fd),
    ensures
        ({
            &&& fallocate_start(fs, inode, handle, mode, offset, length) matches Step::Call(call, op)
            &&& call matches Syscall::Fallocate { fd: of, mode: how, offset: at, length: n }
            &&& of == fd
            &&& how == signed_half(mode)
            &&& at == signed(offset)
            &&& n == signed(length)
            &&& op.next(Reply::Unit) matches Step::Done(Ok(_))
            &&& op.next(Reply::Fail(e)) matches Step::Done(Err(err))
            &&& err == FsError::Os(e)
        }),
{
    lemma_signed_half(mode);
    lemma_signed(offset);
    lemma_signed(length);
}

/// The position of the file that is open is moved as asked, and the client is told where it then is.
pub proof fn law_seek_moves_as_asked(
    fs: FsView,
    inode: Inode,
    handle: Handle,
    fd: RawFd,
    offset: u64,
    whence: u32,
    n: u64,
    e: i32,
)
    requires
        fs.has_open(inode, handle, fd),
    ensures
        ({
            &&& lseek_start(fs, inode, handle, offset, whence) matches Step::Call(call, op)
            &&& call matches Syscall::Lseek { fd: of, offset: to, whence: from }
            &&& of == fd
            &&& to == signed(offset)
            &&& from == signed_half(whence)
            &&& op.next(Reply::Num(n)) matches Step::Done(Ok(at))
            &&& at == n
            &&& op.next(Reply::Fail(e)) matches Step::Done(Err(err))
            &&& err == FsError::Os(e)
        }),
{
    lemma_signed(offset);
    lemma_signed_half(whence);
}

/// A copy goes from the first file to the second and not back, each at its own offset, also where both
/// are the same file. The client is told how many bytes the host copied.
pub proof fn law_copy_goes_from_first_to_second(
    fs: FsView,
    from: (Inode, Handle, u64),
    to: (Inode, Handle, u64),
    fd_from: RawFd,
    fd_to: RawFd,
    len: u64,
    flags: u64,
    n: u64,
    e: i32,
)
    requires
        fs.has_open(from.0, from.1, fd_from),
        fs.has_open(to.0, to.1, fd_to),
        len <= usize::MAX,
        flags <= u32::MAX,
        n <= usize::MAX,
    ensures
        ({
            &&& copy_start(fs, from, to, len, flags) matches Step::Call(call, op)
            &&& call matches Syscall::CopyFileRange {
                fd_in,
                offset_in,
                fd_out,
                offset_out,
                len: asked,
                flags: how,
            }
            &&& fd_in == fd_from
            &&& offset_in == signed(from.2)
            &&& fd_out == fd_to
            &&& offset_out == signed(to.2)
            &&& asked == len
            &&& how == flags
            &&& op.next(Reply::Num(n)) matches Step::Done(Ok(copied))
            &&& copied == n
            &&& op.next(Reply::Fail(e)) matches Step::Done(Err(err))
            &&& err == FsError::Os(e)
        }),
{
    lemma_signed(from.2);
    lemma_signed(to.2);
}

/// A copy is made only between two files that the client has open.
pub proof fn law_copy_needs_both_files(
    fs: FsView,
    from: (Inode, Handle, u64),
    to: (Inode, Handle, u64),
    len: u64,
    flags: u64,
)
    requires
        !fs.has_open(from.0, from.1, fs.handles[from.1].fd) || !fs.has_open(
            to.0,
            to.1,
            fs.handles[to.1].fd,
        ),
    ensures
        copy_start(fs, from, to, len, flags) matches Step::Done(Err(e)) && e == FsError::Os(EBADF),
{
}

/// A flush closes a duplicate of the file that is open, the one that the host made for it, and leaves
/// the file itself open.
pub proof fn law_flush_closes_a_duplicate(
    fs: FsView,
    inode: Inode,
    handle: Handle,
    fd: RawFd,
    twin: RawFd,
    e: i32,
)
    requires
        fs.has_open(inode, handle, fd),
    ensures
        ({
            &&& flush_start(fs, inode, handle) matches Step::Call(dup, op)
            &&& dup == (Syscall::Dup { fd })
            &&& op.next(Reply::Fail(e)) matches Step::Done(Err(err))
            &&& err == FsError::Os(e)
            &&& op.next(Reply::Fd(twin)) matches Step::Call(close, last)
            &&& close == (Syscall::Close { fd: twin })
            &&& last.next(Reply::Unit) matches Step::Done(Ok(_))
            &&& last.next(Reply::Fail(e)) matches Step::Done(Err(err))
            &&& err == FsError::Os(e)
        }),
{
}

/// An open of a known inode opens the file in that inode's place, through its link under
/// `/proc/self/fd`, after the privileges are gone where they are to go. What the host opened is then
/// the client's, as a file of that inode, under the handle that it is told; nothing else about inodes
/// and handles changes. An open that fails changes nothing.
pub proof fn law_open_files_what_the_host_opened(
    fs: FsView,
    inode: Inode,
    place: RawFd,
    kill_priv: bool,
    flags: u32,
    held: bool,
    fd: RawFd,
    e: i32,
)
    requires
        fs.has_place(inode, place),
    ensures
        ({
            let first = open_start(fs, inode, kill_priv, flags);
            let file = match first {
                Step::Call(Syscall::DropFsetid, op) => op.next(fs, Reply::Held(held)),
                _ => (fs, first),
            };
            &&& kill_priv <==> (first matches Step::Call(Syscall::DropFsetid, _))
            &&& first matches Step::Call(_, begun)
            &&& begun.next(fs, Reply::Fail(e)) == (
                fs,
                Step::<Open, (Option<Handle>, u32)>::Done(Err(FsError::Os(e))),
            )
            &&& file.0 == fs
            &&& file.1 == open_start(fs, inode, false, flags)
            &&& file.1 matches Step::Call(call, op)
            &&& call matches Syscall::OpenAt { dir, path, mode, .. }
            &&& dir == fs.proc_self_fd
            &&& path == Path::Fd(place)
            &&& mode == 0
            &&& op.next(fs, Reply::Fail(e)).0 == fs
            &&& op.next(fs, Reply::Fail(e)).1 matches Step::Done(Err(err))
            &&& err == FsError::Os(e)
            &&& op.next(fs, Reply::Fd(fd)).1 matches Step::Done(Ok((Some(handle), _)))
            &&& gains_handle(fs, op.next(fs, Reply::Fd(fd)).0, inode, handle, fd)
        }),
{
}

/// A directory is opened as any file is, and as a directory: the host is asked so, and so is the client
/// told about caching.
pub proof fn law_opendir_opens_a_directory(fs: FsView, inode: Inode, flags: u32)
    ensures
        ({
            let directory = fs.machine.o_directory as u32;
            opendir_start(fs, inode, flags) == open_start(fs, inode, false, flags | directory) && (
            flags | directory) & directory == directory && (flags | directory) & !directory == flags
                & !directory
        }),
{
    let directory = fs.machine.o_directory as u32;
    assert((flags | directory) & directory == directory && (flags | directory) & !directory == flags
        & !directory) by (bit_vector);
}

/// The init program is always open, under a handle of its own: an open of it is done before the host is
/// asked, and is told nothing about caching. Every other open is one of a file of the host.
pub proof fn law_init_is_always_open(fs: FsView, inode: Inode, kill_priv: bool, flags: u32)
    ensures
        inode != INIT_INODE ==> any_open_start(fs, inode, kill_priv, flags) == open_start(
            fs,
            inode,
            kill_priv,
            flags,
        ),
        inode == INIT_INODE ==> (any_open_start(fs, inode, kill_priv, flags) matches Step::Done(
            Ok((Some(handle), 0)),
        ) && handle == INIT_HANDLE),
{
}

/// Whether all that happened between two states is that the client got `fd` as a file of `inode`,
/// under `handle`, which is the next one to be given out. A handle that is given out once more, after
/// the numbers ran out, loses the file that it stood for.
pub open spec fn gains_handle(
    before: FsView,
    after: FsView,
    inode: Inode,
    handle: Handle,
    fd: RawFd,
) -> bool {
    &&& handle == before.next_handle
    &&& after.has_open(inode, handle, fd)
    &&& !after.handles[handle].exported
    &&& forall|other: Handle|
        other != handle ==> (#[trigger] after.handles.contains_key(other)
            == before.handles.contains_key(other)) && after.handles[other] == before.handles[other]
    &&& after.inodes == before.inodes
    &&& after.next_inode == before.next_inode
    &&& after.next_handle == (if handle == u64::MAX {
        0
    } else {
        handle + 1
    })
    &&& !before.handles.contains_key(handle) ==> after.released == before.released
    &&& after == (FsView {
        handles: after.handles,
        next_handle: after.next_handle,
        released: after.released,
        ..before
    })
}

/// A handle that the client has not, or that is one of another inode, leads nowhere: every request that
/// names it is refused, and the host is asked for nothing but to drop a writer's privileges.
pub proof fn law_nothing_is_done_without_an_open_file(
    fs: FsView,
    inode: Inode,
    handle: Handle,
    size: u32,
    offset: u64,
    length: u64,
    flag: bool,
    held: bool,
)
    requires
        !fs.handles.contains_key(handle) || fs.handles[handle].inode != inode,
    ensures
        inode != INIT_INODE ==> (read_start(fs, inode, handle, size, offset) matches Step::Done(
            Err(e),
        ) && e == FsError::Os(EBADF)),
        write_start(fs, inode, handle, size, offset, false) matches Step::Done(Err(e)) && e
            == FsError::Os(EBADF),
        write_start(fs, inode, handle, size, offset, true) matches Step::Call(
            Syscall::DropFsetid,
            op,
        ) && (op.next(fs, Reply::Held(held)) matches Step::Done(Err(e)) && e == FsError::Os(EBADF)),
        flush_start(fs, inode, handle) matches Step::Done(Err(e)) && e == FsError::Os(EBADF),
        fsync_start(fs, inode, flag, handle) matches Step::Done(Err(e)) && e == FsError::Os(EBADF),
        fallocate_start(fs, inode, handle, size, offset, length) matches Step::Done(Err(e)) && e
            == FsError::Os(EBADF),
        lseek_start(fs, inode, handle, offset, size) matches Step::Done(Err(e)) && e == FsError::Os(
            EBADF,
        ),
        released(fs, inode, handle) == (
            fs,
            Step::<Release, ()>::Done(Err(FsError::Os(EBADF))),
        ),
{
}

/// An inode that the client does not know is neither opened nor mapped, also where a writer's
/// privileges were dropped for it.
pub proof fn law_nothing_is_opened_without_an_inode(
    fs: FsView,
    inode: Inode,
    flags: u32,
    held: bool,
    foffset: u64,
    len: u64,
    how: u64,
    moffset: u64,
    base: u64,
    shm_size: u64,
)
    requires
        inode != INIT_INODE,
        !fs.inodes.contains_key(inode),
    ensures
        open_start(fs, inode, false, flags) matches Step::Done(Err(e)) && e == FsError::Os(EBADF),
        open_start(fs, inode, true, flags) matches Step::Call(Syscall::DropFsetid, op) && op.next(
            fs,
            Reply::Held(held),
        ) == (fs, Step::<Open, (Option<Handle>, u32)>::Done(Err(FsError::Os(EBADF)))),
        moffset + len <= shm_size ==> (setupmapping_start(
            fs,
            inode,
            foffset,
            len,
            how,
            moffset,
            base,
            shm_size,
        ) matches Step::Done(Err(e)) && e == FsError::Os(EBADF)),
{
}

/// The flags with which a file is opened, from those that the client asks for: the file stays closed
/// in child processes and the link under `/proc/self/fd` is followed; the access time is kept from
/// changing only by a process that may; and all other flags are the client's, but for those that
/// cached writes need otherwise.
pub proof fn law_open_keeps_the_clients_flags(fs: FsView, inode: Inode, flags: u32)
    requires
        fs.inodes.contains_key(inode),
        fs.machine.o_nofollow & (O_CLOEXEC | O_ACCMODE | O_APPEND) == 0,
    ensures
        ({
            let own = O_CLOEXEC | fs.machine.o_nofollow | (if fs.cap_fowner {
                0
            } else {
                O_NOATIME
            }) | (if fs.writeback {
                O_ACCMODE | O_APPEND
            } else {
                0
            });
            let asked = flags as i32;
            &&& open_start(fs, inode, false, flags) matches Step::Call(call, _)
            &&& call matches Syscall::OpenAt { flags: opened, .. }
            &&& opened & !own == asked & !own
            &&& opened & O_CLOEXEC == O_CLOEXEC
            &&& opened & fs.machine.o_nofollow == 0
            &&& !fs.cap_fowner && fs.machine.o_nofollow & O_NOATIME == 0 ==> opened & O_NOATIME == 0
            &&& fs.writeback ==> opened & O_APPEND == 0
            &&& opened & O_ACCMODE == (if fs.writeback && asked & O_ACCMODE == 1 {
                O_RDWR
            } else {
                asked & O_ACCMODE
            })
        }),
{
    let link = fs.machine.o_nofollow;
    let kept = granted_flags(fs, flags);
    let asked = flags as i32;
    let given = kept as i32;
    assert(O_NOATIME as u32 == 0o1000000u32);
    assert(!(O_NOATIME as u32) == !0o1000000u32);
    assert((flags & !0o1000000u32) as i32 == (flags as i32) & !0o1000000i32) by (bit_vector);
    assert(given == (if fs.cap_fowner {
        asked
    } else {
        asked & !0o1000000i32
    }));
    let noatime: i32 = if fs.cap_fowner {
        0
    } else {
        0o1000000
    };
    assert(asked & !0i32 == asked) by (bit_vector);
    assert(given == asked & !noatime);
    law_open_flags(fs.machine, fs.writeback, given);
    lemma_flags_kept(asked, noatime, link, fs.writeback);
}

proof fn lemma_flags_kept(asked: i32, noatime: i32, link: i32, writeback: bool)
    requires
        noatime == 0 || noatime == 0o1000000,
        link & (0o2000000i32 | 3i32 | 0o2000i32) == 0,
    ensures
        ({
            let given = asked & !noatime;
            let readable = if writeback && given & 3i32 == 1 {
                (given & !3i32) | 2i32
            } else {
                given
            };
            let placed = if writeback && readable & 0o2000i32 != 0 {
                readable & !0o2000i32
            } else {
                readable
            };
            let opened = (placed | 0o2000000i32) & !link;
            let own = 0o2000000i32 | link | noatime | (if writeback {
                3i32 | 0o2000i32
            } else {
                0i32
            });
            &&& given & 3i32 == asked & 3i32
            &&& opened & !own == asked & !own
            &&& noatime != 0 ==> opened & 0o1000000i32 == 0
        }),
{
    assert(0o2000000i32 | 3 | 0o2000 == 0o2002003) by (bit_vector);
    assert({
        let given = asked & !noatime;
        let readable = if writeback && given & 3 == 1 {
            (given & !3i32) | 2
        } else {
            given
        };
        let placed = if writeback && readable & 0o2000 != 0 {
            readable & !0o2000i32
        } else {
            readable
        };
        let opened = (placed | 0o2000000) & !link;
        let own = 0o2000000i32 | link | noatime | (if writeback {
            3i32 | 0o2000
        } else {
            0
        });
        given & 3 == asked & 3 && opened & !own == asked & !own && (noatime != 0 ==> opened
            & 0o1000000 == 0)
    }) by (bit_vector)
        requires
            noatime == 0 || noatime == 0o1000000,
            link & 0o2002003i32 == 0,
    ;
}

/// What the client is told about caching follows the policy: it is never told to cache where the
/// policy is not to, always told to where it is, and told nothing where the client is to decide. A
/// directory is never read around the cache, and no file is cached as a directory is.
pub proof fn law_caching_follows_the_policy(machine: Machine, flags: u32)
    ensures
        ({
            let is_dir = flags & (machine.o_directory as u32) != 0;
            let never = open_options(machine, CachePolicy::Never, flags);
            let always = open_options(machine, CachePolicy::Always, flags);
            &&& open_options(machine, CachePolicy::Auto, flags) == 0
            &&& is_dir ==> never == 0 && always == OPEN_CACHE_DIR
            &&& !is_dir ==> never == OPEN_DIRECT_IO && always == OPEN_KEEP_CACHE
            &&& create_options(CachePolicy::Auto) == 0
            &&& create_options(CachePolicy::Never) == OPEN_DIRECT_IO
            &&& create_options(CachePolicy::Always) == OPEN_KEEP_CACHE
        }),
{
}

/// Whoever opens a file is told what the policy says of it, at the open as at the creation.
pub proof fn law_open_tells_the_policy(fs: FsView, inode: Inode, flags: u32, fd: RawFd)
    requires
        fs.inodes.contains_key(inode),
    ensures
        ({
            let first = open_start(fs, inode, false, flags);
            &&& first matches Step::Call(_, op)
            &&& op.next(fs, Reply::Fd(fd)).1 matches Step::Done(Ok((_, told)))
            &&& told == open_options(fs.machine, fs.cfg.cache_policy, granted_flags(fs, flags))
        }),
{
}

/// A handle that is closed goes, and its file is to be closed; no inode and no other handle changes. If
/// the file was exported it leaves the table, under the numbers of this file system and this handle.
pub proof fn law_release_takes_one_handle(
    fs: FsView,
    inode: Inode,
    handle: Handle,
    fd: RawFd,
)
    requires
        fs.has_open(inode, handle, fd),
    ensures
        ({
            let (after, step) = released(fs, inode, handle);
            &&& !after.handles.contains_key(handle)
            &&& forall|other: Handle|
                other != handle ==> (#[trigger] after.handles.contains_key(other)
                    == fs.handles.contains_key(other)) && after.handles[other] == fs.handles[other]
            &&& after.released == fs.released.push(fd)
            &&& after == (FsView { handles: after.handles, released: after.released, ..fs })
            &&& match step {
                Step::Call(call, op) => fs.handles[handle].exported && call
                    == (Syscall::ExportRemove { fsid: fs.cfg.export_fsid, handle }) && (op.next(
                    Reply::Unit,
                ) matches Step::Done(Ok(_))),
                Step::Done(res) => !fs.handles[handle].exported && res is Ok,
            }
        }),
{
}

/// A file is mapped as the guest asks: `len` bytes at `foffset` of the file in the inode's place, to
/// `moffset` in the window, shared with the file. It can be written to through the mapping, and is
/// opened for writing, just where that is asked for. Once it is mapped, or cannot be, the file is to be
/// closed and nothing else has changed.
pub proof fn law_mapping_is_of_the_range_asked_for(
    fs: FsView,
    inode: Inode,
    place: RawFd,
    foffset: u64,
    len: u64,
    flags: u64,
    moffset: u64,
    base: u64,
    shm_size: u64,
    fd: RawFd,
    e: i32,
)
    requires
        inode != INIT_INODE,
        fs.has_place(inode, place),
        is_addressable(moffset, len, base, shm_size),
        moffset + len <= shm_size,
        len <= usize::MAX,
        fs.machine.o_nofollow & (O_CLOEXEC | O_ACCMODE | O_APPEND) == 0,
    ensures
        ({
            let start = setupmapping_start(
                fs,
                inode,
                foffset,
                len,
                flags,
                moffset,
                base,
                shm_size,
            );
            let writable = flags & SETUPMAPPING_WRITE != 0;
            let closed = FsView { released: fs.released.push(fd), ..fs };
            &&& start matches Step::Call(open, op)
            &&& open matches Syscall::OpenAt { dir, path, flags: opened, mode }
            &&& dir == fs.proc_self_fd
            &&& path == Path::Fd(place)
            &&& opened & O_ACCMODE == (if writable {
                O_RDWR
            } else {
                O_RDONLY
            })
            &&& mode == 0
            &&& op.next(fs, Reply::Fail(e)).0 == fs
            &&& op.next(fs, Reply::Fail(e)).1 matches Step::Done(Err(unopened))
            &&& unopened == FsError::Os(e)
            &&& op.next(fs, Reply::Fd(fd)).0 == fs
            &&& op.next(fs, Reply::Fd(fd)).1 matches Step::Call(map, last)
            &&& map matches Syscall::Mmap { addr, len: n, prot, flags: how, fd: of, offset }
            &&& addr == base + moffset
            &&& n == len
            &&& prot == (if writable {
                PROT_READ | PROT_WRITE
            } else {
                PROT_READ
            })
            &&& how == MAP_SHARED | MAP_FIXED
            &&& of == fd
            &&& offset == signed(foffset)
            &&& last.next(fs, Reply::Unit).0 == closed
            &&& last.next(fs, Reply::Unit).1 matches Step::Done(Ok(_))
            &&& last.next(fs, Reply::Fail(e)).0 == closed
            &&& last.next(fs, Reply::Fail(e)).1 matches Step::Done(Err(err))
            &&& err == FsError::Os(e)
        }),
{
    lemma_signed(foffset);
    law_open_flags(fs.machine, fs.writeback, O_RDWR);
    law_open_flags(fs.machine, fs.writeback, O_RDONLY);
    assert(2i32 & 3 == 2 && 0i32 & 3 == 0) by (bit_vector);
}

/// The init program is mapped as a copy in fresh memory: the guest gets `len` bytes of memory where it
/// asks for them, with as much of the program at their start as there is and fits.
pub proof fn law_init_is_mapped_as_a_copy(
    fs: FsView,
    foffset: u64,
    len: u64,
    flags: u64,
    moffset: u64,
    base: u64,
    shm_size: u64,
    e: i32,
)
    requires
        is_addressable(moffset, len, base, shm_size),
        moffset + len <= shm_size,
        len <= usize::MAX,
    ensures
        ({
            let start = setupmapping_start(
                fs,
                INIT_INODE,
                foffset,
                len,
                flags,
                moffset,
                base,
                shm_size,
            );
            &&& start matches Step::Call(map, op)
            &&& map matches Syscall::Mmap { addr, len: n, prot, flags: how, fd, offset }
            &&& addr == base + moffset
            &&& n == len
            &&& prot == PROT_READ | PROT_WRITE
            &&& how == MAP_PRIVATE | MAP_ANONYMOUS | MAP_FIXED
            &&& fd == NO_FD
            &&& offset == 0
            &&& op.next(fs, Reply::Fail(e)).1 matches Step::Done(Err(err))
            &&& err == FsError::Os(e)
            &&& op.next(fs, Reply::Unit).0 == fs
            &&& op.next(fs, Reply::Unit).1 matches Step::Call(copy, last)
            &&& copy matches Syscall::CopyInit { addr: to, len: copied }
            &&& to == base + moffset
            &&& copied == (if len < fs.init_len {
                len as int
            } else {
                fs.init_len as int
            })
            &&& last.next(fs, Reply::Unit).0 == fs
            &&& last.next(fs, Reply::Unit).1 matches Step::Done(Ok(_))
        }),
{
}

/// What does not lie in the window is not mapped, and the host is not called.
pub proof fn law_nothing_is_mapped_beyond_the_window(
    fs: FsView,
    inode: Inode,
    foffset: u64,
    len: u64,
    flags: u64,
    moffset: u64,
    base: u64,
    shm_size: u64,
)
    requires
        moffset + len > shm_size,
    ensures
        setupmapping_start(
            fs,
            inode,
            foffset,
            len,
            flags,
            moffset,
            base,
            shm_size,
        ) matches Step::Done(Err(e)) && e == FsError::Os(EINVAL),
{
}

/// Mappings are taken out one by one in the order of the requests, each at its own place and over its
/// own length, by memory that nobody may touch. The first that is not in the window, or that the host
/// refuses, ends the work; all are done once the last is.
pub proof fn law_mappings_are_taken_out_in_turn(
    requests: Vec<RemovemappingOne>,
    at: int,
    base: u64,
    shm_size: u64,
    e: i32,
)
    requires
        0 <= at,
        requests@.len() <= usize::MAX,
        at < requests@.len() ==> base + requests@[at].moffset <= u64::MAX && requests@[at].len
            <= usize::MAX,
    ensures
        ({
            let step = RemoveMapping::at(requests, at, base, shm_size);
            if at >= requests@.len() {
                step matches Step::Done(Ok(_))
            } else if requests@[at].moffset + requests@[at].len > shm_size {
                step matches Step::Done(Err(err)) && err == FsError::Os(EINVAL)
            } else {
                &&& step matches Step::Call(map, op)
                &&& map matches Syscall::Mmap { addr, len, prot, flags, fd, offset }
                &&& addr == base + requests@[at].moffset
                &&& len == requests@[at].len
                &&& prot == PROT_NONE
                &&& flags == MAP_PRIVATE | MAP_ANONYMOUS | MAP_FIXED
                &&& fd == NO_FD
                &&& offset == 0
                &&& op.next(Reply::Unit) == RemoveMapping::at(requests, at + 1, base, shm_size)
                &&& op.next(Reply::Fail(e)) matches Step::Done(Err(err))
                &&& err == FsError::Os(e)
            }
        }),
{
}

/// A removal can be taken up just where its two sums are numbers that the machine has, and beyond the
/// last there is nothing that cannot.
pub proof fn law_only_sums_that_fit_are_taken_up(
    requests: Seq<RemovemappingOne>,
    at: int,
    base: u64,
)
    ensures
        fits(requests, at, base) <==> at >= requests.len() || (base + requests[at].moffset
            <= 0xffff_ffff_ffff_ffff && requests[at].moffset + requests[at].len
            <= 0xffff_ffff_ffff_ffff),
{
}

/// What was opened is what is then read, written and closed: the handle that an open gives leads every
/// later request of the client, for the inode that was opened, to the file that the host opened, until
/// the client closes it. Then that file is to be closed and the handle leads nowhere.
pub proof fn law_opened_file_is_the_one_used(
    fs: FsView,
    inode: Inode,
    place: RawFd,
    flags: u32,
    fd: RawFd,
    size: u32,
    offset: u64,
)
    requires
        inode != INIT_INODE,
        fs.has_place(inode, place),
    ensures
        ({
            &&& open_start(fs, inode, false, flags) matches Step::Call(_, op)
            &&& op.next(fs, Reply::Fd(fd)).1 matches Step::Done(Ok((Some(handle), _)))
            &&& uses_file(op.next(fs, Reply::Fd(fd)).0, inode, handle, fd, size, offset)
        }),
{
}

/// Whether requests of the client for `inode` and `handle` are about the file `fd`, until it closes
/// the handle.
pub open spec fn uses_file(
    fs: FsView,
    inode: Inode,
    handle: Handle,
    fd: RawFd,
    size: u32,
    offset: u64,
) -> bool {
    let (closed, _) = released(fs, inode, handle);
    &&& read_start(fs, inode, handle, size, offset) matches Step::Call(read, _)
    &&& read == (Syscall::SendFile { fd, size: size as usize, offset })
    &&& write_start(fs, inode, handle, size, offset, false) matches Step::Call(write, _)
    &&& write == (Syscall::StoreFile { fd, size: size as usize, offset })
    &&& closed.released == fs.released.push(fd)
    &&& read_start(closed, inode, handle, size, offset) matches Step::Done(Err(gone))
    &&& gone == FsError::Os(EBADF)
}

} // verus!
