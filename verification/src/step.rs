//! How a request is served: in steps, between which the host is called.
//!
//! A request is a value that says what it waits for. Each step takes the host's reply and either
//! names the next call or ends the request. Files that are no longer needed are queued in the file
//! system for the host to close.

use crate::dirent::{are_records, DirRecord};
use crate::model::{ByteOrder, Entry, FsError, Handle, RawFd, Stat, StatVfs, Statx, Timespec};
use crate::override_stat::{override_text, override_xattr_value, OverrideStat, XATTR_KEY};
use crate::text::{digits, push_number};
use vstd::prelude::*;

verus! {

/// Which file a call means, relative to its directory.
#[derive(Clone, Copy, Debug, PartialEq, Eq)]
pub enum Path {
    /// The name that the request carries, or that of the directory entry that it is at.
    Name,
    /// The number of a file descriptor, in decimal.
    Fd(RawFd),
}

/// The file that a call on extended attributes means.
#[derive(Clone, Copy, Debug, PartialEq, Eq)]
pub enum XattrTarget {
    /// The open file.
    Fd(RawFd),
    /// What the link under `/proc/self/fd` leads to.
    Follow(RawFd),
    /// The path under `/proc/self/fd`, without following a link at its end.
    Link(RawFd),
}

/// The attribute that a call means.
#[derive(Clone, Copy, Debug, PartialEq, Eq)]
pub enum XattrName {
    /// `XATTR_KEY`.
    Override,
    /// The name that the request carries, which is the host's for an attribute of the guest.
    Guest,
}

/// The value that a call stores.
#[derive(Clone, Copy, Debug, PartialEq, Eq)]
pub enum XattrValue {
    /// The text of an override.
    Override(OverrideStat),
    /// The value that the request carries.
    Guest,
}

/// A capability of this process that decides how the file system works.
#[derive(Clone, Copy, Debug, PartialEq, Eq)]
pub enum HostCap {
    /// To act as any user.
    Setuid,
    /// To act as any group.
    Setgid,
    /// To do what only the owner of a file may do.
    Fowner,
}

/// A call to the host.
#[allow(inconsistent_fields)]
#[derive(Clone, Copy, Debug, PartialEq, Eq)]
pub enum Syscall {
    /// Opens `PROC_SELF_FD`.
    OpenProcSelfFd { flags: i32 },
    /// Opens the root directory, whose path the request carries.
    OpenRoot { flags: i32 },
    OpenAt { dir: RawFd, path: Path, flags: i32, mode: u32 },
    /// `fstatat64` with an empty path.
    FstatAt { fd: RawFd, flags: i32 },
    /// `statx` with an empty path.
    Statx { fd: RawFd, flags: i32, mask: u32 },
    FstatVfs { fd: RawFd },
    GetXattr { target: XattrTarget, name: XattrName, size: usize },
    SetXattr { target: XattrTarget, name: XattrName, value: XattrValue, flags: i32 },
    RemoveXattr { target: XattrTarget, name: XattrName },
    ListXattr { target: XattrTarget, size: usize },
    /// Asks whether an effective capability is held. One that cannot be asked for counts as missing.
    HasCap { cap: HostCap },
    /// Drops the effective capability to keep set-id bits on files that are written to. The answer is
    /// whether it was held, and so is to be raised again.
    DropFsetid,
    /// Raises that capability again.
    RaiseFsetid,
    Fchmod { fd: RawFd, mode: u32 },
    FchmodAt { dir: RawFd, path: Path, mode: u32 },
    /// `fchownat` with an empty path.
    FchownAt { fd: RawFd, uid: u32, gid: u32, flags: i32 },
    Ftruncate { fd: RawFd, size: i64 },
    Futimens { fd: RawFd, atime: Timespec, mtime: Timespec },
    UtimensAt { dir: RawFd, path: Path, atime: Timespec, mtime: Timespec },
    MkdirAt { dir: RawFd, mode: u32 },
    MknodAt { dir: RawFd, mode: u32, rdev: u64 },
    /// Makes a link with the text that the request carries.
    SymlinkAt { dir: RawFd },
    UnlinkAt { dir: RawFd, flags: i32 },
    /// Moves the name that the request carries to the second one.
    RenameAt2 { old_dir: RawFd, new_dir: RawFd, flags: u32 },
    LinkAt { old_dir: RawFd, path: Path, new_dir: RawFd, flags: i32 },
    /// `readlinkat` with an empty path.
    ReadLinkAt { fd: RawFd, size: usize },
    Dup { fd: RawFd },
    Close { fd: RawFd },
    Fsync { fd: RawFd },
    Fdatasync { fd: RawFd },
    Fallocate { fd: RawFd, mode: i32, offset: i64, length: i64 },
    Lseek { fd: RawFd, offset: i64, whence: i32 },
    CopyFileRange {
        fd_in: RawFd,
        offset_in: i64,
        fd_out: RawFd,
        offset_out: i64,
        len: usize,
        flags: u32,
    },
    /// Seeks a directory and reads its records, with no other use of the file in between. Their
    /// numbers are in the byte order of the machine.
    GetDents { fd: RawFd, offset: i64, size: u32, order: ByteOrder },
    /// Hands an entry of a directory to the client. The answer is the space it took; none means that
    /// there was no more.
    AddEntry { record: DirRecord, entry: Option<Entry> },
    /// Sends part of the init program to the client.
    SendInit { start: usize, len: usize },
    /// Sends part of a file to the client.
    SendFile { fd: RawFd, size: usize, offset: u64 },
    /// Writes data of the client to a file.
    StoreFile { fd: RawFd, size: usize, offset: u64 },
    Mmap { addr: u64, len: usize, prot: i32, flags: i32, fd: RawFd, offset: i64 },
    /// Copies the start of the init program to memory.
    CopyInit { addr: u64, len: usize },
    Umask { mask: u32 },
    GetUid,
    GetGid,
    /// Duplicates an open file, so that it can be handed out.
    TryClone { fd: RawFd },
    /// Hands a file to the other users of the export table.
    ExportInsert { fsid: u64, handle: Handle, fd: RawFd },
    /// Takes a file out of the export table, if it is there.
    ExportRemove { fsid: u64, handle: Handle },
    SetExitCode { code: i32 },
    /// Removes the root directory, whose path the request carries, and all it holds.
    RemoveRootDir,
}

/// What the host answers to a call.
#[derive(Debug)]
pub enum Reply {
    /// The call failed with this error number.
    Fail(i32),
    /// The call is done, and there is nothing to tell.
    Unit,
    /// An open file.
    Fd(RawFd),
    /// A count or an offset.
    Num(u64),
    /// Whether a capability is held, or was.
    Held(bool),
    Stat(Stat),
    Statx(Statx),
    StatVfs(StatVfs),
    Bytes(Vec<u8>),
}

impl Syscall {
    /// Whether `reply` is of the kind that this call is answered with. Any call can fail, except
    /// those that the kernel does not let fail.
    pub open spec fn answered_by(self, reply: Reply) -> bool {
        match self {
            Syscall::OpenProcSelfFd { .. }
            | Syscall::OpenRoot { .. }
            | Syscall::OpenAt { .. }
            | Syscall::Dup { .. }
            | Syscall::TryClone { .. } => reply is Fail || reply is Fd,
            Syscall::FstatAt { .. } => reply is Fail || reply is Stat,
            Syscall::Statx { .. } => reply is Fail || reply is Statx,
            Syscall::FstatVfs { .. } => reply is Fail || reply is StatVfs,
            Syscall::GetXattr { size, .. }
            | Syscall::ListXattr { size, .. } => reply is Fail || (if size == 0 {
                reply is Num
            } else {
                reply is Bytes
            }),
            Syscall::ReadLinkAt { .. } => reply is Fail || reply is Bytes,
            Syscall::GetDents { order, .. } => reply is Fail || (reply matches Reply::Bytes(list)
                && are_records(order, list@, 0)),
            Syscall::AddEntry { .. }
            | Syscall::Lseek { .. }
            | Syscall::CopyFileRange { .. }
            | Syscall::SendInit { .. }
            | Syscall::SendFile { .. }
            | Syscall::StoreFile { .. } => reply is Fail || reply is Num,
            Syscall::HasCap { .. } => reply is Held,
            Syscall::DropFsetid => reply is Fail || reply is Held,
            Syscall::GetUid | Syscall::GetGid => reply matches Reply::Num(n) && n <= u32::MAX,
            Syscall::RaiseFsetid
            | Syscall::Umask { .. }
            | Syscall::CopyInit { .. }
            | Syscall::ExportInsert { .. }
            | Syscall::ExportRemove { .. }
            | Syscall::SetExitCode { .. } => reply is Unit,
            _ => reply is Fail || reply is Unit,
        }
    }
}

/// Where a request stands after a step: it waits for a call, or it is done.
#[derive(Debug)]
pub enum Step<S, T> {
    Call(Syscall, S),
    Done(Result<T, FsError>),
}

/// The bytes that a request carries for its calls.
#[derive(Debug)]
pub struct Carried {
    /// The name that the request is about, or the path of the root directory.
    pub name: Vec<u8>,
    /// The second name of a request that moves one, or the text of a new link.
    pub other: Vec<u8>,
    /// The value of an attribute.
    pub value: Vec<u8>,
}

/// The same, as the contracts speak of it.
#[verifier::ext_equal]
pub struct CarriedBytes {
    pub name: Seq<u8>,
    pub other: Seq<u8>,
    pub value: Seq<u8>,
}

impl View for Carried {
    type V = CarriedBytes;

    open spec fn view(&self) -> CarriedBytes {
        CarriedBytes { name: self.name@, other: self.other@, value: self.value@ }
    }
}

/// A name and nothing else.
pub open spec fn just_name(name: Seq<u8>) -> CarriedBytes {
    CarriedBytes { name, other: Seq::empty(), value: Seq::empty() }
}

pub(crate) fn copied(bytes: &[u8]) -> (copy: Vec<u8>)
    ensures
        copy@ == bytes@,
{
    let mut copy: Vec<u8> = Vec::new();
    let mut i: usize = 0;
    while i < bytes.len()
        invariant
            i <= bytes@.len(),
            copy@ == bytes@.take(i as int),
        decreases bytes.len() - i,
    {
        copy.push(bytes[i]);
        i = i + 1;
        assert(copy@ =~= bytes@.take(i as int));
    }
    assert(bytes@.take(i as int) =~= bytes@);
    copy
}

impl Carried {
    /// Carries a name and nothing else.
    pub fn named(name: &[u8]) -> (carried: Carried)
        ensures
            carried@ == just_name(name@),
    {
        Carried { name: copied(name), other: Vec::new(), value: Vec::new() }
    }

    /// Carries nothing.
    pub fn none() -> (carried: Carried)
        ensures
            carried@ == just_name(Seq::empty()),
    {
        Carried { name: Vec::new(), other: Vec::new(), value: Vec::new() }
    }
}

/// A request together with the bytes that it carries for its calls.
#[derive(Debug)]
pub struct Carrying<S> {
    pub op: S,
    pub carried: Carried,
}

/// A step without the bytes that the request carries.
pub open spec fn bare<S, T>(step: Step<Carrying<S>, T>) -> Step<S, T> {
    match step {
        Step::Call(call, request) => Step::Call(call, request.op),
        Step::Done(res) => Step::Done(res),
    }
}

/// Whether a request that goes on carries these bytes.
pub open spec fn carries<S, T>(step: Step<Carrying<S>, T>, bytes: CarriedBytes) -> bool {
    step matches Step::Call(_, request) ==> request.carried@ == bytes
}

pub(crate) fn carry<S, T>(step: Step<S, T>, carried: Carried) -> (request: Step<Carrying<S>, T>)
    ensures
        bare(request) == step,
        carries(request, carried@),
{
    match step {
        Step::Call(call, op) => Step::Call(call, Carrying { op, carried }),
        Step::Done(res) => Step::Done(res),
    }
}

/// The directory of this process's open files: `/proc/self/fd`.
pub const PROC_SELF_FD: [u8; 13] = [47, 112, 114, 111, 99, 47, 115, 101, 108, 102, 47, 102, 100];

/// The bytes of a path: the name that the request carries, or the number of a file descriptor.
pub open spec fn path_bytes(path: Path, carried: CarriedBytes) -> Seq<u8> {
    match path {
        Path::Name => carried.name,
        Path::Fd(fd) => fd_text(fd),
    }
}

/// The name of an attribute. A request on an attribute of the guest carries the name on the host.
pub open spec fn xattr_name_bytes(name: XattrName, carried: CarriedBytes) -> Seq<u8> {
    match name {
        XattrName::Override => XATTR_KEY@,
        XattrName::Guest => carried.name,
    }
}

/// The value of an attribute.
pub open spec fn xattr_value_bytes(value: XattrValue, carried: CarriedBytes) -> Seq<u8> {
    match value {
        XattrValue::Override(value) => override_text(value),
        XattrValue::Guest => carried.value,
    }
}

/// The byte strings that a call hands to the host, at most two, in the order in which the host's
/// function takes them. The path by which an attribute's file is reached is not among them:
/// [`proc_fd_path`] makes it from the number in the call.
pub open spec fn call_bytes(call: Syscall, carried: CarriedBytes) -> (Seq<u8>, Seq<u8>) {
    match call {
        Syscall::OpenProcSelfFd { .. } => (PROC_SELF_FD@, Seq::empty()),
        Syscall::OpenRoot { .. } | Syscall::RemoveRootDir => (carried.name, Seq::empty()),
        Syscall::OpenAt { path, .. }
        | Syscall::FchmodAt { path, .. }
        | Syscall::UtimensAt { path, .. } => (path_bytes(path, carried), Seq::empty()),
        Syscall::MkdirAt { .. } | Syscall::MknodAt { .. } | Syscall::UnlinkAt { .. } => (
            carried.name,
            Seq::empty(),
        ),
        Syscall::SymlinkAt { .. } => (carried.other, carried.name),
        Syscall::RenameAt2 { .. } => (carried.name, carried.other),
        Syscall::LinkAt { path, .. } => (path_bytes(path, carried), carried.name),
        Syscall::GetXattr { name, .. } | Syscall::RemoveXattr { name, .. } => (
            xattr_name_bytes(name, carried),
            Seq::empty(),
        ),
        Syscall::SetXattr { name, value, .. } => (
            xattr_name_bytes(name, carried),
            xattr_value_bytes(value, carried),
        ),
        _ => (Seq::empty(), Seq::empty()),
    }
}

fn write_path(path: Path, carried: &Carried) -> (bytes: Vec<u8>)
    ensures
        bytes@ == path_bytes(path, carried@),
{
    match path {
        Path::Name => copied(carried.name.as_slice()),
        Path::Fd(fd) => fd_path(fd),
    }
}

fn write_xattr_name(name: XattrName, carried: &Carried) -> (bytes: Vec<u8>)
    ensures
        bytes@ == xattr_name_bytes(name, carried@),
{
    match name {
        XattrName::Override => copied(XATTR_KEY.as_slice()),
        XattrName::Guest => copied(carried.name.as_slice()),
    }
}

fn write_xattr_value(value: XattrValue, carried: &Carried) -> (bytes: Vec<u8>)
    ensures
        bytes@ == xattr_value_bytes(value, carried@),
{
    match value {
        XattrValue::Override(value) => override_xattr_value(value),
        XattrValue::Guest => copied(carried.value.as_slice()),
    }
}

/// Writes the byte strings that a call hands to the host.
pub fn arguments(call: Syscall, carried: &Carried) -> (bytes: (Vec<u8>, Vec<u8>))
    ensures
        (bytes.0@, bytes.1@) == call_bytes(call, carried@),
{
    match call {
        Syscall::OpenProcSelfFd { flags: _ } => (copied(PROC_SELF_FD.as_slice()), Vec::new()),
        Syscall::OpenRoot { flags: _ } => (copied(carried.name.as_slice()), Vec::new()),
        Syscall::RemoveRootDir => (copied(carried.name.as_slice()), Vec::new()),
        Syscall::OpenAt { dir: _, path, flags: _, mode: _ } => (
            write_path(path, carried),
            Vec::new(),
        ),
        Syscall::FchmodAt { dir: _, path, mode: _ } => (write_path(path, carried), Vec::new()),
        Syscall::UtimensAt { dir: _, path, atime: _, mtime: _ } => (
            write_path(path, carried),
            Vec::new(),
        ),
        Syscall::MkdirAt { dir: _, mode: _ } => (copied(carried.name.as_slice()), Vec::new()),
        Syscall::MknodAt { dir: _, mode: _, rdev: _ } => (
            copied(carried.name.as_slice()),
            Vec::new(),
        ),
        Syscall::UnlinkAt { dir: _, flags: _ } => (copied(carried.name.as_slice()), Vec::new()),
        Syscall::SymlinkAt { dir: _ } => (
            copied(carried.other.as_slice()),
            copied(carried.name.as_slice()),
        ),
        Syscall::RenameAt2 { old_dir: _, new_dir: _, flags: _ } => (
            copied(carried.name.as_slice()),
            copied(carried.other.as_slice()),
        ),
        Syscall::LinkAt { old_dir: _, path, new_dir: _, flags: _ } => (
            write_path(path, carried),
            copied(carried.name.as_slice()),
        ),
        Syscall::GetXattr { target: _, name, size: _ } => (
            write_xattr_name(name, carried),
            Vec::new(),
        ),
        Syscall::RemoveXattr { target: _, name } => (write_xattr_name(name, carried), Vec::new()),
        Syscall::SetXattr { target: _, name, value, flags: _ } => (
            write_xattr_name(name, carried),
            write_xattr_value(value, carried),
        ),
        _ => (Vec::new(), Vec::new()),
    }
}

/// A file descriptor as a path component, in decimal.
pub open spec fn fd_text(fd: RawFd) -> Seq<u8> {
    if fd < 0 {
        seq![45u8] + digits((-(fd as int)) as nat, 10)
    } else {
        digits(fd as nat, 10)
    }
}

/// The text of `/proc/self/fd/`.
pub open spec fn proc_prefix() -> Seq<u8> {
    seq![47, 112, 114, 111, 99, 47, 115, 101, 108, 102, 47, 102, 100, 47]
}

fn push_fd(out: &mut Vec<u8>, fd: RawFd)
    ensures
        final(out)@ == old(out)@ + fd_text(fd),
{
    if fd < 0 {
        let magnitude: i64 = -(fd as i64);
        out.push(45);
        push_number(out, magnitude as u32, 10);
        assert(out@ =~= old(out)@ + fd_text(fd));
    } else {
        push_number(out, fd as u32, 10);
    }
}

/// Writes a file descriptor as a path component.
pub fn fd_path(fd: RawFd) -> (path: Vec<u8>)
    ensures
        path@ == fd_text(fd),
{
    let mut path: Vec<u8> = Vec::new();
    push_fd(&mut path, fd);
    assert(path@ =~= fd_text(fd));
    path
}

/// Writes the path of a file descriptor under `/proc/self/fd`.
pub fn proc_fd_path(fd: RawFd) -> (path: Vec<u8>)
    ensures
        path@ == proc_prefix() + fd_text(fd),
{
    let mut path: Vec<u8> = vec![47, 112, 114, 111, 99, 47, 115, 101, 108, 102, 47, 102, 100, 47];
    assert(path@ =~= proc_prefix());
    push_fd(&mut path, fd);
    path
}

/// The text of a file descriptor holds no zero byte, so that it can stand in a path.
pub proof fn law_fd_text_has_no_zero(fd: RawFd)
    ensures
        !fd_text(fd).contains(0),
        !(proc_prefix() + fd_text(fd)).contains(0),
{
    let n = if fd < 0 {
        (-(fd as int)) as nat
    } else {
        fd as nat
    };
    crate::text::lemma_digits_spell_number(n, 10);
    let text = fd_text(fd);
    assert forall|i: int| 0 <= i < text.len() implies text[i] != 0 by {
        if fd < 0 && i > 0 {
            assert(text[i] == digits(n, 10)[i - 1]);
        } else if fd >= 0 {
            assert(text[i] == digits(n, 10)[i]);
        }
    }
    let path = proc_prefix() + text;
    assert forall|i: int| 0 <= i < path.len() implies path[i] != 0 by {
        if i >= 14 {
            assert(path[i] == text[i - 14]);
        }
    }
}

} // verus!
