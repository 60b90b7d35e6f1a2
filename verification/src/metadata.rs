//! Reading and writing the override of a file's owner and mode, step by step.

use crate::abi::AT_ITSELF;
use crate::model::{FsError, RawFd, Stat};
use crate::override_stat::{
    apply_override_stat, get_xattr_common, is_complete, is_missing_code,
    is_missing_override_xattr_error, is_symlink, is_symlink_mode, is_valid_owner,
    law_override_text_round_trip, merge_override, merged, override_of_text, override_text, seen,
    OverrideStat, OVERRIDE_SIZE,
};
use crate::step::{Reply, Step, Syscall, XattrName, XattrTarget, XattrValue};
use vstd::pervasive::unreached;
use vstd::prelude::*;

verus! {

/// The attributes of an open file, a link taken as itself.
pub open spec fn stat_call(fd: RawFd) -> Syscall {
    Syscall::FstatAt { fd, flags: AT_ITSELF }
}

/// Names the call for the attributes of an open file.
pub fn host_stat_fd(fd: RawFd) -> (call: Syscall)
    ensures
        call == stat_call(fd),
{
    Syscall::FstatAt { fd, flags: AT_ITSELF }
}

/// Reads the override of a file. Links have none; where the host lets the attribute not be read
/// through the open file it is read through its path, and where that fails too there is none.
#[derive(Clone, Copy, Debug, PartialEq, Eq)]
pub enum ReadOverride {
    Kind { fd: RawFd },
    ByFd { fd: RawFd },
    ByPath { fd: RawFd },
}

pub open spec fn no_override() -> OverrideStat {
    (None, None, None)
}

impl ReadOverride {
    pub open spec fn pending(self) -> Syscall {
        match self {
            ReadOverride::Kind { fd } => stat_call(fd),
            ReadOverride::ByFd { fd } => Syscall::GetXattr {
                target: XattrTarget::Fd(fd),
                name: XattrName::Override,
                size: OVERRIDE_SIZE,
            },
            ReadOverride::ByPath { fd } => Syscall::GetXattr {
                target: XattrTarget::Follow(fd),
                name: XattrName::Override,
                size: OVERRIDE_SIZE,
            },
        }
    }

    /// The step that waits in this state.
    pub open spec fn wait(self) -> Step<ReadOverride, OverrideStat> {
        Step::Call(self.pending(), self)
    }

    pub open spec fn next(self, reply: Reply) -> Step<ReadOverride, OverrideStat> {
        match (self, reply) {
            (ReadOverride::Kind { .. }, Reply::Fail(e)) => Step::Done(Err(FsError::Os(e))),
            (ReadOverride::Kind { fd }, Reply::Stat(st)) => if is_symlink_mode(st.st_mode) {
                Step::Done(Ok(no_override()))
            } else {
                ReadOverride::ByFd { fd }.wait()
            },
            (ReadOverride::ByFd { fd }, Reply::Fail(_)) => ReadOverride::ByPath { fd }.wait(),
            (ReadOverride::ByPath { .. }, Reply::Fail(_)) => Step::Done(Ok(no_override())),
            (_, Reply::Bytes(value)) => Step::Done(Ok(override_of_text(value@))),
            _ => arbitrary(),
        }
    }

    /// Where this stands after a number of replies; those after the last step do not matter.
    pub open spec fn run(self, replies: Seq<Reply>) -> Step<ReadOverride, OverrideStat>
        decreases replies.len(),
    {
        if replies.len() == 0 {
            self.wait()
        } else {
            match self.next(replies[0]) {
                Step::Call(_, then) => then.run(replies.skip(1)),
                done => done,
            }
        }
    }

    fn call(self) -> (step: Step<ReadOverride, OverrideStat>)
        ensures
            step == self.wait(),
    {
        match self {
            ReadOverride::Kind { fd } => Step::Call(host_stat_fd(fd), self),
            ReadOverride::ByFd { fd } => Step::Call(
                Syscall::GetXattr {
                    target: XattrTarget::Fd(fd),
                    name: XattrName::Override,
                    size: OVERRIDE_SIZE,
                },
                self,
            ),
            ReadOverride::ByPath { fd } => Step::Call(
                Syscall::GetXattr {
                    target: XattrTarget::Follow(fd),
                    name: XattrName::Override,
                    size: OVERRIDE_SIZE,
                },
                self,
            ),
        }
    }

    pub fn resume(self, reply: Reply) -> (step: Step<ReadOverride, OverrideStat>)
        requires
            self.pending().answered_by(reply),
        ensures
            step == self.next(reply),
    {
        match self {
            ReadOverride::Kind { fd } => match reply {
                Reply::Fail(e) => Step::Done(Err(FsError::from_raw_os_error(e))),
                Reply::Stat(st) => if is_symlink(&st) {
                    Step::Done(Ok((None, None, None)))
                } else {
                    (ReadOverride::ByFd { fd }).call()
                },
                _ => unreached(),
            },
            ReadOverride::ByFd { fd } => match reply {
                Reply::Fail(_) => (ReadOverride::ByPath { fd }).call(),
                Reply::Bytes(value) => Step::Done(Ok(get_xattr_common(value.as_slice()))),
                _ => unreached(),
            },
            ReadOverride::ByPath { fd: _ } => match reply {
                Reply::Fail(_) => Step::Done(Ok((None, None, None))),
                Reply::Bytes(value) => Step::Done(Ok(get_xattr_common(value.as_slice()))),
                _ => unreached(),
            },
        }
    }
}

/// Starts to read the override of the file behind `fd`.
pub fn get_override_xattr(fd: RawFd) -> (step: Step<ReadOverride, OverrideStat>)
    ensures
        step == (ReadOverride::Kind { fd }).wait(),
{
    (ReadOverride::Kind { fd }).call()
}

/// Finds out whether a file has an override.
#[derive(Clone, Copy, Debug, PartialEq, Eq)]
pub enum HasOverride {
    Kind { fd: RawFd },
    ByFd { fd: RawFd },
    ByPath { fd: RawFd },
}

impl HasOverride {
    pub open spec fn pending(self) -> Syscall {
        match self {
            HasOverride::Kind { fd } => stat_call(fd),
            HasOverride::ByFd { fd } => Syscall::GetXattr {
                target: XattrTarget::Fd(fd),
                name: XattrName::Override,
                size: 0,
            },
            HasOverride::ByPath { fd } => Syscall::GetXattr {
                target: XattrTarget::Follow(fd),
                name: XattrName::Override,
                size: 0,
            },
        }
    }

    pub open spec fn wait(self) -> Step<HasOverride, bool> {
        Step::Call(self.pending(), self)
    }

    pub open spec fn next(self, reply: Reply) -> Step<HasOverride, bool> {
        match (self, reply) {
            (HasOverride::Kind { .. }, Reply::Fail(e)) => Step::Done(Err(FsError::Os(e))),
            (HasOverride::Kind { fd }, Reply::Stat(st)) => if is_symlink_mode(st.st_mode) {
                Step::Done(Ok(false))
            } else {
                HasOverride::ByFd { fd }.wait()
            },
            (_, Reply::Num(_)) => Step::Done(Ok(true)),
            (HasOverride::ByFd { fd }, Reply::Fail(e)) => if is_missing_code(e) {
                HasOverride::ByPath { fd }.wait()
            } else {
                Step::Done(Err(FsError::Os(e)))
            },
            (HasOverride::ByPath { .. }, Reply::Fail(e)) => if is_missing_code(e) {
                Step::Done(Ok(false))
            } else {
                Step::Done(Err(FsError::Os(e)))
            },
            _ => arbitrary(),
        }
    }

    fn call(self) -> (step: Step<HasOverride, bool>)
        ensures
            step == self.wait(),
    {
        match self {
            HasOverride::Kind { fd } => Step::Call(host_stat_fd(fd), self),
            HasOverride::ByFd { fd } => Step::Call(
                Syscall::GetXattr {
                    target: XattrTarget::Fd(fd),
                    name: XattrName::Override,
                    size: 0,
                },
                self,
            ),
            HasOverride::ByPath { fd } => Step::Call(
                Syscall::GetXattr {
                    target: XattrTarget::Follow(fd),
                    name: XattrName::Override,
                    size: 0,
                },
                self,
            ),
        }
    }

    pub fn resume(self, reply: Reply) -> (step: Step<HasOverride, bool>)
        requires
            self.pending().answered_by(reply),
        ensures
            step == self.next(reply),
    {
        match self {
            HasOverride::Kind { fd } => match reply {
                Reply::Fail(e) => Step::Done(Err(FsError::from_raw_os_error(e))),
                Reply::Stat(st) => if is_symlink(&st) {
                    Step::Done(Ok(false))
                } else {
                    (HasOverride::ByFd { fd }).call()
                },
                _ => unreached(),
            },
            HasOverride::ByFd { fd } => match reply {
                Reply::Num(_) => Step::Done(Ok(true)),
                Reply::Fail(e) => {
                    let err = FsError::from_raw_os_error(e);
                    if is_missing_override_xattr_error(&err) {
                        (HasOverride::ByPath { fd }).call()
                    } else {
                        Step::Done(Err(err))
                    }
                },
                _ => unreached(),
            },
            HasOverride::ByPath { fd: _ } => match reply {
                Reply::Num(_) => Step::Done(Ok(true)),
                Reply::Fail(e) => {
                    let err = FsError::from_raw_os_error(e);
                    if is_missing_override_xattr_error(&err) {
                        Step::Done(Ok(false))
                    } else {
                        Step::Done(Err(err))
                    }
                },
                _ => unreached(),
            },
        }
    }
}

/// Starts to find out whether the file behind `fd` has an override.
pub fn has_override_xattr(fd: RawFd) -> (step: Step<HasOverride, bool>)
    ensures
        step == (HasOverride::Kind { fd }).wait(),
{
    (HasOverride::Kind { fd }).call()
}

/// Updates the override of a file. Links are left alone; an update that leaves something open first
/// reads what was there.
#[derive(Clone, Copy, Debug, PartialEq, Eq)]
pub enum WriteOverride {
    Kind { fd: RawFd, owner: Option<(u32, u32)>, mode: Option<u32> },
    Before { fd: RawFd, owner: Option<(u32, u32)>, mode: Option<u32>, read: ReadOverride },
    ByFd { fd: RawFd, value: OverrideStat },
    ByPath { fd: RawFd, value: OverrideStat },
}

impl WriteOverride {
    pub open spec fn pending(self) -> Syscall {
        match self {
            WriteOverride::Kind { fd, .. } => stat_call(fd),
            WriteOverride::Before { read, .. } => read.pending(),
            WriteOverride::ByFd { fd, value } => Syscall::SetXattr {
                target: XattrTarget::Fd(fd),
                name: XattrName::Override,
                value: XattrValue::Override(value),
                flags: 0,
            },
            WriteOverride::ByPath { fd, value } => Syscall::SetXattr {
                target: XattrTarget::Follow(fd),
                name: XattrName::Override,
                value: XattrValue::Override(value),
                flags: 0,
            },
        }
    }

    pub open spec fn wait(self) -> Step<WriteOverride, ()> {
        Step::Call(self.pending(), self)
    }

    /// Where the update stands once the reading of what was there is at `step`.
    pub open spec fn after_read(
        fd: RawFd,
        owner: Option<(u32, u32)>,
        mode: Option<u32>,
        step: Step<ReadOverride, OverrideStat>,
    ) -> Step<WriteOverride, ()> {
        match step {
            Step::Call(_, read) => WriteOverride::Before { fd, owner, mode, read }.wait(),
            Step::Done(Ok(before)) => WriteOverride::ByFd {
                fd,
                value: merged(owner, mode, before),
            }.wait(),
            Step::Done(Err(e)) => Step::Done(Err(e)),
        }
    }

    pub open spec fn next(self, reply: Reply) -> Step<WriteOverride, ()> {
        match self {
            WriteOverride::Kind { fd, owner, mode } => match reply {
                Reply::Fail(e) => Step::Done(Err(FsError::Os(e))),
                Reply::Stat(st) => if is_symlink_mode(st.st_mode) {
                    Step::Done(Ok(()))
                } else if is_complete(owner, mode) {
                    WriteOverride::ByFd { fd, value: merged(owner, mode, no_override()) }.wait()
                } else {
                    WriteOverride::after_read(fd, owner, mode, (ReadOverride::Kind { fd }).wait())
                },
                _ => arbitrary(),
            },
            WriteOverride::Before { fd, owner, mode, read } => WriteOverride::after_read(
                fd,
                owner,
                mode,
                read.next(reply),
            ),
            WriteOverride::ByFd { fd, value } => match reply {
                Reply::Fail(_) => WriteOverride::ByPath { fd, value }.wait(),
                _ => Step::Done(Ok(())),
            },
            WriteOverride::ByPath { .. } => match reply {
                Reply::Fail(e) => Step::Done(Err(FsError::Os(e))),
                _ => Step::Done(Ok(())),
            },
        }
    }

    /// Where this stands after a number of replies; those after the last step do not matter.
    pub open spec fn run(self, replies: Seq<Reply>) -> Step<WriteOverride, ()>
        decreases replies.len(),
    {
        if replies.len() == 0 {
            self.wait()
        } else {
            match self.next(replies[0]) {
                Step::Call(_, then) => then.run(replies.skip(1)),
                done => done,
            }
        }
    }

    fn write(fd: RawFd, value: OverrideStat) -> (step: Step<WriteOverride, ()>)
        ensures
            step == (WriteOverride::ByFd { fd, value }).wait(),
    {
        Step::Call(
            Syscall::SetXattr {
                target: XattrTarget::Fd(fd),
                name: XattrName::Override,
                value: XattrValue::Override(value),
                flags: 0,
            },
            WriteOverride::ByFd { fd, value },
        )
    }

    fn continue_read(
        fd: RawFd,
        owner: Option<(u32, u32)>,
        mode: Option<u32>,
        step: Step<ReadOverride, OverrideStat>,
    ) -> (res: Step<WriteOverride, ()>)
        requires
            step matches Step::Call(call, read) ==> call == read.pending(),
        ensures
            res == WriteOverride::after_read(fd, owner, mode, step),
    {
        match step {
            Step::Call(call, read) => Step::Call(
                call,
                WriteOverride::Before { fd, owner, mode, read },
            ),
            Step::Done(Ok(before)) => WriteOverride::write(
                fd,
                merge_override(owner, mode, before),
            ),
            Step::Done(Err(e)) => Step::Done(Err(e)),
        }
    }

    pub fn resume(self, reply: Reply) -> (step: Step<WriteOverride, ()>)
        requires
            self.pending().answered_by(reply),
        ensures
            step == self.next(reply),
    {
        match self {
            WriteOverride::Kind { fd, owner, mode } => match reply {
                Reply::Fail(e) => Step::Done(Err(FsError::from_raw_os_error(e))),
                Reply::Stat(st) => if is_symlink(&st) {
                    Step::Done(Ok(()))
                } else if is_valid_owner(owner) && mode.is_some() {
                    WriteOverride::write(fd, merge_override(owner, mode, (None, None, None)))
                } else {
                    WriteOverride::continue_read(fd, owner, mode, get_override_xattr(fd))
                },
                _ => unreached(),
            },
            WriteOverride::Before { fd, owner, mode, read } => WriteOverride::continue_read(
                fd,
                owner,
                mode,
                read.resume(reply),
            ),
            WriteOverride::ByFd { fd, value } => match reply {
                Reply::Fail(_) => Step::Call(
                    Syscall::SetXattr {
                        target: XattrTarget::Follow(fd),
                        name: XattrName::Override,
                        value: XattrValue::Override(value),
                        flags: 0,
                    },
                    WriteOverride::ByPath { fd, value },
                ),
                _ => Step::Done(Ok(())),
            },
            WriteOverride::ByPath { fd: _, value: _ } => match reply {
                Reply::Fail(e) => Step::Done(Err(FsError::from_raw_os_error(e))),
                _ => Step::Done(Ok(())),
            },
        }
    }
}

/// Starts to update the override of the file behind `fd`.
pub fn set_override_xattr(
    fd: RawFd,
    owner: Option<(u32, u32)>,
    mode: Option<u32>,
) -> (step: Step<WriteOverride, ()>)
    ensures
        step == (WriteOverride::Kind { fd, owner, mode }).wait(),
{
    Step::Call(host_stat_fd(fd), WriteOverride::Kind { fd, owner, mode })
}

/// Reads the attributes of a file as the guest sees them.
#[derive(Clone, Copy, Debug, PartialEq, Eq)]
pub enum StatFile {
    Host { fd: RawFd, host_uid: Option<u32>, host_gid: Option<u32> },
    Override { st: Stat, host_uid: Option<u32>, host_gid: Option<u32>, read: ReadOverride },
}

impl StatFile {
    pub open spec fn pending(self) -> Syscall {
        match self {
            StatFile::Host { fd, .. } => stat_call(fd),
            StatFile::Override { read, .. } => read.pending(),
        }
    }

    pub open spec fn wait(self) -> Step<StatFile, Stat> {
        Step::Call(self.pending(), self)
    }

    pub open spec fn next(self, reply: Reply) -> Step<StatFile, Stat> {
        match self {
            StatFile::Host { fd, host_uid, host_gid } => match reply {
                Reply::Fail(e) => Step::Done(Err(FsError::Os(e))),
                Reply::Stat(st) => StatFile::Override {
                    st,
                    host_uid,
                    host_gid,
                    read: ReadOverride::Kind { fd },
                }.wait(),
                _ => arbitrary(),
            },
            StatFile::Override { st, host_uid, host_gid, read } => match read.next(reply) {
                Step::Call(_, read) => StatFile::Override { st, host_uid, host_gid, read }.wait(),
                Step::Done(Ok(over)) => Step::Done(Ok(seen(st, over, host_uid, host_gid))),
                Step::Done(Err(e)) => Step::Done(Err(e)),
            },
        }
    }

    /// Where this stands after a number of replies; those after the last step do not matter.
    pub open spec fn run(self, replies: Seq<Reply>) -> Step<StatFile, Stat>
        decreases replies.len(),
    {
        if replies.len() == 0 {
            self.wait()
        } else {
            match self.next(replies[0]) {
                Step::Call(_, then) => then.run(replies.skip(1)),
                done => done,
            }
        }
    }

    pub fn resume(self, reply: Reply) -> (step: Step<StatFile, Stat>)
        requires
            self.pending().answered_by(reply),
        ensures
            step == self.next(reply),
    {
        match self {
            StatFile::Host { fd, host_uid, host_gid } => match reply {
                Reply::Fail(e) => Step::Done(Err(FsError::from_raw_os_error(e))),
                Reply::Stat(st) => match get_override_xattr(fd) {
                    Step::Call(call, read) => Step::Call(
                        call,
                        StatFile::Override { st, host_uid, host_gid, read },
                    ),
                    _ => unreached(),
                },
                _ => unreached(),
            },
            StatFile::Override { st, host_uid, host_gid, read } => match read.resume(reply) {
                Step::Call(call, read) => Step::Call(
                    call,
                    StatFile::Override { st, host_uid, host_gid, read },
                ),
                Step::Done(Ok((uid, gid, mode))) => Step::Done(
                    Ok(apply_override_stat(st, uid, gid, mode, host_uid, host_gid)),
                ),
                Step::Done(Err(e)) => Step::Done(Err(e)),
            },
        }
    }
}

/// Starts to read the attributes of the file behind `fd`.
pub fn stat(fd: RawFd, host_uid: Option<u32>, host_gid: Option<u32>) -> (step: Step<
    StatFile,
    Stat,
>)
    ensures
        step == (StatFile::Host { fd, host_uid, host_gid }).wait(),
{
    Step::Call(host_stat_fd(fd), StatFile::Host { fd, host_uid, host_gid })
}

/// The result of reading an override, from the replies to the three calls that may be made for it.
pub open spec fn override_read(kind: Reply, by_fd: Reply, by_path: Reply) -> Result<
    OverrideStat,
    FsError,
> {
    match kind {
        Reply::Stat(st) => if is_symlink_mode(st.st_mode) {
            Ok(no_override())
        } else {
            match (by_fd, by_path) {
                (Reply::Bytes(value), _) => Ok(override_of_text(value@)),
                (_, Reply::Bytes(value)) => Ok(override_of_text(value@)),
                _ => Ok(no_override()),
            }
        },
        Reply::Fail(e) => Err(FsError::Os(e)),
        _ => arbitrary(),
    }
}

/// Reading an override fails only where the file's kind cannot be found out. A link has none, the
/// open file is asked before its path, and no answer from either means that there is none.
pub proof fn law_override_is_read_by_fd_then_path(fd: RawFd, kind: Reply, by_fd: Reply, by_path: Reply)
    requires
        (ReadOverride::Kind { fd }).pending().answered_by(kind),
        (ReadOverride::ByFd { fd }).pending().answered_by(by_fd),
        (ReadOverride::ByPath { fd }).pending().answered_by(by_path),
    ensures
        match (ReadOverride::Kind { fd }).next(kind) {
            Step::Done(res) => res == override_read(kind, by_fd, by_path),
            Step::Call(_, s1) => s1 == (ReadOverride::ByFd { fd }) && match s1.next(by_fd) {
                Step::Done(res) => res == override_read(kind, by_fd, by_path),
                Step::Call(_, s2) => s2 == (ReadOverride::ByPath { fd }) && (s2.next(
                    by_path,
                ) matches Step::Done(res) && res == override_read(kind, by_fd, by_path)),
            },
        },
{
}

/// A link is never asked for an override, never found to have one, and never given one.
pub proof fn law_links_have_no_override(
    fd: RawFd,
    owner: Option<(u32, u32)>,
    mode: Option<u32>,
    st: Stat,
)
    requires
        is_symlink_mode(st.st_mode),
    ensures
        (ReadOverride::Kind { fd }).next(Reply::Stat(st)) matches Step::Done(Ok(over)) && over
            == no_override(),
        (HasOverride::Kind { fd }).next(Reply::Stat(st)) matches Step::Done(Ok(found)) && !found,
        (WriteOverride::Kind { fd, owner, mode }).next(Reply::Stat(st)) matches Step::Done(Ok(_)),
{
}

/// How a host answers that does what it is asked for, on one of two routes. Either it does so through
/// the open file, or it refuses that with the error `refused` and does so through the path, as it
/// must where the file only stands for a place in the tree.
pub open spec fn on_route(refused: Option<i32>, answer: Reply) -> Seq<Reply> {
    match refused {
        None => seq![answer],
        Some(e) => seq![Reply::Fail(e), answer],
    }
}

/// Whether the host answers with the text of an override.
pub open spec fn is_text_of(stored: Reply, value: OverrideStat) -> bool {
    stored matches Reply::Bytes(text) && text@ == override_text(value)
}

/// The host's replies to the reading of an override that it has stored, on a file that is no link.
pub open spec fn read_replies(st: Stat, refused: Option<i32>, stored: Reply) -> Seq<Reply> {
    seq![Reply::Stat(st)] + on_route(refused, stored)
}

/// A stored override is read, on either route.
pub proof fn law_stored_override_is_read(
    fd: RawFd,
    st: Stat,
    refused: Option<i32>,
    value: OverrideStat,
    stored: Reply,
)
    requires
        !is_symlink_mode(st.st_mode),
        is_text_of(stored, value),
    ensures
        (ReadOverride::Kind { fd }).run(read_replies(st, refused, stored)) matches Step::Done(
            Ok(over),
        ) && over == value,
{
    reveal_with_fuel(ReadOverride::run, 4);
    law_override_text_round_trip(value);
    let replies = read_replies(st, refused, stored);
    assert(replies[0] == Reply::Stat(st));
    assert(replies.skip(1) =~= on_route(refused, stored));
    if let Some(e) = refused {
        assert(on_route(refused, stored).skip(1) =~= seq![stored]);
    }
}

/// An override that is written whole is read back as it was written, from a host that stores what
/// it is given. Writing and reading may each go through the open file or, where the host refuses
/// that, through its path; the host is handed the same text on both routes.
pub proof fn law_override_is_read_back(
    fd: RawFd,
    st: Stat,
    owner: (u32, u32),
    mode: u32,
    unwritable: Option<i32>,
    unreadable: Option<i32>,
    stored: Reply,
)
    requires
        !is_symlink_mode(st.st_mode),
        is_complete(Some(owner), Some(mode)),
        is_text_of(stored, (Some(owner.0), Some(owner.1), Some(mode))),
    ensures
        ({
            let value = (Some(owner.0), Some(owner.1), Some(mode));
            let write = WriteOverride::Kind { fd, owner: Some(owner), mode: Some(mode) };
            let written = seq![Reply::Stat(st)] + on_route(unwritable, Reply::Unit);
            let read = ReadOverride::Kind { fd };
            &&& write.run(seq![Reply::Stat(st)]) == WriteOverride::ByFd { fd, value }.wait()
            &&& unwritable matches Some(e) ==> write.run(seq![Reply::Stat(st), Reply::Fail(e)])
                == WriteOverride::ByPath { fd, value }.wait()
            &&& write.run(written) matches Step::Done(Ok(_))
            &&& read.run(read_replies(st, unreadable, stored)) matches Step::Done(Ok(over)) && over
                == value
        }),
{
    let value = (Some(owner.0), Some(owner.1), Some(mode));
    law_stored_override_is_read(fd, st, unreadable, value, stored);
    reveal_with_fuel(WriteOverride::run, 4);
    assert(seq![Reply::Stat(st)].skip(1) =~= Seq::<Reply>::empty());
    let written = seq![Reply::Stat(st)] + on_route(unwritable, Reply::Unit);
    assert(written[0] == Reply::Stat(st));
    assert(written.skip(1) =~= on_route(unwritable, Reply::Unit));
    if let Some(e) = unwritable {
        assert(seq![Reply::Stat(st), Reply::Fail(e)].skip(1) =~= seq![Reply::Fail(e)]);
        assert(seq![Reply::Fail(e)].skip(1) =~= Seq::<Reply>::empty());
        assert(on_route(unwritable, Reply::Unit).skip(1) =~= seq![Reply::Unit]);
    }
}

/// The attributes that the guest sees, from the host's attributes and the replies to the calls that
/// may be made for the override: the whole of a `stat`.
pub proof fn law_attributes_are_seen_through_the_override(
    fd: RawFd,
    host_uid: Option<u32>,
    host_gid: Option<u32>,
    st: Stat,
    kind: Reply,
    by_fd: Reply,
    by_path: Reply,
)
    requires
        (ReadOverride::Kind { fd }).pending().answered_by(kind),
        (ReadOverride::ByFd { fd }).pending().answered_by(by_fd),
        (ReadOverride::ByPath { fd }).pending().answered_by(by_path),
    ensures
        (StatFile::Host { fd, host_uid, host_gid }).run(
            seq![Reply::Stat(st), kind, by_fd, by_path],
        ) == (match override_read(kind, by_fd, by_path) {
            Ok(over) => Step::<StatFile, Stat>::Done(Ok(seen(st, over, host_uid, host_gid))),
            Err(e) => Step::Done(Err(e)),
        }),
{
    reveal_with_fuel(StatFile::run, 5);
    let replies = seq![Reply::Stat(st), kind, by_fd, by_path];
    assert(replies.skip(1) =~= seq![kind, by_fd, by_path]);
    assert(seq![kind, by_fd, by_path].skip(1) =~= seq![by_fd, by_path]);
    assert(seq![by_fd, by_path].skip(1) =~= seq![by_path]);
}

/// An update that leaves something open is stored with what was there: the host is asked for it
/// first, through the open file or, where it refuses that, through its path, and what it had stored is
/// written again beside the update.
pub proof fn law_update_keeps_what_was_stored(
    fd: RawFd,
    st: Stat,
    owner: Option<(u32, u32)>,
    mode: Option<u32>,
    before: OverrideStat,
    unreadable: Option<i32>,
    stored: Reply,
)
    requires
        !is_symlink_mode(st.st_mode),
        !is_complete(owner, mode),
        is_text_of(stored, before),
    ensures
        (WriteOverride::Kind { fd, owner, mode }).run(
            seq![Reply::Stat(st)] + read_replies(st, unreadable, stored),
        ) == (WriteOverride::ByFd { fd, value: merged(owner, mode, before) }).wait(),
{
    law_override_text_round_trip(before);
    reveal_with_fuel(WriteOverride::run, 5);
    let replies = seq![Reply::Stat(st)] + read_replies(st, unreadable, stored);
    assert(replies[0] == Reply::Stat(st));
    assert(replies.skip(1) =~= read_replies(st, unreadable, stored));
    assert(read_replies(st, unreadable, stored)[0] == Reply::Stat(st));
    assert(read_replies(st, unreadable, stored).skip(1) =~= on_route(unreadable, stored));
    match unreadable {
        None => {
            assert(seq![stored].skip(1) =~= Seq::<Reply>::empty());
        },
        Some(e) => {
            assert(on_route(unreadable, stored).skip(1) =~= seq![stored]);
            assert(seq![stored].skip(1) =~= Seq::<Reply>::empty());
        },
    }
}

/// Every override whose mode has at most nine octal digits fits the buffer that it is read into.
pub proof fn law_override_fits_the_buffer(value: OverrideStat)
    requires
        value.2 matches Some(mode) ==> mode < 0o1000000000,
    ensures
        override_text(value).len() <= OVERRIDE_SIZE,
{
    lemma_id_text_width(value.0);
    lemma_id_text_width(value.1);
    if let Some(mode) = value.2 {
        assert(vstd::arithmetic::power::pow(8, 9) == 0o1000000000) by {
            reveal_with_fuel(vstd::arithmetic::power::pow, 10);
        }
        crate::text::lemma_digits_width(mode as nat, 8, 9);
    }
}

proof fn lemma_id_text_width(id: Option<u32>)
    ensures
        crate::override_stat::id_text(id).len() <= 10,
{
    if let Some(id) = id {
        assert(vstd::arithmetic::power::pow(10, 10) == 10000000000) by {
            reveal_with_fuel(vstd::arithmetic::power::pow, 11);
        }
        crate::text::lemma_digits_width(id as nat, 10, 10);
    }
}

} // verus!
