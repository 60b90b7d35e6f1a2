//! Requests of the guest's own programs: exporting open files, passing on an exit code, removing
//! the root directory.

use crate::abi::{
    EBADF, EINVAL, EOPNOTSUPP, EXPORT_FD_SIZE, IOC_EXIT_CODE, IOC_EXPORT_FD, IOC_REMOVE_ROOT_DIR,
};
use crate::data_laws::{lemma_signed_half, signed_half};
use crate::dirent::{bytes_of, law_number_bytes_round_trip, number_in, push_u64};
use crate::fs::{FsView, PassthroughFs};
use crate::model::{ebadf, einval, ByteOrder, FsError, Handle, Inode, RawFd};
use crate::open::released;
use crate::step::{
    bare, carries, carry, just_name, Carried, Carrying, Reply, Step, Syscall,
};
use vstd::arithmetic::power::pow;
use vstd::pervasive::unreached;
use vstd::prelude::*;

verus! {

/// Serves such a request.
#[derive(Clone, Copy, Debug, PartialEq, Eq)]
pub enum Ioctl {
    /// Duplicates the file to be exported.
    Duplicate { fsid: u64, handle: Handle, fd: RawFd, order: ByteOrder },
    /// Hands out the duplicate.
    Export { fsid: u64, handle: Handle, fd: RawFd, order: ByteOrder },
    ExitCode { code: i32 },
    RemoveRoot,
}

/// A step, as the contracts speak of it.
pub open spec fn viewed(step: Step<Ioctl, Vec<u8>>) -> Step<Ioctl, Seq<u8>> {
    match step {
        Step::Call(call, op) => Step::Call(call, op),
        Step::Done(Ok(bytes)) => Step::Done(Ok(bytes@)),
        Step::Done(Err(e)) => Step::Done(Err(e)),
    }
}

impl Ioctl {
    pub open spec fn pending(self) -> Syscall {
        match self {
            Ioctl::Duplicate { fd, .. } => Syscall::TryClone { fd },
            Ioctl::Export { fsid, handle, fd, .. } => Syscall::ExportInsert { fsid, handle, fd },
            Ioctl::ExitCode { code } => Syscall::SetExitCode { code },
            Ioctl::RemoveRoot => Syscall::RemoveRootDir,
        }
    }

    pub open spec fn wait(self) -> Step<Ioctl, Seq<u8>> {
        Step::Call(self.pending(), self)
    }

    /// What comes of the reply. The guest is told under which two numbers an exported file is found.
    pub open spec fn next(self, reply: Reply) -> Step<Ioctl, Seq<u8>> {
        match (self, reply) {
            (_, Reply::Fail(e)) => Step::Done(Err(FsError::Os(e))),
            (Ioctl::Duplicate { fsid, handle, order, .. }, Reply::Fd(fd)) => Ioctl::Export {
                fsid,
                handle,
                fd,
                order,
            }.wait(),
            (Ioctl::Export { fsid, handle, order, .. }, _) => Step::Done(
                Ok(bytes_of(order, fsid as nat, 8) + bytes_of(order, handle as nat, 8)),
            ),
            _ => Step::Done(Ok(Seq::empty())),
        }
    }

    pub fn resume(self, reply: Reply) -> (step: Step<Ioctl, Vec<u8>>)
        requires
            self.pending().answered_by(reply),
        ensures
            viewed(step) == self.next(reply),
    {
        match self {
            Ioctl::Duplicate { fsid, handle, fd: _, order } => match reply {
                Reply::Fail(e) => Step::Done(Err(FsError::from_raw_os_error(e))),
                Reply::Fd(fd) => Step::Call(
                    Syscall::ExportInsert { fsid, handle, fd },
                    Ioctl::Export { fsid, handle, fd, order },
                ),
                _ => unreached(),
            },
            Ioctl::Export { fsid, handle, fd: _, order } => {
                let mut ret: Vec<u8> = Vec::new();
                push_u64(order, &mut ret, fsid);
                push_u64(order, &mut ret, handle);
                assert(ret@ =~= bytes_of(order, fsid as nat, 8) + bytes_of(
                    order,
                    handle as nat,
                    8,
                ));
                Step::Done(Ok(ret))
            },
            Ioctl::ExitCode { code: _ } => Step::Done(Ok(Vec::new())),
            Ioctl::RemoveRoot => match reply {
                Reply::Fail(e) => Step::Done(Err(FsError::from_raw_os_error(e))),
                _ => Step::Done(Ok(Vec::new())),
            },
        }
    }
}

impl Carrying<Ioctl> {
    pub fn resume(self, reply: Reply) -> (step: Step<Carrying<Ioctl>, Vec<u8>>)
        requires
            self.op.pending().answered_by(reply),
        ensures
            viewed(bare(step)) == self.op.next(reply),
            carries(step, self.carried@),
    {
        carry(self.op.resume(reply), self.carried)
    }
}

/// How an export starts: the handle is marked, so that it leaves the table when it is closed.
pub open spec fn export_start(fs: FsView, inode: Inode, handle: Handle, out_size: u32) -> (
    FsView,
    Step<Ioctl, Seq<u8>>,
) {
    if out_size != EXPORT_FD_SIZE {
        (fs, Step::Done(Err(FsError::Os(EINVAL))))
    } else if !fs.cfg.export_table {
        (fs, Step::Done(Err(FsError::Os(EOPNOTSUPP))))
    } else {
        match fs.find_handle(inode, handle) {
            Err(e) => (fs, Step::Done(Err(e))),
            Ok(data) => (
                fs.with_exported(handle),
                Ioctl::Duplicate {
                    fsid: fs.cfg.export_fsid,
                    handle,
                    fd: data.fd,
                    order: fs.machine.order,
                }.wait(),
            ),
        }
    }
}

/// How a request starts.
pub open spec fn ioctl_start(
    fs: FsView,
    inode: Inode,
    handle: Handle,
    cmd: u32,
    arg: u64,
    out_size: u32,
) -> (FsView, Step<Ioctl, Seq<u8>>) {
    if cmd == IOC_EXPORT_FD {
        export_start(fs, inode, handle, out_size)
    } else if cmd == IOC_EXIT_CODE {
        (fs, Ioctl::ExitCode { code: arg as i32 }.wait())
    } else if cmd == IOC_REMOVE_ROOT_DIR && fs.cfg.allow_root_dir_delete {
        (fs, Ioctl::RemoveRoot.wait())
    } else {
        (fs, Step::Done(Err(FsError::Os(EOPNOTSUPP))))
    }
}

impl PassthroughFs {
    fn export(&mut self, inode: Inode, handle: Handle, out_size: u32) -> (step: Step<
        Ioctl,
        Vec<u8>,
    >)
        requires
            old(self).wf(),
        ensures
            final(self).wf(),
            (final(self)@, viewed(step)) == export_start(old(self)@, inode, handle, out_size),
    {
        if out_size != EXPORT_FD_SIZE {
            return Step::Done(Err(einval()));
        }
        if !self.cfg().export_table {
            return Step::Done(Err(FsError::from_raw_os_error(EOPNOTSUPP)));
        }
        match self.handle_data(inode, handle) {
            Err(_) => Step::Done(Err(ebadf())),
            Ok(data) => {
                self.mark_exported(handle);
                Step::Call(
                    Syscall::TryClone { fd: data.fd },
                    Ioctl::Duplicate {
                        fsid: self.cfg().export_fsid,
                        handle,
                        fd: data.fd,
                        order: self.machine().order,
                    },
                )
            },
        }
    }

    fn do_ioctl(
        &mut self,
        inode: Inode,
        handle: Handle,
        cmd: u32,
        arg: u64,
        out_size: u32,
    ) -> (step: Step<Ioctl, Vec<u8>>)
        requires
            old(self).wf(),
        ensures
            final(self).wf(),
            (final(self)@, viewed(step)) == ioctl_start(
                old(self)@,
                inode,
                handle,
                cmd,
                arg,
                out_size,
            ),
    {
        if cmd == IOC_EXPORT_FD {
            self.export(inode, handle, out_size)
        } else if cmd == IOC_EXIT_CODE {
            let code: i32 = #[verifier::truncate]
            (arg as i32);
            Step::Call(Syscall::SetExitCode { code }, Ioctl::ExitCode { code })
        } else if cmd == IOC_REMOVE_ROOT_DIR && self.cfg().allow_root_dir_delete {
            Step::Call(Syscall::RemoveRootDir, Ioctl::RemoveRoot)
        } else {
            Step::Done(Err(FsError::from_raw_os_error(EOPNOTSUPP)))
        }
    }

    /// Serves a request of the guest's own programs; all others are not supported.
    pub fn ioctl(
        &mut self,
        inode: Inode,
        handle: Handle,
        cmd: u32,
        arg: u64,
        out_size: u32,
    ) -> (step: Step<Carrying<Ioctl>, Vec<u8>>)
        requires
            old(self).wf(),
        ensures
            final(self).wf(),
            (final(self)@, viewed(bare(step))) == ioctl_start(
                old(self)@,
                inode,
                handle,
                cmd,
                arg,
                out_size,
            ),
            carries(step, just_name(old(self)@.cfg.root_path())),
    {
        let carried = Carried::named(self.cfg().root_bytes());
        carry(self.do_ioctl(inode, handle, cmd, arg, out_size), carried)
    }
}

/// The root directory is removed only by the request for it, and only where that is allowed.
pub proof fn law_root_is_removed_only_where_allowed(
    fs: FsView,
    inode: Inode,
    handle: Handle,
    cmd: u32,
    arg: u64,
    out_size: u32,
)
    ensures
        ioctl_start(fs, inode, handle, cmd, arg, out_size).1 matches Step::Call(call, _) && call
            == Syscall::RemoveRootDir <==> cmd == IOC_REMOVE_ROOT_DIR
            && fs.cfg.allow_root_dir_delete,
{
}

/// A file that was exported leaves the table when the client closes it, under the numbers that the
/// guest was told.
pub proof fn law_exported_file_leaves_the_table(
    fs: FsView,
    inode: Inode,
    handle: Handle,
    out_size: u32,
)
    requires
        export_start(fs, inode, handle, out_size).1 is Call,
    ensures
        ({
            let after = export_start(fs, inode, handle, out_size).0;
            released(after, inode, handle).1 matches Step::Call(call, _) && call
                == (Syscall::ExportRemove { fsid: fs.cfg.export_fsid, handle })
        }),
{
}

/// An export hands out a duplicate of the file that is open, under the number of this file system and
/// the handle, and tells the guest these two numbers, in the byte order of the machine. The handle is
/// marked and stays what it was otherwise; no other handle changes, and no inode.
pub proof fn law_export_hands_out_a_duplicate(
    fs: FsView,
    inode: Inode,
    handle: Handle,
    fd: RawFd,
    arg: u64,
    twin: RawFd,
    e: i32,
)
    requires
        fs.cfg.export_table,
        fs.has_open(inode, handle, fd),
    ensures
        ({
            let order = fs.machine.order;
            let (after, step) = ioctl_start(
                fs,
                inode,
                handle,
                IOC_EXPORT_FD,
                arg,
                EXPORT_FD_SIZE,
            );
            &&& after.has_open(inode, handle, fd)
            &&& after.handles[handle].exported
            &&& forall|other: Handle|
                other != handle ==> (#[trigger] after.handles.contains_key(other)
                    == fs.handles.contains_key(other)) && after.handles[other] == fs.handles[other]
            &&& after == (FsView { handles: after.handles, ..fs })
            &&& step matches Step::Call(clone, op)
            &&& clone == (Syscall::TryClone { fd })
            &&& op.next(Reply::Fail(e)) matches Step::Done(Err(err))
            &&& err == FsError::Os(e)
            &&& op.next(Reply::Fd(twin)) matches Step::Call(insert, last)
            &&& insert == (Syscall::ExportInsert { fsid: fs.cfg.export_fsid, handle, fd: twin })
            &&& last.next(Reply::Unit) matches Step::Done(Ok(told))
            &&& told.len() == EXPORT_FD_SIZE
            &&& number_in(order, told.take(8)) == fs.cfg.export_fsid
            &&& number_in(order, told.skip(8)) == handle
        }),
{
    let order = fs.machine.order;
    let fsid = fs.cfg.export_fsid;
    assert(pow(256, 8) == 0x1_0000_0000_0000_0000) by {
        reveal_with_fuel(pow, 9);
    }
    law_number_bytes_round_trip(order, fsid as nat, 8);
    law_number_bytes_round_trip(order, handle as nat, 8);
    let told = bytes_of(order, fsid as nat, 8) + bytes_of(order, handle as nat, 8);
    assert(told.take(8) =~= bytes_of(order, fsid as nat, 8));
    assert(told.skip(8) =~= bytes_of(order, handle as nat, 8));
}

/// What cannot be exported is refused, with nothing changed: into an answer of another size, where
/// there is no table, and a file that the client has not open.
pub proof fn law_export_may_be_refused(
    fs: FsView,
    inode: Inode,
    handle: Handle,
    arg: u64,
    out_size: u32,
)
    requires
        out_size != EXPORT_FD_SIZE || !fs.cfg.export_table || !fs.handles.contains_key(handle)
            || fs.handles[handle].inode != inode,
    ensures
        ioctl_start(fs, inode, handle, IOC_EXPORT_FD, arg, out_size) == (
            fs,
            Step::<Ioctl, Seq<u8>>::Done(
                Err(
                    FsError::Os(
                        if out_size != EXPORT_FD_SIZE {
                            EINVAL
                        } else if !fs.cfg.export_table {
                            EOPNOTSUPP
                        } else {
                            EBADF
                        },
                    ),
                ),
            ),
        ),
{
}

/// The exit code that is passed on is the number in the low half of the argument, and a program that
/// passes one on is answered nothing.
pub proof fn law_exit_code_is_passed_on(
    fs: FsView,
    inode: Inode,
    handle: Handle,
    arg: u64,
    out_size: u32,
)
    ensures
        ({
            let (after, step) = ioctl_start(fs, inode, handle, IOC_EXIT_CODE, arg, out_size);
            &&& after == fs
            &&& step matches Step::Call(call, op)
            &&& call matches Syscall::SetExitCode { code }
            &&& code == signed_half((arg % 0x1_0000_0000) as u32)
            &&& op.next(Reply::Unit) matches Step::Done(Ok(told))
            &&& told.len() == 0
        }),
{
    assert((arg % 0x1_0000_0000) as u32 as i32 == arg as i32) by (bit_vector);
    lemma_signed_half((arg % 0x1_0000_0000) as u32);
}

/// A request to remove the root directory changes nothing here, and ends as the host says.
pub proof fn law_removal_ends_as_the_host_says(
    fs: FsView,
    inode: Inode,
    handle: Handle,
    arg: u64,
    out_size: u32,
    e: i32,
)
    requires
        fs.cfg.allow_root_dir_delete,
    ensures
        ({
            let (after, step) = ioctl_start(fs, inode, handle, IOC_REMOVE_ROOT_DIR, arg, out_size);
            &&& after == fs
            &&& step matches Step::Call(call, op)
            &&& call == Syscall::RemoveRootDir
            &&& op.next(Reply::Unit) matches Step::Done(Ok(told))
            &&& told.len() == 0
            &&& op.next(Reply::Fail(e)) matches Step::Done(Err(err))
            &&& err == FsError::Os(e)
        }),
{
}

/// Every other request is not supported, and changes nothing.
pub proof fn law_other_programs_are_not_served(
    fs: FsView,
    inode: Inode,
    handle: Handle,
    cmd: u32,
    arg: u64,
    out_size: u32,
)
    requires
        cmd != IOC_EXPORT_FD,
        cmd != IOC_EXIT_CODE,
        cmd != IOC_REMOVE_ROOT_DIR || !fs.cfg.allow_root_dir_delete,
    ensures
        ioctl_start(fs, inode, handle, cmd, arg, out_size) == (
            fs,
            Step::<Ioctl, Seq<u8>>::Done(Err(FsError::Os(EOPNOTSUPP))),
        ),
{
}

} // verus!
