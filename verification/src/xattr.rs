//! Extended attributes of the guest.

use crate::abi::{ELOOP, ENODATA, ENOSYS, ERANGE, O_NONBLOCK, O_RDONLY};
use crate::fs::{FsView, PassthroughFs, INIT_INODE};
use crate::fs_laws::lemma_release_holds;
use crate::guest_xattr::{
    guest_xattr_list_from_host, host_name, host_xattr_name_for_guest, shown_all,
};
use crate::model::{FsError, Inode, RawFd};
use crate::open::{opening, Opening};
use crate::step::{
    bare, call_bytes, carries, carry, copied, just_name, Carried, CarriedBytes, Carrying, Reply,
    Step, Syscall, XattrName, XattrTarget, XattrValue,
};
use crate::text::fields;
use vstd::pervasive::unreached;
use vstd::prelude::*;

verus! {

/// What is done with the attributes of a file.
#[derive(Clone, Copy, Debug, PartialEq, Eq)]
pub enum XattrJob {
    Store { flags: i32 },
    /// Reads at most `size` bytes, or with no size the length of the value.
    Fetch { size: u32 },
    /// Lists names in at most `size` bytes, or with no size their length.
    List { size: u32 },
    Remove,
}

/// What comes of it: nothing, a length or bytes.
#[derive(Debug)]
pub enum XattrReply {
    Unit,
    Count(u32),
    Bytes(Vec<u8>),
}

/// Serves a request on attributes. The file is opened for it; a link, which cannot be opened, is
/// reached through its path.
#[allow(inconsistent_fields)]
#[derive(Clone, Copy, Debug, PartialEq, Eq)]
pub enum Xattr {
    Open { inode: Inode, job: XattrJob, opening: Opening },
    Act { job: XattrJob, target: XattrTarget },
    /// Lists names, whose length on the host is known.
    ActList { size: u32, target: XattrTarget, host_size: usize },
}

impl XattrTarget {
    /// The file that was opened to reach the attributes.
    pub open spec fn opened(self) -> Option<RawFd> {
        match self {
            XattrTarget::Fd(fd) => Some(fd),
            _ => None,
        }
    }

    fn opened_fd(self) -> (fd: Option<RawFd>)
        ensures
            fd == self.opened(),
    {
        match self {
            XattrTarget::Fd(fd) => Some(fd),
            _ => None,
        }
    }
}

impl XattrJob {
    /// The call that does the job, or its first part.
    pub open spec fn call(self, target: XattrTarget) -> Syscall {
        match self {
            XattrJob::Store { flags } => Syscall::SetXattr {
                target,
                name: XattrName::Guest,
                value: XattrValue::Guest,
                flags,
            },
            XattrJob::Fetch { size } => Syscall::GetXattr {
                target,
                name: XattrName::Guest,
                size: size as usize,
            },
            XattrJob::List { .. } => Syscall::ListXattr { target, size: 0 },
            XattrJob::Remove => Syscall::RemoveXattr { target, name: XattrName::Guest },
        }
    }
}

/// A reply, as the contracts speak of it.
#[verifier::ext_equal]
pub enum XattrAnswer {
    Unit,
    Count(u32),
    Bytes(Seq<u8>),
}

impl View for XattrReply {
    type V = XattrAnswer;

    open spec fn view(&self) -> XattrAnswer {
        match self {
            XattrReply::Unit => XattrAnswer::Unit,
            XattrReply::Count(n) => XattrAnswer::Count(*n),
            XattrReply::Bytes(bytes) => XattrAnswer::Bytes(bytes@),
        }
    }
}

/// A step, as the contracts speak of it.
pub open spec fn viewed(step: Step<Xattr, XattrReply>) -> Step<Xattr, XattrAnswer> {
    match step {
        Step::Call(call, op) => Step::Call(call, op),
        Step::Done(Ok(reply)) => Step::Done(Ok(reply@)),
        Step::Done(Err(e)) => Step::Done(Err(e)),
    }
}

/// The answer to a request for names in `size` bytes, from the list on the host: the names that are
/// the guest's, their length where no size is given, or that they do not fit.
pub open spec fn listing(size: u32, host_list: Seq<u8>) -> Result<XattrAnswer, FsError> {
    let names = shown_all(fields(host_list, 0));
    if size == 0 {
        Ok(XattrAnswer::Count(names.len() as u32))
    } else if size < names.len() {
        Err(FsError::Os(ERANGE))
    } else {
        Ok(XattrAnswer::Bytes(names))
    }
}

fn list_names(size: u32, host_list: &[u8]) -> (res: Result<XattrReply, FsError>)
    ensures
        viewed(Step::Done(res)) == Step::<Xattr, XattrAnswer>::Done(listing(size, host_list@)),
{
    let names: Vec<u8> = guest_xattr_list_from_host(host_list);
    if size == 0 {
        Ok(
            XattrReply::Count(
                #[verifier::truncate]
                (names.len() as u32),
            ),
        )
    } else if (size as usize) < names.len() {
        Err(FsError::from_raw_os_error(ERANGE))
    } else {
        Ok(XattrReply::Bytes(names))
    }
}

impl Xattr {
    pub open spec fn wf(self) -> bool {
        self matches Xattr::ActList { host_size, .. } ==> host_size != 0
    }

    /// Whether this request has the file `fd` open.
    pub open spec fn holds(self, fd: RawFd) -> bool {
        match self {
            Xattr::Open { .. } => false,
            Xattr::Act { target, .. } => target.opened() == Some(fd),
            Xattr::ActList { target, .. } => target.opened() == Some(fd),
        }
    }

    pub open spec fn pending(self) -> Syscall {
        match self {
            Xattr::Open { opening, .. } => opening.call(),
            Xattr::Act { job, target } => job.call(target),
            Xattr::ActList { target, host_size, .. } => Syscall::ListXattr {
                target,
                size: host_size,
            },
        }
    }

    pub open spec fn wait(self) -> Step<Xattr, XattrAnswer> {
        Step::Call(self.pending(), self)
    }

    /// How the request ends: a file that was opened for it is closed.
    pub open spec fn finish(
        fs: FsView,
        target: XattrTarget,
        res: Result<XattrAnswer, FsError>,
    ) -> (FsView, Step<Xattr, XattrAnswer>) {
        (fs.releasing_if(target.opened()), Step::Done(res))
    }

    pub open spec fn next(self, fs: FsView, reply: Reply) -> (FsView, Step<Xattr, XattrAnswer>) {
        match self {
            Xattr::Open { inode, job, .. } => match reply {
                Reply::Fd(fd) => (fs, Xattr::Act { job, target: XattrTarget::Fd(fd) }.wait()),
                Reply::Fail(e) => if e == ELOOP {
                    match fs.find_inode(inode) {
                        Ok(data) => (
                            fs,
                            Xattr::Act { job, target: XattrTarget::Link(data.fd) }.wait(),
                        ),
                        Err(e) => (fs, Step::Done(Err(e))),
                    }
                } else {
                    (fs, Step::Done(Err(FsError::Os(e))))
                },
                _ => arbitrary(),
            },
            Xattr::Act { job, target } => match (job, reply) {
                (_, Reply::Fail(e)) => Xattr::finish(fs, target, Err(FsError::Os(e))),
                (XattrJob::List { size }, Reply::Num(n)) => if n as usize == 0 {
                    Xattr::finish(fs, target, listing(size, Seq::empty()))
                } else {
                    (fs, Xattr::ActList { size, target, host_size: n as usize }.wait())
                },
                (XattrJob::Fetch { .. }, Reply::Num(n)) => Xattr::finish(
                    fs,
                    target,
                    Ok(XattrAnswer::Count(n as u32)),
                ),
                (XattrJob::Fetch { .. }, Reply::Bytes(bytes)) => Xattr::finish(
                    fs,
                    target,
                    Ok(XattrAnswer::Bytes(bytes@)),
                ),
                _ => Xattr::finish(fs, target, Ok(XattrAnswer::Unit)),
            },
            Xattr::ActList { size, target, .. } => match reply {
                Reply::Fail(e) => Xattr::finish(fs, target, Err(FsError::Os(e))),
                Reply::Bytes(list) => Xattr::finish(fs, target, listing(size, list@)),
                _ => arbitrary(),
            },
        }
    }

    fn act(job: XattrJob, target: XattrTarget) -> (step: Step<Xattr, XattrReply>)
        ensures
            viewed(step) == (Xattr::Act { job, target }).wait(),
    {
        let call = match job {
            XattrJob::Store { flags } => Syscall::SetXattr {
                target,
                name: XattrName::Guest,
                value: XattrValue::Guest,
                flags,
            },
            XattrJob::Fetch { size } => Syscall::GetXattr {
                target,
                name: XattrName::Guest,
                size: size as usize,
            },
            XattrJob::List { size: _ } => Syscall::ListXattr { target, size: 0 },
            XattrJob::Remove => Syscall::RemoveXattr { target, name: XattrName::Guest },
        };
        Step::Call(call, Xattr::Act { job, target })
    }

    fn done(fs: &mut PassthroughFs, target: XattrTarget, res: Result<XattrReply, FsError>) -> (step:
        Step<Xattr, XattrReply>)
        requires
            old(fs).wf(),
        ensures
            final(fs).wf(),
            final(fs)@ == old(fs)@.releasing_if(target.opened()),
            step == Step::<Xattr, XattrReply>::Done(res),
    {
        fs.release_if(target.opened_fd());
        Step::Done(res)
    }

    pub fn resume(self, fs: &mut PassthroughFs, reply: Reply) -> (step: Step<Xattr, XattrReply>)
        requires
            old(fs).wf(),
            self.wf(),
            self.pending().answered_by(reply),
        ensures
            final(fs).wf(),
            (final(fs)@, viewed(step)) == self.next(old(fs)@, reply),
            step matches Step::Call(_, op) ==> op.wf(),
    {
        match self {
            Xattr::Open { inode, job, opening: _ } => match reply {
                Reply::Fd(fd) => Xattr::act(job, XattrTarget::Fd(fd)),
                Reply::Fail(e) => fs.open_failed(inode, job, e),
                _ => unreached(),
            },
            Xattr::Act { job, target } => match reply {
                Reply::Fail(e) => Xattr::done(fs, target, Err(FsError::from_raw_os_error(e))),
                Reply::Num(n) => match job {
                    XattrJob::List { size } => {
                        let host_size: usize = #[verifier::truncate]
                        (n as usize);
                        if host_size == 0 {
                            let none: Vec<u8> = Vec::new();
                            Xattr::done(fs, target, list_names(size, none.as_slice()))
                        } else {
                            Step::Call(
                                Syscall::ListXattr { target, size: host_size },
                                Xattr::ActList { size, target, host_size },
                            )
                        }
                    },
                    XattrJob::Fetch { size: _ } => Xattr::done(
                        fs,
                        target,
                        Ok(
                            XattrReply::Count(
                                #[verifier::truncate]
                                (n as u32),
                            ),
                        ),
                    ),
                    _ => unreached(),
                },
                Reply::Bytes(bytes) => Xattr::done(fs, target, Ok(XattrReply::Bytes(bytes))),
                _ => Xattr::done(fs, target, Ok(XattrReply::Unit)),
            },
            Xattr::ActList { size, target, host_size: _ } => match reply {
                Reply::Fail(e) => Xattr::done(fs, target, Err(FsError::from_raw_os_error(e))),
                Reply::Bytes(list) => Xattr::done(
                    fs,
                    target,
                    list_names(size, list.as_slice()),
                ),
                _ => unreached(),
            },
        }
    }
}

impl Carrying<Xattr> {
    pub fn resume(self, fs: &mut PassthroughFs, reply: Reply) -> (step: Step<
        Carrying<Xattr>,
        XattrReply,
    >)
        requires
            old(fs).wf(),
            self.op.wf(),
            self.op.pending().answered_by(reply),
        ensures
            final(fs).wf(),
            (final(fs)@, viewed(bare(step))) == self.op.next(old(fs)@, reply),
            carries(step, self.carried@),
            step matches Step::Call(_, request) ==> request.op.wf(),
    {
        carry(self.op.resume(fs, reply), self.carried)
    }
}

/// What a request on an attribute carries: the name under which the host keeps it, and its value.
pub open spec fn attribute(name: Seq<u8>, value: Seq<u8>) -> CarriedBytes {
    CarriedBytes { name: host_name(name), other: Seq::empty(), value }
}

/// How a request on attributes starts. Where they are not supported there is no such request.
pub open spec fn xattr_start(fs: FsView, inode: Inode, job: XattrJob) -> Step<Xattr, XattrAnswer> {
    if !fs.cfg.xattr {
        Step::Done(Err(FsError::Os(ENOSYS)))
    } else if inode == INIT_INODE && job is Fetch {
        Step::Done(Err(FsError::Os(ENODATA)))
    } else {
        match opening(fs, inode, O_RDONLY | O_NONBLOCK) {
            Ok(opening) => Xattr::Open { inode, job, opening }.wait(),
            Err(e) => Step::Done(Err(e)),
        }
    }
}

impl PassthroughFs {
    /// Says how the attributes of an inode are reached that could not be opened: through its path
    /// if it is a link.
    fn open_failed(&self, inode: Inode, job: XattrJob, e: i32) -> (step: Step<Xattr, XattrReply>)
        ensures
            viewed(step) == (if e == ELOOP {
                match self@.find_inode(inode) {
                    Ok(data) => Xattr::Act { job, target: XattrTarget::Link(data.fd) }.wait(),
                    Err(e) => Step::Done(Err(e)),
                }
            } else {
                Step::Done(Err(FsError::Os(e)))
            }),
            step matches Step::Call(_, op) ==> op.wf(),
    {
        if e == ELOOP {
            match self.inode_data(inode) {
                Ok(data) => Xattr::act(job, XattrTarget::Link(data.fd)),
                Err(e) => Step::Done(Err(e)),
            }
        } else {
            Step::Done(Err(FsError::from_raw_os_error(e)))
        }
    }

    fn open_inode_or_path(&self, inode: Inode, job: XattrJob) -> (step: Step<Xattr, XattrReply>)
        ensures
            viewed(step) == (match opening(self@, inode, O_RDONLY | O_NONBLOCK) {
                Ok(opening) => Xattr::Open { inode, job, opening }.wait(),
                Err(e) => Step::Done(Err(e)),
            }),
            step matches Step::Call(_, op) ==> op.wf(),
    {
        match self.open_inode(inode, O_RDONLY | O_NONBLOCK) {
            Ok(opening) => Step::Call(opening.call(), Xattr::Open { inode, job, opening }),
            Err(e) => Step::Done(Err(e)),
        }
    }

    /// Sets the attribute `name` to `value`.
    pub fn setxattr(&self, inode: Inode, name: &[u8], value: &[u8], flags: u32) -> (step: Step<
        Carrying<Xattr>,
        XattrReply,
    >)
        ensures
            viewed(bare(step)) == xattr_start(
                self@,
                inode,
                (XattrJob::Store { flags: flags as i32 }),
            ),
            carries(step, attribute(name@, value@)),
            step matches Step::Call(_, request) ==> request.op.wf(),
    {
        if !self.cfg().xattr {
            return Step::Done(Err(FsError::from_raw_os_error(ENOSYS)));
        }
        let carried = Carried {
            name: host_xattr_name_for_guest(name),
            other: Vec::new(),
            value: copied(value),
        };
        let flags: i32 = #[verifier::truncate]
        (flags as i32);
        carry(self.open_inode_or_path(inode, XattrJob::Store { flags }), carried)
    }

    /// Reads the attribute `name`. The init program has none.
    pub fn getxattr(&self, inode: Inode, name: &[u8], size: u32) -> (step: Step<
        Carrying<Xattr>,
        XattrReply,
    >)
        ensures
            viewed(bare(step)) == xattr_start(self@, inode, (XattrJob::Fetch { size })),
            carries(step, attribute(name@, Seq::empty())),
            step matches Step::Call(_, request) ==> request.op.wf(),
    {
        if !self.cfg().xattr {
            return Step::Done(Err(FsError::from_raw_os_error(ENOSYS)));
        }
        if inode == INIT_INODE {
            return Step::Done(Err(FsError::from_raw_os_error(ENODATA)));
        }
        let carried = Carried {
            name: host_xattr_name_for_guest(name),
            other: Vec::new(),
            value: Vec::new(),
        };
        carry(self.open_inode_or_path(inode, XattrJob::Fetch { size }), carried)
    }

    /// Lists the names of attributes.
    pub fn listxattr(&self, inode: Inode, size: u32) -> (step: Step<Carrying<Xattr>, XattrReply>)
        ensures
            viewed(bare(step)) == xattr_start(self@, inode, (XattrJob::List { size })),
            carries(step, just_name(Seq::empty())),
            step matches Step::Call(_, request) ==> request.op.wf(),
    {
        if !self.cfg().xattr {
            return Step::Done(Err(FsError::from_raw_os_error(ENOSYS)));
        }
        carry(self.open_inode_or_path(inode, XattrJob::List { size }), Carried::none())
    }

    /// Removes the attribute `name`.
    pub fn removexattr(&self, inode: Inode, name: &[u8]) -> (step: Step<
        Carrying<Xattr>,
        XattrReply,
    >)
        ensures
            viewed(bare(step)) == xattr_start(self@, inode, XattrJob::Remove),
            carries(step, attribute(name@, Seq::empty())),
            step matches Step::Call(_, request) ==> request.op.wf(),
    {
        if !self.cfg().xattr {
            return Step::Done(Err(FsError::from_raw_os_error(ENOSYS)));
        }
        let carried = Carried {
            name: host_xattr_name_for_guest(name),
            other: Vec::new(),
            value: Vec::new(),
        };
        carry(self.open_inode_or_path(inode, XattrJob::Remove), carried)
    }
}

/// The host is handed the name under which it keeps an attribute of the guest, never the guest's own
/// name, and the value as the guest gave it.
pub proof fn law_host_is_handed_the_hidden_name(
    job: XattrJob,
    target: XattrTarget,
    name: Seq<u8>,
    value: Seq<u8>,
)
    ensures
        !(job is List) ==> call_bytes(job.call(target), attribute(name, value)).0 == host_name(name),
        job is Store ==> call_bytes(job.call(target), attribute(name, value)).1 == value,
{
}

/// Where attributes are not supported every request on them is refused, and the host is not called.
pub proof fn law_attributes_can_be_switched_off(fs: FsView, inode: Inode, job: XattrJob)
    requires
        !fs.cfg.xattr,
    ensures
        xattr_start(fs, inode, job) matches Step::Done(Err(e)) && e == FsError::Os(ENOSYS),
{
}

/// A list is given whole or not at all: what is given fits the size that was asked for, and with no
/// size the length that is told is the one that fits.
pub proof fn law_list_fits_the_size(size: u32, host_list: Seq<u8>)
    requires
        shown_all(fields(host_list, 0)).len() <= u32::MAX,
    ensures
        listing(size, host_list) matches Ok(XattrAnswer::Bytes(names)) ==> names.len() <= size,
        listing(0, host_list) matches Ok(XattrAnswer::Count(n)) && (n > 0 ==> (listing(
            n,
            host_list,
        ) matches Ok(XattrAnswer::Bytes(names)) && names.len() == n)),
{
}

/// Work on attributes keeps account of files: one that was opened for it is to be closed once it is
/// done.
pub proof fn law_xattr_accounts_for_files(op: Xattr, fs: FsView, reply: Reply, f: RawFd)
    requires
        op.wf(),
        op.pending().answered_by(reply),
    ensures
        ({
            let (after, step) = op.next(fs, reply);
            after.holds(f) || (step matches Step::Call(_, op) && op.holds(f)) <==> fs.holds(f)
                || op.holds(f) || reply == Reply::Fd(f)
        }),
{
    match op {
        Xattr::Open { .. } => {},
        Xattr::Act { target, .. } => {
            lemma_release_holds(fs, target.opened(), f);
        },
        Xattr::ActList { target, .. } => {
            lemma_release_holds(fs, target.opened(), f);
        },
    }
}

} // verus!
