//! Reading attributes, and deciding by them who may do what.

use crate::abi::{EACCES, S_ISGID};
use crate::access::{
    check_stat_access, create_gid, grants, guest_create_gid, inherits, CREATE_ACCESS,
};
use crate::fs::{FsView, PassthroughFs};
use crate::metadata::{set_override_xattr, stat, StatFile, WriteOverride};
use crate::model::{Context, FsError, Inode, Stat, Timeout};
use crate::step::{Reply, Step, Syscall};
use vstd::pervasive::unreached;
use vstd::prelude::*;

verus! {

/// Reads the attributes of an inode, with the time for which the client may keep them.
#[derive(Clone, Copy, Debug, PartialEq, Eq)]
pub struct GetAttr {
    pub timeout: Timeout,
    pub stat: StatFile,
}

impl GetAttr {
    pub open spec fn pending(self) -> Syscall {
        self.stat.pending()
    }

    pub open spec fn wait(self) -> Step<GetAttr, (Stat, Timeout)> {
        Step::Call(self.pending(), self)
    }

    pub open spec fn next(self, reply: Reply) -> Step<GetAttr, (Stat, Timeout)> {
        match self.stat.next(reply) {
            Step::Call(_, stat) => GetAttr { stat, ..self }.wait(),
            Step::Done(Ok(st)) => Step::Done(Ok((st, self.timeout))),
            Step::Done(Err(e)) => Step::Done(Err(e)),
        }
    }

    pub fn resume(self, reply: Reply) -> (step: Step<GetAttr, (Stat, Timeout)>)
        requires
            self.pending().answered_by(reply),
        ensures
            step == self.next(reply),
    {
        match self.stat.resume(reply) {
            Step::Call(call, stat) => Step::Call(call, GetAttr { stat, ..self }),
            Step::Done(Ok(st)) => Step::Done(Ok((st, self.timeout))),
            Step::Done(Err(e)) => Step::Done(Err(e)),
        }
    }
}

/// The attributes of an inode are those that the guest sees of the file in its place.
pub open spec fn stat_start(fs: FsView, inode: Inode) -> Result<StatFile, FsError> {
    match fs.find_inode(inode) {
        Ok(data) => Ok(
            StatFile::Host { fd: data.fd, host_uid: fs.my_uid, host_gid: fs.my_gid },
        ),
        Err(e) => Err(e),
    }
}

pub open spec fn getattr_start(fs: FsView, inode: Inode) -> Step<GetAttr, (Stat, Timeout)> {
    match stat_start(fs, inode) {
        Ok(stat) => GetAttr { timeout: fs.cfg.attr_timeout, stat }.wait(),
        Err(e) => Step::Done(Err(e)),
    }
}

/// Checks whether a caller may do something with an inode.
#[derive(Debug)]
pub struct CheckAccess {
    pub ctx: Context,
    pub mask: u32,
    pub gids: Vec<u32>,
    pub stat: StatFile,
}

impl CheckAccess {
    pub open spec fn pending(self) -> Syscall {
        self.stat.pending()
    }

    pub open spec fn wait(self) -> Step<CheckAccess, ()> {
        Step::Call(self.pending(), self)
    }

    pub open spec fn next(self, reply: Reply) -> Step<CheckAccess, ()> {
        match self.stat.next(reply) {
            Step::Call(_, stat) => CheckAccess { stat, ..self }.wait(),
            Step::Done(Ok(st)) => if grants(self.ctx, st, self.mask, self.gids@) {
                Step::Done(Ok(()))
            } else {
                Step::Done(Err(FsError::Os(EACCES)))
            },
            Step::Done(Err(e)) => Step::Done(Err(e)),
        }
    }

    pub fn resume(self, reply: Reply) -> (step: Step<CheckAccess, ()>)
        requires
            self.pending().answered_by(reply),
        ensures
            step == self.next(reply),
    {
        match self.stat.resume(reply) {
            Step::Call(call, stat) => Step::Call(call, CheckAccess { stat, ..self }),
            Step::Done(Ok(st)) => Step::Done(
                check_stat_access(&self.ctx, &st, self.mask, self.gids.as_slice()),
            ),
            Step::Done(Err(e)) => Step::Done(Err(e)),
        }
    }
}

/// How a check starts.
pub open spec fn access_start(
    fs: FsView,
    ctx: Context,
    inode: Inode,
    mask: u32,
    gids: Vec<u32>,
) -> Step<CheckAccess, ()> {
    match stat_start(fs, inode) {
        Ok(stat) => CheckAccess { ctx, mask, gids, stat }.wait(),
        Err(e) => Step::Done(Err(e)),
    }
}

/// The group that a new file gets and whether it comes from the directory, or that the caller may
/// not create files there. The caller's supplementary groups are known only where the client sends
/// them; elsewhere the check is left to the guest.
pub open spec fn creation(fs: FsView, ctx: Context, gids: Seq<u32>, parent: Stat) -> Result<
    (u32, bool),
    FsError,
> {
    if fs.supplementary_group_extension && !grants(ctx, parent, CREATE_ACCESS, gids) {
        Err(FsError::Os(EACCES))
    } else {
        Ok((create_gid(ctx, parent), inherits(parent)))
    }
}

/// Prepares for a new file in a directory.
#[derive(Debug)]
pub struct PrepareCreate {
    pub ctx: Context,
    pub gids: Vec<u32>,
    pub stat: StatFile,
}

impl PrepareCreate {
    pub open spec fn pending(self) -> Syscall {
        self.stat.pending()
    }

    pub open spec fn wait(self) -> Step<PrepareCreate, (u32, bool)> {
        Step::Call(self.pending(), self)
    }

    pub open spec fn next(self, fs: FsView, reply: Reply) -> Step<PrepareCreate, (u32, bool)> {
        match self.stat.next(reply) {
            Step::Call(_, stat) => PrepareCreate { stat, ..self }.wait(),
            Step::Done(Ok(st)) => Step::Done(creation(fs, self.ctx, self.gids@, st)),
            Step::Done(Err(e)) => Step::Done(Err(e)),
        }
    }

    pub fn resume(self, fs: &PassthroughFs, reply: Reply) -> (step: Step<
        PrepareCreate,
        (u32, bool),
    >)
        requires
            self.pending().answered_by(reply),
        ensures
            step == self.next(fs@, reply),
    {
        match self.stat.resume(reply) {
            Step::Call(call, stat) => Step::Call(call, PrepareCreate { stat, ..self }),
            Step::Done(Ok(st)) => Step::Done(
                fs.may_create(&self.ctx, self.gids.as_slice(), &st),
            ),
            Step::Done(Err(e)) => Step::Done(Err(e)),
        }
    }
}

pub open spec fn prepare_start(fs: FsView, ctx: Context, parent: Inode, gids: Vec<u32>) -> Step<
    PrepareCreate,
    (u32, bool),
> {
    match stat_start(fs, parent) {
        Ok(stat) => PrepareCreate { ctx, gids, stat }.wait(),
        Err(e) => Step::Done(Err(e)),
    }
}

/// How the owner and mode of a new file are recorded.
pub open spec fn metadata_start(
    fs: FsView,
    inode: Inode,
    uid: u32,
    gid: u32,
    mode: Option<u32>,
) -> Step<WriteOverride, ()> {
    match fs.find_inode(inode) {
        Ok(data) => WriteOverride::Kind { fd: data.fd, owner: Some((uid, gid)), mode }.wait(),
        Err(e) => Step::Done(Err(e)),
    }
}

impl PassthroughFs {
    /// Starts to read the attributes of an inode.
    pub fn do_getattr(&self, inode: Inode) -> (step: Step<GetAttr, (Stat, Timeout)>)
        ensures
            step == getattr_start(self@, inode),
    {
        match self.inode_data(inode) {
            Ok(data) => match stat(data.fd, self.my_uid(), self.my_gid()) {
                Step::Call(call, stat) => Step::Call(
                    call,
                    GetAttr { timeout: self.cfg().attr_timeout, stat },
                ),
                _ => unreached(),
            },
            Err(e) => Step::Done(Err(e)),
        }
    }

    /// Reads the attributes of an inode.
    pub fn getattr(&self, inode: Inode) -> (step: Step<GetAttr, (Stat, Timeout)>)
        ensures
            step == getattr_start(self@, inode),
    {
        self.do_getattr(inode)
    }

    /// Starts to check whether a caller in the groups `supplementary_gids` may do what `mask` asks.
    pub fn check_access(
        &self,
        ctx: Context,
        inode: Inode,
        mask: u32,
        supplementary_gids: Vec<u32>,
    ) -> (step: Step<CheckAccess, ()>)
        ensures
            step == access_start(self@, ctx, inode, mask, supplementary_gids),
    {
        match self.inode_data(inode) {
            Ok(data) => match stat(data.fd, self.my_uid(), self.my_gid()) {
                Step::Call(call, stat) => Step::Call(
                    call,
                    CheckAccess { ctx, mask, gids: supplementary_gids, stat },
                ),
                _ => unreached(),
            },
            Err(e) => Step::Done(Err(e)),
        }
    }

    /// Checks whether a caller may do what `mask` asks. The caller's supplementary groups are not
    /// known.
    pub fn access(&self, ctx: Context, inode: Inode, mask: u32) -> (step: Step<CheckAccess, ()>)
        ensures
            match step {
                Step::Call(call, op) => {
                    &&& call == op.pending()
                    &&& stat_start(self@, inode) == Ok::<StatFile, FsError>(op.stat)
                    &&& op.ctx == ctx
                    &&& op.mask == mask
                    &&& op.gids@ == Seq::<u32>::empty()
                },
                Step::Done(Ok(_)) => false,
                Step::Done(Err(e)) => stat_start(self@, inode) == Err::<StatFile, FsError>(e),
            },
    {
        self.check_access(ctx, inode, mask, Vec::new())
    }

    fn may_create(&self, ctx: &Context, gids: &[u32], parent_attr: &Stat) -> (res: Result<
        (u32, bool),
        FsError,
    >)
        ensures
            res == creation(self@, *ctx, gids@, *parent_attr),
    {
        if self.supplementary_group_extension() {
            if let Err(e) = check_stat_access(ctx, parent_attr, CREATE_ACCESS, gids) {
                return Err(e);
            }
        }
        let inherits_group = parent_attr.st_mode & S_ISGID != 0;
        let gid: u32 = guest_create_gid(ctx, parent_attr);
        Ok((gid, inherits_group))
    }

    /// Starts to prepare for a new file under `parent`.
    pub fn prepare_create(&self, ctx: Context, parent: Inode, gids: Vec<u32>) -> (step: Step<
        PrepareCreate,
        (u32, bool),
    >)
        ensures
            step == prepare_start(self@, ctx, parent, gids),
    {
        match self.inode_data(parent) {
            Ok(data) => match stat(data.fd, self.my_uid(), self.my_gid()) {
                Step::Call(call, stat) => Step::Call(call, PrepareCreate { ctx, gids, stat }),
                _ => unreached(),
            },
            Err(e) => Step::Done(Err(e)),
        }
    }

    /// Starts to record the owner and mode of a new file.
    pub fn set_guest_metadata(&self, inode: Inode, uid: u32, gid: u32, mode: Option<u32>) -> (step:
        Step<WriteOverride, ()>)
        ensures
            step == metadata_start(self@, inode, uid, gid, mode),
    {
        match self.inode_data(inode) {
            Ok(data) => set_override_xattr(data.fd, Some((uid, gid)), mode),
            Err(e) => Step::Done(Err(e)),
        }
    }
}

} // verus!
