//! What every step of every request keeps, whatever the host answers.

use crate::abi::EBADF;
use crate::attr::getattr_start;
use crate::create::{create_start, Create, Job};
use crate::fs::{FsView, HandleData, InodeData, INIT_INODE};
use crate::fs_laws::{
    law_handles_keep_files_apart, law_lookup_keeps_files_apart, law_new_handles_are_fresh,
    law_new_inodes_are_fresh, law_numbers_stay_fresh, law_root_keeps_files_apart,
    lemma_release_keeps_files_apart,
};
use crate::io::{read_start, Write};
use crate::lookup::{alt_of, law_lookup_step_accounts_for_files, lookup_start, Lookup};
use crate::mapping::SetupMapping;
use crate::model::{FsError, Handle, Inode, RawFd, Stat};
use crate::multikey::key_of_alt;
use crate::open::{open_start, opening, released, Open, Opening};
use crate::ops::{link_start, simple, Link};
use crate::readdir::{lemma_at, readdir_start, ReadDir};
use crate::session::Init;
use crate::setattr::{change_of, Change, SetAttr};
use crate::step::{Reply, Step, Syscall};
use crate::xattr::Xattr;
use vstd::prelude::*;

verus! {

/// Whether there are numbers left for a new inode and a new handle.
pub open spec fn has_numbers_left(fs: FsView) -> bool {
    fs.next_inode < u64::MAX && fs.next_handle < u64::MAX
}

/// A lookup gives out only fresh numbers.
pub proof fn law_lookup_keeps_numbers_fresh(op: Lookup, fs: FsView, reply: Reply)
    requires
        fs.wf(),
        fs.numbers_are_fresh(),
        has_numbers_left(fs),
        op.pending().answered_by(reply),
    ensures
        op.next(fs, reply).0.numbers_are_fresh(),
{
    if let Lookup::Override { fd, stx, .. } = op {
        if key_of_alt(fs.inodes, alt_of(stx)) is None {
            law_new_inodes_are_fresh(fs, alt_of(stx), fd);
        }
        law_numbers_stay_fresh(fs, alt_of(stx), fd, 0, 0, 0);
    }
}

/// An open gives out only fresh numbers.
pub proof fn law_open_keeps_numbers_fresh(op: Open, fs: FsView, reply: Reply)
    requires
        fs.wf(),
        fs.numbers_are_fresh(),
        has_numbers_left(fs),
        op.pending().answered_by(reply),
    ensures
        op.next(fs, reply).0.numbers_are_fresh(),
{
    if let Open::File { inode, .. } = op {
        if let Reply::Fd(fd) = reply {
            law_new_handles_are_fresh(fs, inode, fd);
        }
    }
}

/// A request that makes a file gives out only fresh numbers.
pub proof fn law_create_keeps_numbers_fresh(op: Create, fs: FsView, reply: Reply)
    requires
        fs.wf(),
        fs.numbers_are_fresh(),
        has_numbers_left(fs),
        op.pending().answered_by(reply),
    ensures
        op.next(fs, reply).0.numbers_are_fresh(),
{
    match op {
        Create::Find { lookup, .. } => {
            law_lookup_keeps_numbers_fresh(lookup, fs, reply);
        },
        Create::Refresh { entry, file: Some(fd), .. } => {
            law_new_handles_are_fresh(fs, entry.inode, fd);
        },
        _ => {},
    }
}

/// A listing gives out only fresh numbers.
pub proof fn law_readdir_keeps_numbers_fresh(op: ReadDir, fs: FsView, reply: Reply)
    requires
        fs.wf(),
        fs.numbers_are_fresh(),
        has_numbers_left(fs),
        op.pending().answered_by(reply),
    ensures
        op.next(fs, reply).0.numbers_are_fresh(),
{
    if let ReadDir::Find { lookup, .. } = op {
        law_lookup_keeps_numbers_fresh(lookup, fs, reply);
    }
}

/// A request for one more name gives out only fresh numbers.
pub proof fn law_link_keeps_numbers_fresh(op: Link, fs: FsView, reply: Reply)
    requires
        fs.wf(),
        fs.numbers_are_fresh(),
        has_numbers_left(fs),
        op.pending().answered_by(reply),
    ensures
        op.next(fs, reply).0.numbers_are_fresh(),
{
    if let Link::Find { lookup } = op {
        law_lookup_keeps_numbers_fresh(lookup, fs, reply);
    }
}

/// Mounting takes no number but that of the root directory.
pub proof fn law_init_keeps_numbers_fresh(op: Init, fs: FsView, reply: Reply)
    requires
        fs.wf(),
        fs.numbers_are_fresh(),
        op.pending().answered_by(reply),
    ensures
        op.next(fs, reply).0.numbers_are_fresh(),
{
    if let Init::ClearMask { fd, stx, .. } = op {
        law_numbers_stay_fresh(fs, alt_of(stx), fd, 0, 0, 0);
    }
}

/// Other requests give out no numbers.
pub proof fn law_other_requests_give_out_no_numbers(
    set: SetAttr,
    map: SetupMapping,
    xattr: Xattr,
    fs: FsView,
    reply: Reply,
)
    ensures
        set.pending().answered_by(reply) ==> ({
            let after = set.next(fs, reply).0;
            after.inodes == fs.inodes && after.handles == fs.handles
        }),
        map.pending().answered_by(reply) ==> ({
            let after = map.next(fs, reply).0;
            after.inodes == fs.inodes && after.handles == fs.handles
        }),
        xattr.wf() && xattr.pending().answered_by(reply) ==> ({
            let after = xattr.next(fs, reply).0;
            after.inodes == fs.inodes && after.handles == fs.handles
        }),
{
}

/// A lookup keeps files apart, its own among them, if the host opens only files that are not open
/// yet.
pub proof fn law_lookup_step_keeps_files_apart(op: Lookup, fs: FsView, reply: Reply)
    requires
        fs.wf(),
        fs.files_are_apart(),
        op.pending().answered_by(reply),
        forall|f: RawFd| #[trigger] op.holds(f) ==> !fs.holds(f),
        reply matches Reply::Fd(f) ==> !fs.holds(f) && !op.holds(f),
    ensures
        ({
            let (after, step) = op.next(fs, reply);
            &&& after.files_are_apart()
            &&& step matches Step::Call(_, op) ==> forall|f: RawFd| #[trigger]
                op.holds(f) ==> !after.holds(f)
        }),
{
    match op {
        Lookup::Open { .. } => {},
        Lookup::Attributes { fd, .. } => {
            assert(op.holds(fd));
            lemma_release_keeps_files_apart(fs, Some(fd));
        },
        Lookup::Override { fd, stx, .. } => {
            assert(op.holds(fd));
            lemma_release_keeps_files_apart(fs, Some(fd));
            law_lookup_keeps_files_apart(fs, alt_of(stx), fd);
        },
    }
}

/// An open keeps files apart, if the host opens only files that are not open yet.
pub proof fn law_open_step_keeps_files_apart(op: Open, fs: FsView, reply: Reply)
    requires
        fs.files_are_apart(),
        op.pending().answered_by(reply),
        reply matches Reply::Fd(f) ==> !fs.holds(f),
    ensures
        op.next(fs, reply).0.files_are_apart(),
{
    if let Open::File { inode, .. } = op {
        if let Reply::Fd(fd) = reply {
            law_handles_keep_files_apart(fs, inode, fd, 0);
        }
    }
}

/// A change of attributes keeps files apart.
pub proof fn law_setattr_step_keeps_files_apart(op: SetAttr, fs: FsView, reply: Reply)
    requires
        fs.wf(),
        fs.files_are_apart(),
        op.pending().answered_by(reply),
        forall|f: RawFd| #[trigger] op.holds(f) ==> !fs.holds(f),
        reply matches Reply::Fd(f) ==> !fs.holds(f) && !op.holds(f),
    ensures
        ({
            let (after, step) = op.next(fs, reply);
            &&& after.files_are_apart()
            &&& step matches Step::Call(_, op) ==> forall|f: RawFd| #[trigger]
                op.holds(f) ==> !after.holds(f)
        }),
{
    if let SetAttr::Truncate { fd, opened: true, .. } = op {
        assert(op.holds(fd));
        lemma_release_keeps_files_apart(fs, Some(fd));
    }
}

/// A mapping keeps files apart.
pub proof fn law_mapping_step_keeps_files_apart(op: SetupMapping, fs: FsView, reply: Reply)
    requires
        fs.wf(),
        fs.files_are_apart(),
        op.pending().answered_by(reply),
        forall|f: RawFd| #[trigger] op.holds(f) ==> !fs.holds(f),
        reply matches Reply::Fd(f) ==> !fs.holds(f) && !op.holds(f),
    ensures
        ({
            let (after, step) = op.next(fs, reply);
            &&& after.files_are_apart()
            &&& step matches Step::Call(_, op) ==> forall|f: RawFd| #[trigger]
                op.holds(f) ==> !after.holds(f)
        }),
{
    if let SetupMapping::MapFile { fd, .. } = op {
        assert(op.holds(fd));
        lemma_release_keeps_files_apart(fs, Some(fd));
    }
}

/// Work on attributes keeps files apart.
pub proof fn law_xattr_step_keeps_files_apart(op: Xattr, fs: FsView, reply: Reply)
    requires
        fs.wf(),
        fs.files_are_apart(),
        op.wf(),
        op.pending().answered_by(reply),
        forall|f: RawFd| #[trigger] op.holds(f) ==> !fs.holds(f),
        reply matches Reply::Fd(f) ==> !fs.holds(f) && !op.holds(f),
    ensures
        ({
            let (after, step) = op.next(fs, reply);
            &&& after.files_are_apart()
            &&& step matches Step::Call(_, op) ==> forall|f: RawFd| #[trigger]
                op.holds(f) ==> !after.holds(f)
        }),
{
    let target = match op {
        Xattr::Open { .. } => None,
        Xattr::Act { target, .. } => target.opened(),
        Xattr::ActList { target, .. } => target.opened(),
    };
    if let Some(fd) = target {
        assert(op.holds(fd));
    }
    lemma_release_keeps_files_apart(fs, target);
}

/// A listing keeps files apart.
pub proof fn law_readdir_step_keeps_files_apart(op: ReadDir, fs: FsView, reply: Reply)
    requires
        fs.wf(),
        fs.files_are_apart(),
        op.wf(),
        op.pending().answered_by(reply),
        forall|f: RawFd| #[trigger] op.holds(f) ==> !fs.holds(f),
        reply matches Reply::Fd(f) ==> !fs.holds(f) && !op.holds(f),
    ensures
        ({
            let (after, step) = op.next(fs, reply);
            &&& after.files_are_apart()
            &&& step matches Step::Call(_, op) ==> forall|f: RawFd| #[trigger]
                op.holds(f) ==> !after.holds(f)
        }),
{
    match op {
        ReadDir::Read { plus, order, .. } => {
            if let Reply::Bytes(list) = reply {
                lemma_at(fs, plus, order, list, 0);
            }
        },
        ReadDir::Add { plus, order, list, record, .. } => {
            lemma_at(fs, plus, order, list, record.end as int);
        },
        _ => {},
    }
    if let ReadDir::Find { lookup, .. } = op {
        assert forall|f: RawFd| #[trigger] lookup.holds(f) implies !fs.holds(f) by {
            assert(op.holds(f));
        }
        law_lookup_step_keeps_files_apart(lookup, fs, reply);
    }
}

/// A request for one more name keeps files apart.
pub proof fn law_link_step_keeps_files_apart(op: Link, fs: FsView, reply: Reply)
    requires
        fs.wf(),
        fs.files_are_apart(),
        op.pending().answered_by(reply),
        forall|f: RawFd| #[trigger] op.holds(f) ==> !fs.holds(f),
        reply matches Reply::Fd(f) ==> !fs.holds(f) && !op.holds(f),
    ensures
        ({
            let (after, step) = op.next(fs, reply);
            &&& after.files_are_apart()
            &&& step matches Step::Call(_, op) ==> forall|f: RawFd| #[trigger]
                op.holds(f) ==> !after.holds(f)
        }),
{
    if let Link::Find { lookup } = op {
        assert forall|f: RawFd| #[trigger] lookup.holds(f) implies !fs.holds(f) by {
            assert(op.holds(f));
        }
        law_lookup_step_keeps_files_apart(lookup, fs, reply);
    }
}

/// Mounting keeps files apart.
pub proof fn law_init_step_keeps_files_apart(op: Init, fs: FsView, reply: Reply)
    requires
        fs.wf(),
        fs.files_are_apart(),
        op.pending().answered_by(reply),
        forall|f: RawFd| #[trigger] op.holds(f) ==> !fs.holds(f),
        reply matches Reply::Fd(f) ==> !fs.holds(f) && !op.holds(f),
    ensures
        ({
            let (after, step) = op.next(fs, reply);
            &&& after.files_are_apart()
            &&& step matches Step::Call(_, op) ==> forall|f: RawFd| #[trigger]
                op.holds(f) ==> !after.holds(f)
        }),
{
    match op {
        Init::Open { .. } => {},
        Init::Attributes { fd, .. } => {
            assert(op.holds(fd));
            lemma_release_keeps_files_apart(fs, Some(fd));
        },
        Init::ClearMask { fd, stx, .. } => {
            assert(op.holds(fd));
            law_root_keeps_files_apart(fs, alt_of(stx), fd);
        },
    }
}

/// Whether the new file that a request has open is another than the one that its lookup has open.
pub open spec fn has_files_apart(op: Create) -> bool {
    op matches Create::Find { file: Some(file), lookup, .. } ==> !lookup.holds(file)
}

/// A request that makes a file keeps files apart, its own among them.
pub proof fn law_create_step_keeps_files_apart(op: Create, fs: FsView, reply: Reply)
    requires
        fs.wf(),
        fs.files_are_apart(),
        has_files_apart(op),
        op.pending().answered_by(reply),
        forall|f: RawFd| #[trigger] op.holds(f) ==> !fs.holds(f),
        reply matches Reply::Fd(f) ==> !fs.holds(f) && !op.holds(f),
    ensures
        ({
            let (after, step) = op.next(fs, reply);
            &&& after.files_are_apart()
            &&& step matches Step::Call(_, op) ==> has_files_apart(op) && forall|f: RawFd|
                #[trigger]
                op.holds(f) ==> !after.holds(f)
        }),
{
    match op {
        Create::OwnLink { fd, .. } => {
            assert(op.holds(fd));
            lemma_release_keeps_files_apart(fs, Some(fd));
        },
        Create::Make { .. } => {
            if let Reply::Fd(fd) = reply {
                lemma_release_keeps_files_apart(fs, Some(fd));
            }
        },
        Create::Find { file, lookup, .. } => {
            assert forall|f: RawFd| #[trigger] lookup.holds(f) implies !fs.holds(f) by {
                assert(op.holds(f));
            }
            if let Some(file) = file {
                assert(op.holds(file));
                law_lookup_step_accounts_for_files(lookup, fs, reply, file);
            }
            if let Reply::Fd(fd) = reply {
                assert(!op.holds(fd));
            }
            law_lookup_step_keeps_files_apart(lookup, fs, reply);
            lemma_release_keeps_files_apart(lookup.next(fs, reply).0, file);
        },
        Create::Record { file, .. } => {
            if let Some(file) = file {
                assert(op.holds(file));
            }
            lemma_release_keeps_files_apart(fs, file);
        },
        Create::Refresh { entry, file, .. } => {
            if let Some(file) = file {
                assert(op.holds(file));
                law_handles_keep_files_apart(fs, entry.inode, file, 0);
            }
            lemma_release_keeps_files_apart(fs, file);
        },
        _ => {},
    }
}

/// A handle that is not the client's, or not one of the inode that is named, is refused before the
/// host is called, and nothing changes.
pub proof fn law_foreign_handle_is_refused(
    fs: FsView,
    inode: Inode,
    handle: Handle,
    size: u32,
    offset: u64,
    attr: Stat,
    valid: u32,
    plus: Option<Inode>,
    call: spec_fn(RawFd) -> Syscall,
)
    requires
        fs.find_handle(inode, handle) is Err,
    ensures
        fs.find_handle(inode, handle) == Err::<HandleData, FsError>(FsError::Os(EBADF)),
        inode != INIT_INODE ==> (read_start(fs, inode, handle, size, offset) matches Step::Done(
            Err(e),
        ) && e == FsError::Os(EBADF)),
        Write::to_store(fs, inode, handle, size, offset, false) matches Step::Done(Err(e)) && e
            == FsError::Os(EBADF),
        size != 0 ==> (readdir_start(fs, plus, inode, handle, size, offset) matches Step::Done(
            Err(e),
        ) && e == FsError::Os(EBADF)),
        change_of(fs, inode, attr, Some(handle), valid) == Err::<Change, FsError>(
            FsError::Os(EBADF),
        ),
        simple(fs.on_handle(inode, handle, call)) matches Step::Done(Err(e)) && e == FsError::Os(
            EBADF,
        ),
        released(fs, inode, handle).0 == fs,
        released(fs, inode, handle).1 matches Step::Done(Err(e)) && e == FsError::Os(EBADF),
{
}

/// An inode that the client has no reference to is refused before the host is called.
pub proof fn law_unknown_inode_is_refused(
    fs: FsView,
    inode: Inode,
    other: Inode,
    flags: u32,
    attr: Stat,
    handle: Option<Handle>,
    valid: u32,
    job: Job,
    gids: Vec<u32>,
    call: spec_fn(RawFd) -> Syscall,
)
    requires
        fs.find_inode(inode) is Err,
        job.parent == inode,
    ensures
        fs.find_inode(inode) == Err::<InodeData, FsError>(FsError::Os(EBADF)),
        lookup_start(fs, inode) matches Step::Done(Err(e)) && e == FsError::Os(EBADF),
        getattr_start(fs, inode) matches Step::Done(Err(e)) && e == FsError::Os(EBADF),
        open_start(fs, inode, false, flags) matches Step::Done(Err(e)) && e == FsError::Os(EBADF),
        opening(fs, inode, flags as i32) == Err::<Opening, FsError>(FsError::Os(EBADF)),
        change_of(fs, inode, attr, handle, valid) == Err::<Change, FsError>(FsError::Os(EBADF)),
        create_start(fs, job, gids) matches Step::Done(Err(e)) && e == FsError::Os(EBADF),
        link_start(fs, inode, other) matches Step::Done(Err(e)) && e == FsError::Os(EBADF),
        link_start(fs, other, inode) matches Step::Done(Err(e)) && e == FsError::Os(EBADF),
        simple(fs.on_inode(inode, call)) matches Step::Done(Err(e)) && e == FsError::Os(EBADF),
{
}

} // verus!
