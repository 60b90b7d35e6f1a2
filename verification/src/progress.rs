//! Every request comes to an end: each step leaves fewer calls to be made than there were.

use crate::attr::{CheckAccess, GetAttr, PrepareCreate};
use crate::create::{Create, Created};
use crate::fs::FsView;
use crate::io::Write;
use crate::lookup::Lookup;
use crate::model::Handle;
use crate::mapping::{RemoveMapping, SetupMapping};
use crate::metadata::{HasOverride, ReadOverride, StatFile, WriteOverride};
use crate::open::Open;
use crate::ops::Link;
use crate::readdir::{lemma_at, ReadDir};
use crate::scoped::Scoped;
use crate::session::{Init, NewFs, NewView};
use crate::setattr::SetAttr;
use crate::step::{Reply, Step};
use crate::xattr::Xattr;
use vstd::prelude::*;

verus! {

impl ReadOverride {
    /// How many calls are left at most.
    pub open spec fn calls_left(self) -> nat {
        match self {
            ReadOverride::Kind { .. } => 3,
            ReadOverride::ByFd { .. } => 2,
            ReadOverride::ByPath { .. } => 1,
        }
    }
}

impl HasOverride {
    pub open spec fn calls_left(self) -> nat {
        match self {
            HasOverride::Kind { .. } => 3,
            HasOverride::ByFd { .. } => 2,
            HasOverride::ByPath { .. } => 1,
        }
    }
}

impl WriteOverride {
    pub open spec fn calls_left(self) -> nat {
        match self {
            WriteOverride::Kind { .. } => 6,
            WriteOverride::Before { read, .. } => 2 + read.calls_left(),
            WriteOverride::ByFd { .. } => 2,
            WriteOverride::ByPath { .. } => 1,
        }
    }
}

impl StatFile {
    pub open spec fn calls_left(self) -> nat {
        match self {
            StatFile::Host { .. } => 4,
            StatFile::Override { read, .. } => read.calls_left(),
        }
    }
}

impl Lookup {
    pub open spec fn calls_left(self) -> nat {
        match self {
            Lookup::Open { .. } => 5,
            Lookup::Attributes { .. } => 4,
            Lookup::Override { read, .. } => read.calls_left(),
        }
    }
}

impl Open {
    pub open spec fn calls_left(self) -> nat {
        match self {
            Open::DropPriv { .. } => 2,
            Open::File { .. } => 1,
        }
    }
}

impl Create {
    pub open spec fn calls_left(self) -> nat {
        match self {
            Create::Prepare { prepare, .. } => 19 + prepare.stat.calls_left(),
            Create::DropPriv { .. } => 19,
            Create::Make { .. } => 18,
            Create::OpenLink { .. } => 17,
            Create::OwnLink { .. } => 16,
            Create::UndoLink { .. } => 1,
            Create::Find { lookup, .. } => 10 + lookup.calls_left(),
            Create::Record { write, .. } => 4 + write.calls_left(),
            Create::Refresh { stat, .. } => stat.calls_left(),
        }
    }
}

impl SetAttr {
    pub open spec fn calls_left(self) -> nat {
        match self {
            SetAttr::FindMode { find, .. } => 24 + find.calls_left(),
            SetAttr::Chmod { .. } => 24,
            SetAttr::RecordMode { write, .. } => 17 + write.calls_left(),
            SetAttr::ReadMode { stat, .. } => 13 + stat.calls_left(),
            SetAttr::RecordOwner { write, .. } => 7 + write.calls_left(),
            SetAttr::OpenToTruncate { .. } => 7,
            SetAttr::Truncate { .. } => 6,
            SetAttr::Times { .. } => 5,
            SetAttr::Read { get } => get.stat.calls_left(),
        }
    }
}

impl Write {
    pub open spec fn calls_left(self) -> nat {
        match self {
            Write::DropPriv { .. } => 15,
            Write::Store { .. } => 14,
            Write::FindMode { find, .. } => 10 + find.calls_left(),
            Write::ReadMode { stat, .. } => 6 + stat.calls_left(),
            Write::RecordMode { write, .. } => write.calls_left(),
        }
    }
}

impl Scoped<Open, (Option<Handle>, u32)> {
    pub open spec fn calls_left(self) -> nat {
        match self {
            Scoped::Running { op, .. } => 1 + op.calls_left(),
            Scoped::Restoring { .. } => 1,
        }
    }
}

impl Scoped<Write, usize> {
    pub open spec fn calls_left(self) -> nat {
        match self {
            Scoped::Running { op, .. } => 1 + op.calls_left(),
            Scoped::Restoring { .. } => 1,
        }
    }
}

impl Scoped<Create, Created> {
    pub open spec fn calls_left(self) -> nat {
        match self {
            Scoped::Running { op, .. } => 1 + op.calls_left(),
            Scoped::Restoring { .. } => 1,
        }
    }
}

impl Xattr {
    pub open spec fn calls_left(self) -> nat {
        match self {
            Xattr::Open { .. } => 3,
            Xattr::Act { .. } => 2,
            Xattr::ActList { .. } => 1,
        }
    }
}

impl SetupMapping {
    pub open spec fn calls_left(self) -> nat {
        match self {
            SetupMapping::MapInit { .. } => 2,
            SetupMapping::CopyInit { .. } => 1,
            SetupMapping::Open { .. } => 2,
            SetupMapping::MapFile { .. } => 1,
        }
    }
}

impl RemoveMapping {
    pub open spec fn calls_left(self) -> int {
        self.requests@.len() - self.at
    }
}

impl Link {
    pub open spec fn calls_left(self) -> nat {
        match self {
            Link::Make { .. } => 6,
            Link::Find { lookup } => lookup.calls_left(),
        }
    }
}

impl Init {
    pub open spec fn calls_left(self) -> nat {
        match self {
            Init::Open { .. } => 3,
            Init::Attributes { .. } => 2,
            Init::ClearMask { .. } => 1,
        }
    }
}

impl NewFs {
    pub open spec fn calls_left(self) -> nat {
        match self {
            NewFs::OpenProc { .. } => 6,
            NewFs::MaySetuid { .. } => 5,
            NewFs::Uid { .. } => 4,
            NewFs::MaySetgid { .. } => 3,
            NewFs::Gid { .. } => 2,
            NewFs::MayFowner { .. } => 1,
        }
    }
}

impl ReadDir {
    /// How many calls are left at most, once the directory was read: six for each entry.
    pub open spec fn calls_left(self) -> int {
        match self {
            ReadDir::Read { .. } => 0,
            ReadDir::Find { list, record, lookup, .. } => 6 * (list@.len() - record.end) + 1
                + lookup.calls_left(),
            ReadDir::Add { list, record, .. } => 6 * (list@.len() - record.end) + 1,
        }
    }
}

proof fn lemma_write_override_ends(op: WriteOverride, reply: Reply)
    requires
        op.pending().answered_by(reply),
    ensures
        op.next(reply) matches Step::Call(_, then) ==> then.calls_left() < op.calls_left(),
{
}

proof fn lemma_stat_ends(op: StatFile, reply: Reply)
    requires
        op.pending().answered_by(reply),
    ensures
        op.next(reply) matches Step::Call(_, then) ==> then.calls_left() < op.calls_left(),
{
}

proof fn lemma_prepare_ends(op: PrepareCreate, fs: FsView, reply: Reply)
    requires
        op.pending().answered_by(reply),
    ensures
        op.next(fs, reply) matches Step::Call(_, then) ==> then.stat.calls_left()
            < op.stat.calls_left(),
{
    lemma_stat_ends(op.stat, reply);
}

/// Work on an override ends.
pub proof fn law_override_work_ends(
    read: ReadOverride,
    find: HasOverride,
    write: WriteOverride,
    stat: StatFile,
    reply: Reply,
)
    ensures
        read.pending().answered_by(reply) ==> (read.next(reply) matches Step::Call(_, then)
            ==> then.calls_left() < read.calls_left()),
        find.pending().answered_by(reply) ==> (find.next(reply) matches Step::Call(_, then)
            ==> then.calls_left() < find.calls_left()),
        write.pending().answered_by(reply) ==> (write.next(reply) matches Step::Call(_, then)
            ==> then.calls_left() < write.calls_left()),
        stat.pending().answered_by(reply) ==> (stat.next(reply) matches Step::Call(_, then)
            ==> then.calls_left() < stat.calls_left()),
{
}

/// Reading attributes and judging by them ends.
pub proof fn law_attribute_work_ends(
    get: GetAttr,
    check: CheckAccess,
    prepare: PrepareCreate,
    fs: FsView,
    reply: Reply,
)
    ensures
        get.pending().answered_by(reply) ==> (get.next(reply) matches Step::Call(_, then)
            ==> then.stat.calls_left() < get.stat.calls_left()),
        check.pending().answered_by(reply) ==> (check.next(reply) matches Step::Call(_, then)
            ==> then.stat.calls_left() < check.stat.calls_left()),
        prepare.pending().answered_by(reply) ==> (prepare.next(fs, reply) matches Step::Call(
            _,
            then,
        ) ==> then.stat.calls_left() < prepare.stat.calls_left()),
{
}

/// A lookup ends.
pub proof fn law_lookup_ends(op: Lookup, fs: FsView, reply: Reply)
    requires
        op.pending().answered_by(reply),
    ensures
        op.next(fs, reply).1 matches Step::Call(_, then) ==> then.calls_left() < op.calls_left(),
{
}

/// An open ends.
pub proof fn law_open_ends(op: Open, fs: FsView, reply: Reply)
    requires
        op.pending().answered_by(reply),
    ensures
        op.next(fs, reply).1 matches Step::Call(_, then) ==> then.calls_left() < op.calls_left(),
{
}

/// A request that makes a file ends.
pub proof fn law_create_ends(op: Create, fs: FsView, reply: Reply)
    requires
        op.pending().answered_by(reply),
    ensures
        op.next(fs, reply).1 matches Step::Call(_, then) ==> then.calls_left() < op.calls_left(),
{
    match op {
        Create::Prepare { prepare, .. } => {
            lemma_prepare_ends(prepare, fs, reply);
        },
        Create::Find { lookup, .. } => {
            law_lookup_ends(lookup, fs, reply);
        },
        Create::Record { write, .. } => {
            lemma_write_override_ends(write, reply);
        },
        Create::Refresh { stat, .. } => {
            lemma_stat_ends(stat, reply);
        },
        _ => {},
    }
}

/// The requests that may drop a capability end, raising it again included.
pub proof fn law_scoped_requests_end(
    open: Scoped<Open, (Option<Handle>, u32)>,
    write: Scoped<Write, usize>,
    create: Scoped<Create, Created>,
    fs: FsView,
    reply: Reply,
)
    ensures
        open.pending().answered_by(reply) ==> (open.next(fs, reply).1 matches Step::Call(_, then)
            ==> then.calls_left() < open.calls_left()),
        write.pending().answered_by(reply) ==> (write.next(fs, reply) matches Step::Call(_, then)
            ==> then.calls_left() < write.calls_left()),
        create.pending().answered_by(reply) ==> (create.next(fs, reply).1 matches Step::Call(
            _,
            then,
        ) ==> then.calls_left() < create.calls_left()),
{
    if let Scoped::Running { op, .. } = open {
        if op.pending().answered_by(reply) {
            law_open_ends(op, fs, reply);
        }
    }
    if let Scoped::Running { op, .. } = write {
        if op.pending().answered_by(reply) {
            law_write_ends(op, fs, reply);
        }
    }
    if let Scoped::Running { op, .. } = create {
        if op.pending().answered_by(reply) {
            law_create_ends(op, fs, reply);
        }
    }
}

/// A change of attributes ends.
pub proof fn law_setattr_ends(op: SetAttr, fs: FsView, reply: Reply)
    requires
        op.pending().answered_by(reply),
    ensures
        op.next(fs, reply).1 matches Step::Call(_, then) ==> then.calls_left() < op.calls_left(),
{
}

/// A write ends.
pub proof fn law_write_ends(op: Write, fs: FsView, reply: Reply)
    requires
        op.pending().answered_by(reply),
    ensures
        op.next(fs, reply) matches Step::Call(_, then) ==> then.calls_left() < op.calls_left(),
{
}

/// Work on attributes of the guest ends.
pub proof fn law_xattr_ends(op: Xattr, fs: FsView, reply: Reply)
    requires
        op.wf(),
        op.pending().answered_by(reply),
    ensures
        op.next(fs, reply).1 matches Step::Call(_, then) ==> then.calls_left() < op.calls_left(),
{
}

/// Mapping files and taking mappings out ends.
pub proof fn law_mapping_ends(op: SetupMapping, remove: RemoveMapping, fs: FsView, reply: Reply)
    requires
        remove.requests@.len() <= usize::MAX,
    ensures
        op.pending().answered_by(reply) ==> (op.next(fs, reply).1 matches Step::Call(_, then)
            ==> then.calls_left() < op.calls_left()),
        remove.at < remove.requests@.len() ==> (remove.next(reply) matches Step::Call(_, then)
            ==> 0 < then.calls_left() < remove.calls_left()),
{
}

/// A request for one more name ends.
pub proof fn law_link_ends(op: Link, fs: FsView, reply: Reply)
    requires
        op.pending().answered_by(reply),
    ensures
        op.next(fs, reply).1 matches Step::Call(_, then) ==> then.calls_left() < op.calls_left(),
{
}

/// Setting up and mounting ends.
pub proof fn law_session_start_ends(
    new: NewFs,
    init: Init,
    fs: FsView,
    reply: Reply,
)
    ensures
        new.pending().answered_by(reply) ==> (new.next(reply) matches NewView::Call(_, then)
            ==> then.calls_left() < new.calls_left()),
        init.pending().answered_by(reply) ==> (init.next(fs, reply).1 matches Step::Call(_, then)
            ==> then.calls_left() < init.calls_left()),
{
}

/// A listing ends, whatever the directory holds: once it was read, each step brings it nearer to the
/// end of the list.
pub proof fn law_readdir_ends(op: ReadDir, fs: FsView, reply: Reply)
    requires
        !(op is Read),
        op.wf(),
        op.pending().answered_by(reply),
    ensures
        op.next(fs, reply).1 matches Step::Call(_, then) ==> !(then is Read) && 0
            < then.calls_left() < op.calls_left(),
{
    match op {
        ReadDir::Add { plus, order, list, record, .. } => {
            lemma_at(fs, plus, order, list, record.end as int);
        },
        ReadDir::Find { lookup, .. } => {
            law_lookup_ends(lookup, fs, reply);
        },
        _ => {},
    }
}

} // verus!
