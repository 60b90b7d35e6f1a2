//! What finished lookups tell about the files that they found.

use crate::create::Create;
use crate::fs::{FsView, InodeData, INIT_INODE};
use crate::fs_laws::law_new_inodes_are_fresh;
use crate::lookup::{alt_of, Lookup};
use crate::mapping::SetupMapping;
use crate::metadata::ReadOverride;
use crate::model::{Entry, FsError, Handle, Inode, RawFd, Statx};
use crate::multikey::{key_of_alt, InodeAltKey};
use crate::open::Open;
use crate::ops::Link;
use crate::readdir::ReadDir;
use crate::setattr::SetAttr;
use crate::step::{Reply, Step};
use crate::xattr::Xattr;
use vstd::prelude::*;

verus! {

impl Lookup {
    /// Whether each reply is of the kind that the call before it is answered with.
    pub open spec fn answered(self, fs: FsView, replies: Seq<Reply>) -> bool
        decreases replies.len(),
    {
        replies.len() == 0 || (self.pending().answered_by(replies[0]) && match self.next(
            fs,
            replies[0],
        ) {
            (fs, Step::Call(_, then)) => then.answered(fs, replies.skip(1)),
            _ => true,
        })
    }
}

/// Whether a lookup in `parent` that started in the state `before` came, with these replies of the
/// host, to its end in the state `after` and with the result `res`.
pub open spec fn is_finished(
    before: FsView,
    parent: InodeData,
    replies: Seq<Reply>,
    after: FsView,
    res: Result<Entry, FsError>,
) -> bool {
    let start = Lookup::Open { parent, flags: before.machine.open_place() };
    &&& start.answered(before, replies)
    &&& start.run(before, replies) == (after, Step::<Lookup, Entry>::Done(res))
}

/// The key of the file that a lookup found, by what the host said of it: its number, its device and
/// its mount.
pub open spec fn found_key(replies: Seq<Reply>) -> InodeAltKey {
    alt_of(replies[1]->Statx_0)
}

/// Whether `after` is `before` with one more reference to `inode`: a first one where the inode is
/// new, under a number that is above the reserved ones and was not given out before.
pub open spec fn has_one_more_reference(before: FsView, after: FsView, inode: Inode) -> bool {
    &&& after.inodes.contains_key(inode)
    &&& if before.inodes.contains_key(inode) {
        &&& after.inodes[inode].1.refcount == before.inodes[inode].1.refcount + 1
        &&& after.next_inode == before.next_inode
    } else {
        &&& after.inodes[inode].1.refcount == 1
        &&& inode > INIT_INODE
        &&& inode >= before.next_inode
        &&& after.next_inode > inode
    }
    &&& forall|i: Inode|
        i != inode ==> after.inodes.contains_key(i) == #[trigger] before.inodes.contains_key(i) && (
        before.inodes.contains_key(i) ==> after.inodes[i] == before.inodes[i])
}

/// Whether every inode of `a` is still there in `b` and stands for the same file, as is so while no
/// references are given back.
pub open spec fn keeps_inodes(a: FsView, b: FsView) -> bool {
    &&& a.next_inode <= b.next_inode
    &&& forall|i: Inode| #[trigger]
        a.inodes.contains_key(i) ==> b.inodes.contains_key(i) && b.inodes[i].0 == a.inodes[i].0
}

proof fn lemma_override_run(
    before: FsView,
    parent: InodeData,
    fd: RawFd,
    stx: Statx,
    read: ReadOverride,
    replies: Seq<Reply>,
)
    requires
        (Lookup::Override { parent, fd, stx, read }).answered(before, replies),
    ensures
        match (Lookup::Override { parent, fd, stx, read }).run(before, replies) {
            (after, Step::Done(Ok(entry))) => after == before.interned(alt_of(stx), fd)
                && entry.inode == before.inode_for(alt_of(stx)),
            (after, Step::Done(Err(_))) => after == before.releasing(fd),
            (after, Step::Call(..)) => true,
        },
    decreases replies.len(),
{
    if replies.len() > 0 {
        if let Step::Call(_, read) = read.next(replies[0]) {
            lemma_override_run(before, parent, fd, stx, read, replies.skip(1));
        }
    }
}

/// A lookup that succeeds has filed the file that the host told about; one that fails has filed
/// nothing.
proof fn lemma_finished(
    before: FsView,
    parent: InodeData,
    replies: Seq<Reply>,
    after: FsView,
    res: Result<Entry, FsError>,
)
    requires
        is_finished(before, parent, replies, after, res),
    ensures
        match res {
            Ok(entry) => {
                &&& replies.len() > 1
                &&& replies[0] is Fd
                &&& replies[1] is Statx
                &&& after == before.interned(found_key(replies), replies[0]->Fd_0)
                &&& entry.inode == before.inode_for(found_key(replies))
            },
            Err(_) => after.inodes == before.inodes && after.next_inode == before.next_inode
                && after.handles == before.handles,
        },
{
    if let Reply::Fd(fd) = replies[0] {
        let rest = replies.skip(1);
        let second = Lookup::Attributes { parent, fd };
        assert(second.answered(before, rest));
        assert(second.run(before, rest) == (after, Step::<Lookup, Entry>::Done(res)));
        assert(rest.len() > 0);
        assert(rest[0] == replies[1]);
        if let Reply::Statx(stx) = rest[0] {
            let read = ReadOverride::Kind { fd };
            lemma_override_run(before, parent, fd, stx, read, rest.skip(1));
        }
    }
}

proof fn lemma_interned(before: FsView, alt: InodeAltKey, fd: RawFd)
    requires
        before.wf(),
        before.numbers_are_fresh(),
        before.next_inode < u64::MAX,
        key_of_alt(before.inodes, alt) matches Some(inode) ==> before.inodes[inode].1.refcount
            < u64::MAX,
    ensures
        has_one_more_reference(before, before.interned(alt, fd), before.inode_for(alt)),
        before.interned(alt, fd).inodes[before.inode_for(alt)].0 == alt,
        before.interned(alt, fd).wf(),
        before.interned(alt, fd).numbers_are_fresh(),
        keeps_inodes(before, before.interned(alt, fd)),
{
    crate::fs_laws::law_looked_up_file_is_known(before, alt, fd);
    match key_of_alt(before.inodes, alt) {
        Some(inode) => {
            assert(before.inodes.contains_key(inode) && before.inodes[inode].0 == alt);
        },
        None => {
            law_new_inodes_are_fresh(before, alt, fd);
        },
    }
}

/// Two lookups, the second in any state that is reached from the first without references being given
/// back. They give the same inode exactly where the host gives their files the same key. Each that
/// succeeds adds one reference to the inode that it gives, and changes no other; a new inode starts
/// with that one, under a number above the reserved ones that was never given out before. One that
/// fails files nothing.
///
/// Fresh numbers hold of every state that is reached before the numbers run out: a file system starts
/// with them (`law_numbers_start_fresh`), and every step keeps them (`request_laws`,
/// `law_numbers_stay_fresh`). The next number never falls (`law_next_inode_never_falls`).
pub proof fn law_two_lookups(
    before1: FsView,
    parent1: InodeData,
    replies1: Seq<Reply>,
    after1: FsView,
    res1: Result<Entry, FsError>,
    before2: FsView,
    parent2: InodeData,
    replies2: Seq<Reply>,
    after2: FsView,
    res2: Result<Entry, FsError>,
)
    requires
        before1.wf() && before1.numbers_are_fresh() && before1.next_inode < u64::MAX,
        before2.wf() && before2.numbers_are_fresh() && before2.next_inode < u64::MAX,
        is_finished(before1, parent1, replies1, after1, res1),
        is_finished(before2, parent2, replies2, after2, res2),
        keeps_inodes(after1, before2),
        (res1 matches Ok(e) && before1.inodes.contains_key(e.inode))
            ==> before1.inodes[res1->Ok_0.inode].1.refcount < u64::MAX,
        (res2 matches Ok(e) && before2.inodes.contains_key(e.inode))
            ==> before2.inodes[res2->Ok_0.inode].1.refcount < u64::MAX,
    ensures
        res1 is Ok && res2 is Ok ==> (res1->Ok_0.inode == res2->Ok_0.inode <==> found_key(replies1)
            == found_key(replies2)),
        match res1 {
            Ok(entry) => has_one_more_reference(before1, after1, entry.inode),
            Err(_) => after1.inodes == before1.inodes && after1.next_inode == before1.next_inode,
        },
        match res2 {
            Ok(entry) => has_one_more_reference(before2, after2, entry.inode),
            Err(_) => after2.inodes == before2.inodes && after2.next_inode == before2.next_inode,
        },
{
    lemma_finished(before1, parent1, replies1, after1, res1);
    lemma_finished(before2, parent2, replies2, after2, res2);
    if res1 is Ok {
        lemma_interned(before1, found_key(replies1), replies1[0]->Fd_0);
    }
    if res2 is Ok {
        lemma_interned(before2, found_key(replies2), replies2[0]->Fd_0);
    }
    if res1 is Ok && res2 is Ok {
        let first = res1->Ok_0.inode;
        let second = res2->Ok_0.inode;
        assert(after1.inodes.contains_key(first));
        assert(before2.inodes.contains_key(first));
        assert(after2.inodes.contains_key(first));
        assert(after2.inodes[first].0 == found_key(replies1));
        assert(after2.inodes[second].0 == found_key(replies2));
    }
}

/// Keeping inodes goes on from step to step.
pub proof fn law_keeping_inodes_chains(a: FsView, b: FsView, c: FsView)
    requires
        keeps_inodes(a, b),
        keeps_inodes(b, c),
    ensures
        keeps_inodes(a, a),
        keeps_inodes(a, c),
{
    assert forall|i: Inode| #[trigger] a.inodes.contains_key(i) implies c.inodes.contains_key(i)
        && c.inodes[i].0 == a.inodes[i].0 by {
        assert(b.inodes.contains_key(i));
    }
}

proof fn lemma_lookup_keeps_inodes(op: Lookup, fs: FsView, reply: Reply)
    requires
        fs.wf(),
        fs.numbers_are_fresh(),
        fs.next_inode < u64::MAX,
        op.pending().answered_by(reply),
    ensures
        keeps_inodes(fs, op.next(fs, reply).0),
{
    if let Lookup::Override { fd, stx, .. } = op {
        match key_of_alt(fs.inodes, alt_of(stx)) {
            Some(inode) => {
                assert(fs.inodes.contains_key(inode) && fs.inodes[inode].0 == alt_of(stx));
            },
            None => {
                law_new_inodes_are_fresh(fs, alt_of(stx), fd);
            },
        }
    }
}

proof fn lemma_create_keeps_inodes(op: Create, fs: FsView, reply: Reply)
    requires
        fs.wf(),
        fs.numbers_are_fresh(),
        fs.next_inode < u64::MAX,
        op.pending().answered_by(reply),
    ensures
        keeps_inodes(fs, op.next(fs, reply).0),
{
    if let Create::Find { lookup, .. } = op {
        lemma_lookup_keeps_inodes(lookup, fs, reply);
    }
}

/// Every step of every request keeps the inodes, as does closing a file and marking it exported:
/// only references that are given back, the end of the session and mounting take any away.
pub proof fn law_requests_keep_inodes(
    lookup: Lookup,
    create: Create,
    list: ReadDir,
    link: Link,
    fs: FsView,
    reply: Reply,
)
    requires
        fs.wf(),
        fs.numbers_are_fresh(),
        fs.next_inode < u64::MAX,
    ensures
        lookup.pending().answered_by(reply) ==> keeps_inodes(fs, lookup.next(fs, reply).0),
        create.pending().answered_by(reply) ==> keeps_inodes(fs, create.next(fs, reply).0),
        list.wf() && list.pending().answered_by(reply) ==> keeps_inodes(
            fs,
            list.next(fs, reply).0,
        ),
        link.pending().answered_by(reply) ==> keeps_inodes(fs, link.next(fs, reply).0),
{
    if lookup.pending().answered_by(reply) {
        lemma_lookup_keeps_inodes(lookup, fs, reply);
    }
    if create.pending().answered_by(reply) {
        lemma_create_keeps_inodes(create, fs, reply);
    }
    if list.pending().answered_by(reply) {
        if let ReadDir::Find { lookup, .. } = list {
            lemma_lookup_keeps_inodes(lookup, fs, reply);
        }
    }
    if link.pending().answered_by(reply) {
        if let Link::Find { lookup } = link {
            lemma_lookup_keeps_inodes(lookup, fs, reply);
        }
    }
}

/// The same of the requests that give out no inodes.
pub proof fn law_other_requests_keep_inodes(
    open: Open,
    set: SetAttr,
    map: SetupMapping,
    xattr: Xattr,
    handle: Handle,
    fs: FsView,
    reply: Reply,
)
    ensures
        open.pending().answered_by(reply) ==> keeps_inodes(fs, open.next(fs, reply).0),
        set.pending().answered_by(reply) ==> keeps_inodes(fs, set.next(fs, reply).0),
        map.pending().answered_by(reply) ==> keeps_inodes(fs, map.next(fs, reply).0),
        xattr.wf() && xattr.pending().answered_by(reply) ==> keeps_inodes(
            fs,
            xattr.next(fs, reply).0,
        ),
        keeps_inodes(fs, fs.without_handle(handle)),
        keeps_inodes(fs, fs.with_exported(handle)),
{
}

/// The number for the next inode never falls, also where references are given back or the session
/// ends, until the numbers run out.
pub proof fn law_next_inode_never_falls(
    fs: FsView,
    alt: InodeAltKey,
    fd: RawFd,
    inode: Inode,
    count: u64,
    handle: Handle,
    handles: Seq<Handle>,
    inodes: Seq<Inode>,
)
    requires
        fs.next_inode < u64::MAX,
    ensures
        fs.next_inode <= fs.interned(alt, fd).next_inode,
        fs.next_inode <= fs.with_root(alt, fd).next_inode,
        fs.next_inode <= fs.forgotten(inode, count).next_inode,
        fs.next_inode <= fs.with_handle(inode, fd).next_inode,
        fs.next_inode <= fs.without_handle(handle).next_inode,
        fs.next_inode <= fs.with_exported(handle).next_inode,
        fs.next_inode <= crate::fs::destroyed(fs, handles, inodes).next_inode,
{
}

} // verus!
