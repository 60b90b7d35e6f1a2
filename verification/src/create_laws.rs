//! What the client is shown of a file that it made, from the start of the request to its end.

use crate::attr::{creation, stat_start, PrepareCreate};
use crate::create::{create_options, create_start, link_owner, Create, Created, Job, NewFile};
use crate::data_laws::gains_handle;
use crate::fs::FsView;
use crate::fs_laws::law_looked_up_file_is_known;
use crate::lookup::{alt_of, Lookup};
use crate::metadata::{is_text_of, on_route, ReadOverride, StatFile, WriteOverride};
use crate::model::{Entry, FsError, RawFd, Stat};
use crate::override_stat::{
    is_complete, is_symlink_mode, law_override_text_round_trip, merged, seen, OverrideStat, UID_MAX,
};
use crate::step::{Reply, Step};
use vstd::prelude::*;

verus! {

impl Create {
    /// Where this stands after a number of replies; those after the last step do not matter.
    pub open spec fn run(self, fs: FsView, replies: Seq<Reply>) -> (FsView, Step<Create, Created>)
        decreases replies.len(),
    {
        if replies.len() == 0 {
            (fs, self.wait())
        } else {
            let (after, step) = self.next(fs, replies[0]);
            match step {
                Step::Call(_, then) => then.run(after, replies.skip(1)),
                done => (after, done),
            }
        }
    }
}

impl StatFile {
    /// Whether each of these replies answers the call that is then waited for.
    pub open spec fn answered(self, replies: Seq<Reply>) -> bool
        decreases replies.len(),
    {
        replies.len() == 0 || (self.pending().answered_by(replies[0]) && match self.next(
            replies[0],
        ) {
            Step::Call(_, then) => then.answered(replies.skip(1)),
            _ => true,
        })
    }
}

impl WriteOverride {
    /// Whether each of these replies answers the call that is then waited for.
    pub open spec fn answered(self, replies: Seq<Reply>) -> bool
        decreases replies.len(),
    {
        replies.len() == 0 || (self.pending().answered_by(replies[0]) && match self.next(
            replies[0],
        ) {
            Step::Call(_, then) => then.answered(replies.skip(1)),
            _ => true,
        })
    }
}

/// Where a request that stands at `step` stands after a number of replies.
pub open spec fn run_on(fs: FsView, step: Step<Create, Created>, replies: Seq<Reply>) -> (
    FsView,
    Step<Create, Created>,
) {
    match step {
        Step::Call(_, op) => op.run(fs, replies),
        done => (fs, done),
    }
}

proof fn lemma_run_append(op: Create, fs: FsView, a: Seq<Reply>, b: Seq<Reply>)
    ensures
        op.run(fs, a + b) == run_on(op.run(fs, a).0, op.run(fs, a).1, b),
    decreases a.len(),
{
    if a.len() == 0 {
        assert(a + b =~= b);
    } else {
        assert((a + b)[0] == a[0]);
        assert((a + b).skip(1) =~= a.skip(1) + b);
        let (after, step) = op.next(fs, a[0]);
        if let Step::Call(_, then) = step {
            lemma_run_append(then, after, a.skip(1), b);
        }
    }
}

proof fn lemma_run_one(op: Create, fs: FsView, reply: Reply)
    ensures
        op.run(fs, seq![reply]) == (match op.next(fs, reply) {
            (after, Step::Call(_, then)) => (after, then.wait()),
            done => done,
        }),
{
    reveal_with_fuel(Create::run, 2);
    assert(seq![reply].skip(1) =~= Seq::<Reply>::empty());
}

/// Whether these replies of the host bring the reading of attributes to its end, with the attributes
/// `attr`.
pub open spec fn reads(stat: StatFile, replies: Seq<Reply>, attr: Stat) -> bool {
    &&& replies.len() > 0
    &&& stat.answered(replies.drop_last())
    &&& stat.run(replies.drop_last()) matches Step::Call(_, then)
    &&& then.pending().answered_by(replies.last())
    &&& then.next(replies.last()) matches Step::Done(Ok(read))
    &&& read == attr
}

/// Whether these replies bring a lookup to its end, in the state `after` and with `entry`.
pub open spec fn finds(
    lookup: Lookup,
    fs: FsView,
    replies: Seq<Reply>,
    after: FsView,
    entry: Entry,
) -> bool {
    &&& replies.len() > 0
    &&& lookup.answered(fs, replies.drop_last())
    &&& lookup.run(fs, replies.drop_last()).1 matches Step::Call(_, then)
    &&& then.pending().answered_by(replies.last())
    &&& then.next(fs, replies.last()) == (after, Step::<Lookup, Entry>::Done(Ok(entry)))
}

/// Whether these replies bring the update of an override to its end, the host having taken the text
/// of `value`.
pub open spec fn stores(write: WriteOverride, replies: Seq<Reply>, value: OverrideStat) -> bool {
    &&& replies.len() > 0
    &&& write.answered(replies.drop_last())
    &&& write.run(replies.drop_last()) matches Step::Call(_, then)
    &&& match then {
        WriteOverride::ByFd { value: handed, .. } => handed == value,
        WriteOverride::ByPath { value: handed, .. } => handed == value,
        _ => false,
    }
    &&& replies.last() is Unit
}

/// Whether these replies bring the reading of attributes to its end, the host giving `st` as its own
/// and the text of `value` as the override.
pub open spec fn shows(stat: StatFile, replies: Seq<Reply>, st: Stat, value: OverrideStat) -> bool {
    &&& replies.len() > 0
    &&& stat.answered(replies.drop_last())
    &&& stat.run(replies.drop_last()) matches Step::Call(_, then)
    &&& then matches StatFile::Override { st: own, read, .. }
    &&& own == st
    &&& !(read is Kind)
    &&& is_text_of(replies.last(), value)
}

/// A host that stores what it is handed and answers with it does so on either route: through the open
/// file or, where it refuses that, through its path. A new file has no override yet, so that an
/// update that leaves something open finds none.
pub proof fn law_either_route_serves(
    fd: RawFd,
    host_uid: Option<u32>,
    host_gid: Option<u32>,
    st: Stat,
    owner: (u32, u32),
    mode: Option<u32>,
    refused: Option<i32>,
    none_by_fd: i32,
    none_by_path: i32,
    stored: Reply,
)
    requires
        !is_symlink_mode(st.st_mode),
        is_text_of(stored, merged(Some(owner), mode, (None, None, None))),
    ensures
        ({
            let value = merged(Some(owner), mode, (None, None, None));
            let before = if is_complete(Some(owner), mode) {
                seq![Reply::Stat(st)]
            } else {
                seq![
                    Reply::Stat(st),
                    Reply::Stat(st),
                    Reply::Fail(none_by_fd),
                    Reply::Fail(none_by_path),
                ]
            };
            &&& stores(
                WriteOverride::Kind { fd, owner: Some(owner), mode },
                before + on_route(refused, Reply::Unit),
                value,
            )
            &&& shows(
                StatFile::Host { fd, host_uid, host_gid },
                seq![Reply::Stat(st), Reply::Stat(st)] + on_route(refused, stored),
                st,
                value,
            )
        }),
{
    let value = merged(Some(owner), mode, (None, None, None));
    lemma_route_stores(fd, st, owner, mode, refused, none_by_fd, none_by_path);
    reveal_with_fuel(StatFile::run, 4);
    reveal_with_fuel(StatFile::answered, 4);
    let replies = seq![Reply::Stat(st), Reply::Stat(st)] + on_route(refused, stored);
    let first = replies.drop_last();
    match refused {
        None => {
            assert(first =~= seq![Reply::Stat(st), Reply::Stat(st)]);
            assert(first.skip(1) =~= seq![Reply::Stat(st)]);
            assert(seq![Reply::Stat(st)].skip(1) =~= Seq::<Reply>::empty());
        },
        Some(e) => {
            assert(first =~= seq![Reply::Stat(st), Reply::Stat(st), Reply::Fail(e)]);
            assert(first.skip(1) =~= seq![Reply::Stat(st), Reply::Fail(e)]);
            assert(seq![Reply::Stat(st), Reply::Fail(e)].skip(1) =~= seq![Reply::Fail(e)]);
            assert(seq![Reply::Fail(e)].skip(1) =~= Seq::<Reply>::empty());
        },
    }
}

proof fn lemma_route_stores(
    fd: RawFd,
    st: Stat,
    owner: (u32, u32),
    mode: Option<u32>,
    refused: Option<i32>,
    none_by_fd: i32,
    none_by_path: i32,
)
    requires
        !is_symlink_mode(st.st_mode),
    ensures
        ({
            let before = if is_complete(Some(owner), mode) {
                seq![Reply::Stat(st)]
            } else {
                seq![
                    Reply::Stat(st),
                    Reply::Stat(st),
                    Reply::Fail(none_by_fd),
                    Reply::Fail(none_by_path),
                ]
            };
            stores(
                WriteOverride::Kind { fd, owner: Some(owner), mode },
                before + on_route(refused, Reply::Unit),
                merged(Some(owner), mode, (None, None, None)),
            )
        }),
{
    let kind = Reply::Stat(st);
    let a = Reply::Fail(none_by_fd);
    let b = Reply::Fail(none_by_path);
    let value = merged(Some(owner), mode, (None, None, None));
    let start = WriteOverride::Kind { fd, owner: Some(owner), mode };
    let by_fd = WriteOverride::ByFd { fd, value };
    let rest = on_route(refused, Reply::Unit).drop_last();
    if let Some(e) = refused {
        assert(rest =~= seq![Reply::Fail(e)] + Seq::<Reply>::empty());
        lemma_write_step(
            by_fd,
            Reply::Fail(e),
            Seq::empty(),
            WriteOverride::ByPath { fd, value },
        );
    } else {
        assert(rest =~= Seq::<Reply>::empty());
    }
    if is_complete(Some(owner), mode) {
        lemma_write_step(start, kind, rest, by_fd);
        assert((seq![kind] + on_route(refused, Reply::Unit)).drop_last() =~= seq![kind] + rest);
    } else {
        let owner = Some(owner);
        let read_kind = WriteOverride::Before { fd, owner, mode, read: ReadOverride::Kind { fd } };
        let read_fd = WriteOverride::Before { fd, owner, mode, read: ReadOverride::ByFd { fd } };
        let read_path = WriteOverride::Before {
            fd,
            owner,
            mode,
            read: ReadOverride::ByPath { fd },
        };
        lemma_write_step(read_path, b, rest, by_fd);
        lemma_write_step(read_fd, a, seq![b] + rest, read_path);
        lemma_write_step(read_kind, kind, seq![a] + (seq![b] + rest), read_fd);
        lemma_write_step(start, kind, seq![kind] + (seq![a] + (seq![b] + rest)), read_kind);
        assert((seq![kind, kind, a, b] + on_route(refused, Reply::Unit)).drop_last() =~= seq![kind]
            + (seq![kind] + (seq![a] + (seq![b] + rest))));
    }
}

proof fn lemma_write_step(
    write: WriteOverride,
    reply: Reply,
    rest: Seq<Reply>,
    then: WriteOverride,
)
    requires
        write.pending().answered_by(reply),
        write.next(reply) == then.wait(),
    ensures
        write.run(seq![reply] + rest) == then.run(rest),
        write.answered(seq![reply] + rest) == then.answered(rest),
{
    assert((seq![reply] + rest).skip(1) =~= rest);
}

proof fn lemma_shown(stat: StatFile, replies: Seq<Reply>)
    requires
        stat.answered(replies),
    ensures
        stat matches StatFile::Host { host_uid, host_gid, .. } ==> (stat.run(
            replies,
        ) matches Step::Call(_, StatFile::Override { host_uid: uid, host_gid: gid, .. }) ==> uid
            == host_uid && gid == host_gid),
        stat matches StatFile::Override { host_uid, host_gid, .. } ==> (stat.run(
            replies,
        ) matches Step::Call(_, StatFile::Override { host_uid: uid, host_gid: gid, .. }) ==> uid
            == host_uid && gid == host_gid),
    decreases replies.len(),
{
    if replies.len() > 0 {
        if let Step::Call(_, then) = stat.next(replies[0]) {
            lemma_shown(then, replies.skip(1));
        }
    }
}

/// Where the host shows the text of an override, the guest sees the attributes through it.
proof fn lemma_shows_reads(
    fd: RawFd,
    host_uid: Option<u32>,
    host_gid: Option<u32>,
    replies: Seq<Reply>,
    st: Stat,
    value: OverrideStat,
)
    requires
        shows((StatFile::Host { fd, host_uid, host_gid }), replies, st, value),
    ensures
        reads(
            (StatFile::Host { fd, host_uid, host_gid }),
            replies,
            seen(st, value, host_uid, host_gid),
        ),
{
    lemma_shown(StatFile::Host { fd, host_uid, host_gid }, replies.drop_last());
    law_override_text_round_trip(value);
}

/// Whether an update has, or will have, the owner and the mode that it is to record.
spec fn records(write: WriteOverride, owner: (u32, u32), mode: Option<u32>) -> bool {
    match write {
        WriteOverride::Kind { owner: own, mode: own_mode, .. } => own == Some(owner) && own_mode
            == mode,
        WriteOverride::Before { owner: own, mode: own_mode, .. } => own == Some(owner) && own_mode
            == mode,
        WriteOverride::ByFd { value, .. } => has_update(value, owner, mode),
        WriteOverride::ByPath { value, .. } => has_update(value, owner, mode),
    }
}

/// Whether an override holds what an update says.
pub open spec fn has_update(value: OverrideStat, owner: (u32, u32), mode: Option<u32>) -> bool {
    value.0 == Some(owner.0) && value.1 == Some(owner.1) && (mode is Some ==> value.2 == mode)
}

proof fn lemma_update_is_recorded(
    write: WriteOverride,
    replies: Seq<Reply>,
    owner: (u32, u32),
    mode: Option<u32>,
)
    requires
        owner.0 < UID_MAX,
        owner.1 < UID_MAX,
        records(write, owner, mode),
        write.answered(replies),
    ensures
        write.run(replies) matches Step::Call(_, then) ==> records(then, owner, mode),
    decreases replies.len(),
{
    if replies.len() > 0 {
        if let Step::Call(_, then) = write.next(replies[0]) {
            lemma_update_is_recorded(then, replies.skip(1), owner, mode);
        }
    }
}

// A part of the request that is under way goes on with the replies as that part does.

proof fn lemma_prepare_run(job: Job, op: PrepareCreate, fs: FsView, replies: Seq<Reply>)
    requires
        op.stat.answered(replies),
        op.stat.run(replies) is Call,
    ensures
        (Create::Prepare { job, prepare: op }).run(fs, replies) == (
            fs,
            (Create::Prepare {
                job,
                prepare: PrepareCreate { stat: op.stat.run(replies)->Call_1, ..op },
            }).wait(),
        ),
    decreases replies.len(),
{
    if replies.len() > 0 {
        let then = op.stat.next(replies[0])->Call_1;
        lemma_prepare_run(
            job,
            PrepareCreate { stat: then, ..op },
            fs,
            replies.skip(1),
        );
    }
}

proof fn lemma_find_run(
    job: Job,
    gid: u32,
    inherits: bool,
    file: Option<RawFd>,
    lookup: Lookup,
    fs: FsView,
    replies: Seq<Reply>,
)
    requires
        lookup.answered(fs, replies),
        lookup.run(fs, replies).1 is Call,
    ensures
        lookup.run(fs, replies).0 == fs,
        (Create::Find { job, gid, inherits, file, lookup }).run(fs, replies) == (
            fs,
            (Create::Find {
                job,
                gid,
                inherits,
                file,
                lookup: lookup.run(fs, replies).1->Call_1,
            }).wait(),
        ),
    decreases replies.len(),
{
    if replies.len() > 0 {
        let then = lookup.next(fs, replies[0]).1->Call_1;
        assert(lookup.next(fs, replies[0]).0 == fs);
        lemma_find_run(job, gid, inherits, file, then, fs, replies.skip(1));
    }
}

proof fn lemma_record_run(
    entry: Entry,
    file: Option<RawFd>,
    write: WriteOverride,
    fs: FsView,
    replies: Seq<Reply>,
)
    requires
        write.answered(replies),
        write.run(replies) is Call,
    ensures
        (Create::Record { entry, file, write }).run(fs, replies) == (
            fs,
            (Create::Record { entry, file, write: write.run(replies)->Call_1 }).wait(),
        ),
    decreases replies.len(),
{
    if replies.len() > 0 {
        lemma_record_run(entry, file, write.next(replies[0])->Call_1, fs, replies.skip(1));
    }
}

proof fn lemma_refresh_run(
    entry: Entry,
    file: Option<RawFd>,
    stat: StatFile,
    fs: FsView,
    replies: Seq<Reply>,
)
    requires
        stat.answered(replies),
        stat.run(replies) is Call,
    ensures
        (Create::Refresh { entry, file, stat }).run(fs, replies) == (
            fs,
            (Create::Refresh { entry, file, stat: stat.run(replies)->Call_1 }).wait(),
        ),
    decreases replies.len(),
{
    if replies.len() > 0 {
        lemma_refresh_run(entry, file, stat.next(replies[0])->Call_1, fs, replies.skip(1));
    }
}

/// A request stands at the making of its file once the directory's attributes were read.
proof fn lemma_prepared(
    fs: FsView,
    job: Job,
    gids: Vec<u32>,
    replies: Seq<Reply>,
    parent: Stat,
)
    requires
        stat_start(fs, job.parent) matches Ok(stat) && reads(stat, replies, parent),
    ensures
        run_on(fs, create_start(fs, job, gids), replies) == (
            fs,
            Create::prepared(fs, job, creation(fs, job.ctx, gids@, parent)),
        ),
{
    let stat = stat_start(fs, job.parent)->Ok_0;
    let prepare = PrepareCreate { ctx: job.ctx, gids, stat };
    let start = Create::Prepare { job, prepare };
    lemma_prepare_run(job, prepare, fs, replies.drop_last());
    let then = PrepareCreate {
        stat: stat.run(replies.drop_last())->Call_1,
        ..prepare
    };
    lemma_run_append(start, fs, replies.drop_last(), seq![replies.last()]);
    assert(replies.drop_last() + seq![replies.last()] =~= replies);
    lemma_run_one(Create::Prepare { job, prepare: then }, fs, replies.last());
}

/// A request stands at the recording of its owner once the file was found.
proof fn lemma_found(
    job: Job,
    gid: u32,
    inherits: bool,
    file: Option<RawFd>,
    lookup: Lookup,
    fs: FsView,
    replies: Seq<Reply>,
    after: FsView,
    entry: Entry,
)
    requires
        fs.wf(),
        finds(lookup, fs, replies, after, entry),
    ensures
        after.inodes.contains_key(entry.inode),
        after.my_uid == fs.my_uid,
        after.my_gid == fs.my_gid,
        (Create::Find { job, gid, inherits, file, lookup }).run(fs, replies) == Create::to_record(
            after,
            job,
            gid,
            inherits,
            file,
            entry,
        ),
{
    let start = Create::Find { job, gid, inherits, file, lookup };
    lemma_find_run(job, gid, inherits, file, lookup, fs, replies.drop_last());
    let then = lookup.run(fs, replies.drop_last()).1->Call_1;
    lemma_run_append(start, fs, replies.drop_last(), seq![replies.last()]);
    assert(replies.drop_last() + seq![replies.last()] =~= replies);
    lemma_run_one(Create::Find { job, gid, inherits, file, lookup: then }, fs, replies.last());
    if let Lookup::Override { fd, stx, .. } = then {
        law_looked_up_file_is_known(fs, alt_of(stx), fd);
    }
}

/// A request reads the attributes again once the owner was recorded.
proof fn lemma_recorded(
    entry: Entry,
    file: Option<RawFd>,
    write: WriteOverride,
    fs: FsView,
    replies: Seq<Reply>,
    value: OverrideStat,
)
    requires
        stores(write, replies, value),
        fs.inodes.contains_key(entry.inode),
    ensures
        (Create::Record { entry, file, write }).run(fs, replies) == Create::to_refresh(
            fs,
            file,
            entry,
        ),
{
    let start = Create::Record { entry, file, write };
    lemma_record_run(entry, file, write, fs, replies.drop_last());
    let then = write.run(replies.drop_last())->Call_1;
    lemma_run_append(start, fs, replies.drop_last(), seq![replies.last()]);
    assert(replies.drop_last() + seq![replies.last()] =~= replies);
    lemma_run_one(Create::Record { entry, file, write: then }, fs, replies.last());
}

/// A request ends once the attributes were read again.
proof fn lemma_refreshed(
    entry: Entry,
    file: Option<RawFd>,
    stat: StatFile,
    fs: FsView,
    replies: Seq<Reply>,
    attr: Stat,
)
    requires
        reads(stat, replies, attr),
    ensures
        (Create::Refresh { entry, file, stat }).run(fs, replies) == Create::finish(
            fs,
            file,
            (Entry { attr, ..entry }),
        ),
{
    let start = Create::Refresh { entry, file, stat };
    lemma_refresh_run(entry, file, stat, fs, replies.drop_last());
    let then = stat.run(replies.drop_last())->Call_1;
    lemma_run_append(start, fs, replies.drop_last(), seq![replies.last()]);
    assert(replies.drop_last() + seq![replies.last()] =~= replies);
    lemma_run_one(Create::Refresh { entry, file, stat: then }, fs, replies.last());
}

/// How the host answers a request that makes a file, part by part.
pub struct Course {
    /// To the reading of the directory's attributes, which the guest sees as `parent`.
    pub parent_replies: Seq<Reply>,
    pub parent: Stat,
    /// To the making of the file.
    pub make_replies: Seq<Reply>,
    /// To the lookup of the new file, which ends in the state `after` and with `entry`.
    pub find_replies: Seq<Reply>,
    pub after: FsView,
    pub entry: Entry,
    /// To the recording of the owner and mode, as which the host stores `value`. None for a link.
    pub write_replies: Seq<Reply>,
    pub value: OverrideStat,
    /// To the reading of the new file's attributes, `st` being the host's own.
    pub show_replies: Seq<Reply>,
    pub st: Stat,
}

impl Course {
    /// All replies, from the start of the request to its end.
    pub open spec fn replies(self) -> Seq<Reply> {
        self.parent_replies + (self.make_replies + (self.find_replies + (self.write_replies
            + self.show_replies)))
    }

    /// Whether the directory's attributes are read in the state `fs`.
    pub open spec fn prepares(self, fs: FsView, job: Job) -> bool {
        stat_start(fs, job.parent) matches Ok(stat) && reads(stat, self.parent_replies, self.parent)
    }

    /// Whether the host makes the file: a file is opened, after the capability to keep set-id bits
    /// was dropped if that is asked for; a link is opened as `link` and given to its owner.
    pub open spec fn makes(self, what: NewFile, link: RawFd) -> bool {
        match what {
            NewFile::File { kill_priv: false, .. } => self.make_replies.len() == 1
                && self.make_replies[0] is Fd,
            NewFile::File { kill_priv: true, .. } => self.make_replies.len() == 2
                && self.make_replies[0] is Held && self.make_replies[1] is Fd,
            NewFile::Link => self.make_replies == seq![Reply::Unit, Reply::Fd(link), Reply::Unit],
            _ => self.make_replies == seq![Reply::Unit],
        }
    }

    /// The open file of a request that opens what it makes.
    pub open spec fn file(self) -> Option<RawFd> {
        match self.make_replies.last() {
            Reply::Fd(fd) => Some(fd),
            _ => None,
        }
    }

    /// Whether the new file is found in the state `fs`.
    pub open spec fn finds(self, fs: FsView, job: Job) -> bool {
        finds(
            Lookup::Open { parent: fs.inodes[job.parent].1, flags: fs.machine.open_place() },
            fs,
            self.find_replies,
            self.after,
            self.entry,
        )
    }

    /// The open place of the new file.
    pub open spec fn place(self) -> RawFd {
        self.after.inodes[self.entry.inode].1.fd
    }

    /// Whether the host stores the owner and mode, and then shows them.
    pub open spec fn keeps(self, job: Job, gid: u32, inherits: bool) -> bool {
        &&& stores(
            WriteOverride::Kind {
                fd: self.place(),
                owner: Some((job.ctx.uid, gid)),
                mode: job.what.recorded_mode(inherits),
            },
            self.write_replies,
            self.value,
        )
        &&& shows(
            StatFile::Host {
                fd: self.place(),
                host_uid: self.after.my_uid,
                host_gid: self.after.my_gid,
            },
            self.show_replies,
            self.st,
            self.value,
        )
    }

    /// The attributes that the client is shown at the end.
    pub open spec fn attr(self) -> Stat {
        seen(self.st, self.value, self.after.my_uid, self.after.my_gid)
    }
}

/// Where the request stands once the file was made, in the state `fs` that it then found.
proof fn lemma_made(fs: FsView, job: Job, gid: u32, inherits: bool, c: Course)
    requires
        fs.find_inode(job.parent) is Ok,
        !(job.what is Link),
        c.makes(job.what, 0),
    ensures
        ({
            let inherits = inherits && !(job.what is File && job.what->File_kill_priv);
            run_on(
                fs,
                Create::prepared(fs, job, Ok((gid, inherits))),
                c.make_replies,
            ) == Create::to_find(fs, job, gid, inherits, c.file())
        }),
{
    let dir = fs.inodes[job.parent].1.fd;
    match job.what {
        NewFile::File { kill_priv: true, .. } => {
            let drop = Create::DropPriv { job, gid };
            let make = Create::Make { job, gid, inherits: false, dir };
            let (a, b) = (c.make_replies[0], c.make_replies[1]);
            assert(c.make_replies =~= seq![a] + seq![b]);
            lemma_run_append(drop, fs, seq![a], seq![b]);
            lemma_run_one(drop, fs, a);
            lemma_run_one(make, fs, b);
        },
        _ => {
            let make = Create::Make { job, gid, inherits, dir };
            assert(c.make_replies =~= seq![c.make_replies[0]]);
            lemma_run_one(make, fs, c.make_replies[0]);
        },
    }
}

/// The parts after the making: the file is found, its owner recorded, and its attributes read again.
proof fn lemma_shown_once_made(
    fs: FsView,
    job: Job,
    gid: u32,
    inherits: bool,
    c: Course,
)
    requires
        fs.wf(),
        fs.find_inode(job.parent) is Ok,
        !(job.what is Link),
        c.finds(fs, job),
        c.keeps(job, gid, inherits),
    ensures
        ({
            let (found, step) = Create::to_find(fs, job, gid, inherits, c.file());
            run_on(found, step, c.find_replies + (c.write_replies + c.show_replies))
                == Create::finish(c.after, c.file(), Entry { attr: c.attr(), ..c.entry })
        }),
{
    let file = c.file();
    let lookup = Lookup::Open {
        parent: fs.inodes[job.parent].1,
        flags: fs.machine.open_place(),
    };
    let find = Create::Find { job, gid, inherits, file, lookup };
    lemma_found(job, gid, inherits, file, lookup, fs, c.find_replies, c.after, c.entry);
    lemma_run_append(find, fs, c.find_replies, c.write_replies + c.show_replies);
    let write = WriteOverride::Kind {
        fd: c.place(),
        owner: Some((job.ctx.uid, gid)),
        mode: job.what.recorded_mode(inherits),
    };
    let record = Create::Record { entry: c.entry, file, write };
    lemma_recorded(c.entry, file, write, c.after, c.write_replies, c.value);
    lemma_run_append(record, c.after, c.write_replies, c.show_replies);
    let (host_uid, host_gid) = (c.after.my_uid, c.after.my_gid);
    lemma_shows_reads(c.place(), host_uid, host_gid, c.show_replies, c.st, c.value);
    let stat = StatFile::Host { fd: c.place(), host_uid, host_gid };
    lemma_refreshed(c.entry, file, stat, c.after, c.show_replies, c.attr());
}

/// A new file, directory or node is shown to the client as it was made, by a host that stores what was
/// recorded for it and whatever route it answers on: as its maker's and of the group that was chosen.
/// A directory has the mode that was asked for; another file has that of the host, which was asked to
/// make it so, unless the host had an older override with a mode. The host's own owner of the file
/// does not matter. Where the file is opened too the client gets the next handle, which is one of the
/// inode that it is told and stands for the file that the host opened to make it; where it is not, no
/// handle changes.
pub proof fn law_new_file_is_shown_as_made(
    fs: FsView,
    job: Job,
    gids: Vec<u32>,
    gid: u32,
    inherits: bool,
    c: Course,
)
    requires
        fs.wf(),
        !(job.what is Link),
        job.ctx.uid < UID_MAX,
        gid < UID_MAX,
        c.prepares(fs, job),
        creation(fs, job.ctx, gids@, c.parent) == Ok::<(u32, bool), FsError>((gid, inherits)),
        c.makes(job.what, 0),
        c.finds(fs, job),
        c.keeps(job, gid, inherits),
    ensures
        ({
            let (end, step) = run_on(fs, create_start(fs, job, gids), c.replies());
            let attr = c.attr();
            let entry = Entry { attr, ..c.entry };
            &&& step == Step::<Create, Created>::Done(
                Ok(
                    match c.file() {
                        Some(_) => (
                            entry,
                            Some(c.after.next_handle),
                            create_options(c.after.cfg.cache_policy),
                        ),
                        None => (entry, None, 0),
                    },
                ),
            )
            &&& match c.file() {
                Some(fd) => gains_handle(c.after, end, entry.inode, c.after.next_handle, fd) && (
                end.find_handle(entry.inode, c.after.next_handle) matches Ok(data) && data.fd == fd),
                None => end == c.after,
            }
            &&& attr.st_uid == job.ctx.uid
            &&& attr.st_gid == gid
            &&& job.what is Dir ==> attr.st_mode & 0o7777 == job.what.create_mode(inherits)
                & 0o7777
            &&& !(job.what is Dir) && c.value.2 is None ==> attr.st_mode == c.st.st_mode
        }),
{
    let start = create_start(fs, job, gids);
    let made = Create::prepared(fs, job, Ok((gid, inherits)));
    let find_on = c.find_replies + (c.write_replies + c.show_replies);
    lemma_prepared(fs, job, gids, c.parent_replies, c.parent);
    lemma_run_append(start->Call_1, fs, c.parent_replies, c.make_replies + find_on);
    let kept = inherits && !(job.what is File && job.what->File_kill_priv);
    lemma_made(fs, job, gid, inherits, c);
    lemma_run_append(made->Call_1, fs, c.make_replies, find_on);
    assert(job.what.recorded_mode(kept) == job.what.recorded_mode(inherits));
    lemma_shown_once_made(fs, job, gid, kept, c);
    let mode = job.what.recorded_mode(inherits);
    let write = WriteOverride::Kind { fd: c.place(), owner: Some((job.ctx.uid, gid)), mode };
    lemma_update_is_recorded(write, c.write_replies.drop_last(), (job.ctx.uid, gid), mode);
    if let Some(mode) = mode {
        let host = c.st.st_mode;
        assert(((host & 0o170000u32) | mode) & 0o7777u32 == mode & 0o7777u32) by (bit_vector);
    }
}

/// A new link is shown to the client as its maker's and of the group that was chosen, by a host that
/// gave it the owner it was asked to, where this process may act as any user and group; where it may
/// not, the link is root's. It has the mode of the host.
pub proof fn law_new_link_is_shown_as_made(
    fs: FsView,
    job: Job,
    gids: Vec<u32>,
    gid: u32,
    inherits: bool,
    c: Course,
    link: RawFd,
)
    requires
        fs.wf(),
        job.what is Link,
        c.prepares(fs, job),
        creation(fs, job.ctx, gids@, c.parent) == Ok::<(u32, bool), FsError>((gid, inherits)),
        c.makes(job.what, link),
        c.finds(fs.releasing(link), job),
        c.write_replies.len() == 0,
        c.show_replies == seq![Reply::Stat(c.st), Reply::Stat(c.st)],
        is_symlink_mode(c.st.st_mode),
        (c.st.st_uid, c.st.st_gid) == link_owner(fs, job, gid),
        c.value == (None::<u32>, None::<u32>, None::<u32>),
    ensures
        ({
            let (end, step) = run_on(fs, create_start(fs, job, gids), c.replies());
            let attr = c.attr();
            &&& end == c.after
            &&& step == Step::<Create, Created>::Done(Ok((Entry { attr, ..c.entry }, None, 0)))
            &&& attr.st_uid == (if fs.my_uid is None {
                job.ctx.uid
            } else {
                0
            })
            &&& attr.st_gid == (if fs.my_gid is None {
                gid
            } else {
                0
            })
            &&& attr.st_mode == c.st.st_mode
        }),
{
    let start = create_start(fs, job, gids);
    let made = Create::prepared(fs, job, Ok((gid, inherits)));
    let find_on = c.find_replies + (c.write_replies + c.show_replies);
    lemma_prepared(fs, job, gids, c.parent_replies, c.parent);
    lemma_run_append(start->Call_1, fs, c.parent_replies, c.make_replies + find_on);
    lemma_run_append(made->Call_1, fs, c.make_replies, find_on);
    lemma_link_made(fs, job, gid, inherits, link);
    lemma_link_shown_once_made(fs.releasing(link), job, gid, c);
}

proof fn lemma_link_shown_once_made(fs: FsView, job: Job, gid: u32, c: Course)
    requires
        fs.wf(),
        fs.find_inode(job.parent) is Ok,
        job.what is Link,
        c.finds(fs, job),
        c.write_replies.len() == 0,
        c.show_replies == seq![Reply::Stat(c.st), Reply::Stat(c.st)],
        is_symlink_mode(c.st.st_mode),
        c.value == (None::<u32>, None::<u32>, None::<u32>),
    ensures
        ({
            let (found, step) = Create::to_find(fs, job, gid, false, None);
            run_on(found, step, c.find_replies + (c.write_replies + c.show_replies))
                == Create::finish(c.after, None, Entry { attr: c.attr(), ..c.entry })
        }),
        c.after.my_uid == fs.my_uid,
        c.after.my_gid == fs.my_gid,
{
    let lookup = Lookup::Open {
        parent: fs.inodes[job.parent].1,
        flags: fs.machine.open_place(),
    };
    let find = Create::Find { job, gid, inherits: false, file: None, lookup };
    lemma_found(job, gid, false, None, lookup, fs, c.find_replies, c.after, c.entry);
    lemma_run_append(find, fs, c.find_replies, c.write_replies + c.show_replies);
    assert(c.write_replies + c.show_replies =~= c.show_replies);
    let stat = StatFile::Host {
        fd: c.place(),
        host_uid: c.after.my_uid,
        host_gid: c.after.my_gid,
    };
    reveal_with_fuel(StatFile::run, 2);
    reveal_with_fuel(StatFile::answered, 2);
    assert(c.show_replies.drop_last() =~= seq![Reply::Stat(c.st)]);
    assert(seq![Reply::Stat(c.st)].skip(1) =~= Seq::<Reply>::empty());
    lemma_refreshed(c.entry, None, stat, c.after, c.show_replies, c.attr());
}

proof fn lemma_link_made(fs: FsView, job: Job, gid: u32, inherits: bool, link: RawFd)
    requires
        fs.find_inode(job.parent) is Ok,
        job.what is Link,
    ensures
        run_on(
            fs,
            Create::prepared(fs, job, Ok((gid, inherits))),
            seq![Reply::Unit, Reply::Fd(link), Reply::Unit],
        ) == Create::to_find(fs.releasing(link), job, gid, false, None),
{
    let dir = fs.inodes[job.parent].1.fd;
    let make = Create::Make { job, gid, inherits, dir };
    let open = Create::OpenLink { job, gid, dir };
    let owner = link_owner(fs, job, gid);
    let own = Create::OwnLink { job, gid, dir, fd: link, owner };
    let (a, b) = (Reply::Unit, Reply::Fd(link));
    assert(seq![a, b, a] =~= seq![a] + (seq![b] + seq![a]));
    lemma_run_append(make, fs, seq![a], seq![b] + seq![a]);
    lemma_run_one(make, fs, a);
    lemma_run_append(open, fs, seq![b], seq![a]);
    lemma_run_one(open, fs, b);
    lemma_run_one(own, fs, a);
}

} // verus!
