//! Listing a directory.

use crate::abi::EBADF;
use crate::data_laws::{lemma_signed, signed};
use crate::dirent::{are_records, read_record, record_at, record_len, DirRecord};
use crate::fs::{FsView, PassthroughFs};
use crate::lookup::{law_lookup_step_accounts_for_files, lookup_start, Lookup};
use crate::model::{ByteOrder, Entry, FsError, Handle, Inode, RawFd};
use crate::step::{just_name, Carried, Path, Reply, Step, Syscall};
use crate::text::lemma_field_end;
use vstd::pervasive::unreached;
use vstd::prelude::*;

verus! {

/// Whether a name is that of the directory itself or of its parent, which are not reported: `.` or
/// `..`.
pub open spec fn is_dot(name: Seq<u8>) -> bool {
    name == seq![46u8] || name == seq![46u8, 46u8]
}

fn is_dot_name(name: &[u8]) -> (dot: bool)
    ensures
        dot == is_dot(name@),
{
    if name.len() == 1 {
        assert(name[0] == 46 ==> name@ =~= seq![46u8]);
        assert(is_dot(name@) ==> name@[0] == 46);
        name[0] == 46
    } else if name.len() == 2 {
        assert(name[0] == 46 && name[1] == 46 ==> name@ =~= seq![46u8, 46u8]);
        assert(is_dot(name@) ==> name@[0] == 46 && name@[1] == 46);
        name[0] == 46 && name[1] == 46
    } else {
        false
    }
}

/// The name in a record of `list`.
pub open spec fn name_in(list: Seq<u8>, record: DirRecord) -> Seq<u8> {
    list.subrange(record.name_start as int, record.name_end as int)
}

/// Serves a request for entries of a directory: they are read in one go and handed to the client one
/// by one, until the client takes no more. The directory itself and its parent are passed over.
#[allow(inconsistent_fields)]
#[derive(Debug)]
pub enum ReadDir {
    /// Reads the entries. `plus` is the directory's inode where each entry is to be looked up.
    Read { plus: Option<Inode>, fd: RawFd, offset: i64, size: u32, order: ByteOrder },
    Find { plus: Inode, order: ByteOrder, list: Vec<u8>, record: DirRecord, lookup: Lookup },
    Add {
        plus: Option<Inode>,
        order: ByteOrder,
        list: Vec<u8>,
        record: DirRecord,
        entry: Option<Entry>,
    },
}

/// Whether `record` is one of `list`, and records follow it to the end.
pub open spec fn is_current(order: ByteOrder, list: Seq<u8>, record: DirRecord) -> bool {
    &&& record.name_start <= record.name_end < record.end <= list.len()
    &&& are_records(order, list, record.end as int)
}

impl ReadDir {
    pub open spec fn wf(self) -> bool {
        match self {
            ReadDir::Read { .. } => true,
            ReadDir::Find { order, list, record, .. } => is_current(order, list@, record),
            ReadDir::Add { order, list, record, .. } => is_current(order, list@, record),
        }
    }

    /// Whether this request has the file `fd` open.
    pub open spec fn holds(self, fd: RawFd) -> bool {
        self matches ReadDir::Find { lookup, .. } && lookup.holds(fd)
    }

    /// The name of the entry that the request is at.
    pub open spec fn name(self) -> Seq<u8> {
        match self {
            ReadDir::Read { .. } => Seq::empty(),
            ReadDir::Find { list, record, .. } => name_in(list@, record),
            ReadDir::Add { list, record, .. } => name_in(list@, record),
        }
    }

    pub open spec fn pending(self) -> Syscall {
        match self {
            ReadDir::Read { fd, offset, size, order, .. } => Syscall::GetDents {
                fd,
                offset,
                size,
                order,
            },
            ReadDir::Find { lookup, .. } => lookup.pending(),
            ReadDir::Add { record, entry, .. } => Syscall::AddEntry { record, entry },
        }
    }

    pub open spec fn wait(self) -> Step<ReadDir, ()> {
        Step::Call(self.pending(), self)
    }

    /// Where the request stands at `record`.
    pub open spec fn on(
        fs: FsView,
        plus: Option<Inode>,
        order: ByteOrder,
        list: Vec<u8>,
        record: DirRecord,
    ) -> Step<ReadDir, ()> {
        match plus {
            None => ReadDir::Add { plus, order, list, record, entry: None }.wait(),
            Some(inode) => match lookup_start(fs, inode) {
                Step::Call(_, lookup) => ReadDir::Find {
                    plus: inode,
                    order,
                    list,
                    record,
                    lookup,
                }.wait(),
                Step::Done(Err(e)) => Step::Done(Err(e)),
                Step::Done(Ok(_)) => arbitrary(),
            },
        }
    }

    /// Where the request stands at the record at `at`: on the first record from there on that is
    /// reported, or done where none is left.
    pub open spec fn at(
        fs: FsView,
        plus: Option<Inode>,
        order: ByteOrder,
        list: Vec<u8>,
        at: int,
    ) -> Step<ReadDir, ()>
        decreases list@.len() - at,
        when are_records(order, list@, at)
    {
        if at == list@.len() {
            Step::Done(Ok(()))
        } else {
            let record = record_at(order, list@, at);
            let end = at + record_len(order, list@, at);
            proof {
                lemma_field_end(list@.skip(at + 19), 0);
            }
            if is_dot(name_in(list@, record)) {
                ReadDir::at(fs, plus, order, list, end)
            } else {
                ReadDir::on(fs, plus, order, list, record)
            }
        }
    }

    pub open spec fn next(self, fs: FsView, reply: Reply) -> (FsView, Step<ReadDir, ()>) {
        match self {
            ReadDir::Read { plus, order, .. } => match reply {
                Reply::Fail(e) => (fs, Step::Done(Err(FsError::Os(e)))),
                Reply::Bytes(list) => (fs, ReadDir::at(fs, plus, order, list, 0)),
                _ => arbitrary(),
            },
            ReadDir::Find { plus, order, list, record, lookup } => {
                let (fs, step) = lookup.next(fs, reply);
                (
                    fs,
                    match step {
                        Step::Call(_, lookup) => ReadDir::Find {
                            plus,
                            order,
                            list,
                            record,
                            lookup,
                        }.wait(),
                        Step::Done(Ok(entry)) => ReadDir::Add {
                            plus: Some(plus),
                            order,
                            list,
                            record,
                            entry: Some(entry),
                        }.wait(),
                        Step::Done(Err(e)) => Step::Done(Err(e)),
                    },
                )
            },
            ReadDir::Add { plus, order, list, record, .. } => match reply {
                Reply::Fail(e) => (fs, Step::Done(Err(FsError::Os(e)))),
                Reply::Num(n) => if n == 0 {
                    (fs, Step::Done(Ok(())))
                } else {
                    (fs, ReadDir::at(fs, plus, order, list, record.end as int))
                },
                _ => arbitrary(),
            },
        }
    }

    fn go_on(
        fs: &PassthroughFs,
        plus: Option<Inode>,
        order: ByteOrder,
        list: Vec<u8>,
        record: DirRecord,
    ) -> (step: Step<ReadDir, ()>)
        requires
            is_current(order, list@, record),
        ensures
            step == ReadDir::on(fs@, plus, order, list, record),
            step matches Step::Call(_, op) ==> op.wf(),
    {
        match plus {
            None => Step::Call(
                Syscall::AddEntry { record, entry: None },
                ReadDir::Add { plus, order, list, record, entry: None },
            ),
            Some(inode) => match fs.do_lookup(inode) {
                Step::Call(call, lookup) => Step::Call(
                    call,
                    ReadDir::Find { plus: inode, order, list, record, lookup },
                ),
                Step::Done(Err(e)) => Step::Done(Err(e)),
                Step::Done(Ok(_)) => unreached(),
            },
        }
    }

    fn go_to(
        fs: &PassthroughFs,
        plus: Option<Inode>,
        order: ByteOrder,
        list: Vec<u8>,
        at: usize,
    ) -> (step: Step<ReadDir, ()>)
        requires
            at <= list@.len(),
            are_records(order, list@, at as int),
        ensures
            step == ReadDir::at(fs@, plus, order, list, at as int),
            step matches Step::Call(_, op) ==> op.wf(),
    {
        let mut from: usize = at;
        while from < list.len()
            invariant
                from <= list@.len(),
                are_records(order, list@, from as int),
                ReadDir::at(fs@, plus, order, list, from as int) == ReadDir::at(
                    fs@,
                    plus,
                    order,
                    list,
                    at as int,
                ),
            decreases list.len() - from,
        {
            let record = match read_record(order, list.as_slice(), from) {
                Some(record) => record,
                None => unreached(),
            };
            let name: &[u8] = vstd::slice::slice_subrange(
                list.as_slice(),
                record.name_start,
                record.name_end,
            );
            if !is_dot_name(name) {
                return ReadDir::go_on(fs, plus, order, list, record);
            }
            from = record.end;
        }
        Step::Done(Ok(()))
    }

    /// The name of the entry that the request is at, for the call that it waits for.
    pub fn entry_name(&self) -> (name: &[u8])
        requires
            self.wf(),
        ensures
            name@ == self.name(),
    {
        match self {
            ReadDir::Read { plus: _, fd: _, offset: _, size: _, order: _ } => &[],
            ReadDir::Find { plus: _, order: _, list, record, lookup: _ } => vstd::slice::slice_subrange(
                list.as_slice(),
                record.name_start,
                record.name_end,
            ),
            ReadDir::Add { plus: _, order: _, list, record, entry: _ } => vstd::slice::slice_subrange(
                list.as_slice(),
                record.name_start,
                record.name_end,
            ),
        }
    }

    /// What the call that the request waits for takes from the entry that it is at: the name.
    pub fn carried(&self) -> (carried: Carried)
        requires
            self.wf(),
        ensures
            carried@ == just_name(self.name()),
    {
        Carried::named(self.entry_name())
    }

    pub fn resume(self, fs: &mut PassthroughFs, reply: Reply) -> (step: Step<ReadDir, ()>)
        requires
            old(fs).wf(),
            self.wf(),
            self.pending().answered_by(reply),
        ensures
            final(fs).wf(),
            (final(fs)@, step) == self.next(old(fs)@, reply),
            step matches Step::Call(_, op) ==> op.wf(),
    {
        match self {
            ReadDir::Read { plus, fd: _, offset: _, size: _, order } => match reply {
                Reply::Fail(e) => Step::Done(Err(FsError::from_raw_os_error(e))),
                Reply::Bytes(list) => ReadDir::go_to(fs, plus, order, list, 0),
                _ => unreached(),
            },
            ReadDir::Find { plus, order, list, record, lookup } => match lookup.resume(fs, reply) {
                Step::Call(call, lookup) => Step::Call(
                    call,
                    ReadDir::Find { plus, order, list, record, lookup },
                ),
                Step::Done(Ok(entry)) => Step::Call(
                    Syscall::AddEntry { record, entry: Some(entry) },
                    ReadDir::Add { plus: Some(plus), order, list, record, entry: Some(entry) },
                ),
                Step::Done(Err(e)) => Step::Done(Err(e)),
            },
            ReadDir::Add { plus, order, list, record, entry: _ } => match reply {
                Reply::Fail(e) => Step::Done(Err(FsError::from_raw_os_error(e))),
                Reply::Num(n) => if n == 0 {
                    Step::Done(Ok(()))
                } else {
                    ReadDir::go_to(fs, plus, order, list, record.end)
                },
                _ => unreached(),
            },
        }
    }
}

/// How a request for entries starts. One for no bytes is done at once.
pub open spec fn readdir_start(
    fs: FsView,
    plus: Option<Inode>,
    inode: Inode,
    handle: Handle,
    size: u32,
    offset: u64,
) -> Step<ReadDir, ()> {
    if size == 0 {
        Step::Done(Ok(()))
    } else {
        match fs.find_handle(inode, handle) {
            Ok(data) => ReadDir::Read {
                plus,
                fd: data.fd,
                offset: offset as i64,
                size,
                order: fs.machine.order,
            }.wait(),
            Err(e) => Step::Done(Err(e)),
        }
    }
}

impl PassthroughFs {
    fn do_readdir(
        &self,
        plus: Option<Inode>,
        inode: Inode,
        handle: Handle,
        size: u32,
        offset: u64,
    ) -> (step: Step<ReadDir, ()>)
        ensures
            step == readdir_start(self@, plus, inode, handle, size, offset),
            step matches Step::Call(_, op) ==> op.wf(),
    {
        if size == 0 {
            return Step::Done(Ok(()));
        }
        let data = match self.handle_data(inode, handle) {
            Ok(data) => data,
            Err(e) => {
                return Step::Done(Err(e));
            },
        };
        let offset: i64 = #[verifier::truncate]
        (offset as i64);
        let order = self.machine().order;
        Step::Call(
            Syscall::GetDents { fd: data.fd, offset, size, order },
            ReadDir::Read { plus, fd: data.fd, offset, size, order },
        )
    }

    /// Lists a directory.
    pub fn readdir(&self, inode: Inode, handle: Handle, size: u32, offset: u64) -> (step: Step<
        ReadDir,
        (),
    >)
        ensures
            step == readdir_start(self@, None, inode, handle, size, offset),
            step matches Step::Call(_, op) ==> op.wf(),
    {
        self.do_readdir(None, inode, handle, size, offset)
    }

    /// Lists a directory and looks each of its entries up.
    pub fn readdirplus(&self, inode: Inode, handle: Handle, size: u32, offset: u64) -> (step: Step<
        ReadDir,
        (),
    >)
        ensures
            step == readdir_start(self@, Some(inode), inode, handle, size, offset),
            step matches Step::Call(_, op) ==> op.wf(),
    {
        self.do_readdir(Some(inode), inode, handle, size, offset)
    }
}

/// The records from `at` on that are reported to the client, in their order.
pub open spec fn reported(order: ByteOrder, list: Seq<u8>, at: int) -> Seq<DirRecord>
    decreases list.len() - at,
    when are_records(order, list, at)
{
    if at == list.len() {
        Seq::empty()
    } else {
        proof {
            lemma_field_end(list.skip(at + 19), 0);
        }
        let record = record_at(order, list, at);
        let rest = reported(order, list, at + record_len(order, list, at));
        if is_dot(name_in(list, record)) {
            rest
        } else {
            seq![record] + rest
        }
    }
}

/// A listing reports all records but those of the directory itself and its parent, in the order in
/// which the host lists them: where it stands at `at`, it is on the first one that is left, the rest
/// follow that one, and it is done where none is left.
pub proof fn law_all_but_dots_are_reported(
    fs: FsView,
    plus: Option<Inode>,
    order: ByteOrder,
    list: Vec<u8>,
    at: int,
)
    requires
        0 <= at,
        are_records(order, list@, at),
        plus matches Some(inode) ==> fs.find_inode(inode) is Ok,
    ensures
        ({
            let left = reported(order, list@, at);
            match ReadDir::at(fs, plus, order, list, at) {
                Step::Done(res) => res is Ok && left.len() == 0,
                step => left.len() > 0 && step == ReadDir::on(fs, plus, order, list, left[0]) && at
                    < left[0].end && is_current(order, list@, left[0]) && reported(
                    order,
                    list@,
                    left[0].end as int,
                ) == left.skip(1),
            }
        }),
    decreases list@.len() - at,
{
    assert(list.len() == list@.len());
    if at < list@.len() {
        lemma_field_end(list@.skip(at + 19), 0);
        let record = record_at(order, list@, at);
        let end = at + record_len(order, list@, at);
        if is_dot(name_in(list@, record)) {
            law_all_but_dots_are_reported(fs, plus, order, list, end);
        } else {
            assert(reported(order, list@, at).skip(1) =~= reported(order, list@, end));
        }
    }
}

/// What holds of the state in which a listing stands somewhere: it is on a record after `at` that is
/// reported, and has no file open.
pub proof fn lemma_at(fs: FsView, plus: Option<Inode>, order: ByteOrder, list: Vec<u8>, at: int)
    requires
        0 <= at,
        are_records(order, list@, at),
    ensures
        ReadDir::at(fs, plus, order, list, at) matches Step::Call(call, op) ==> {
            &&& op.wf()
            &&& call == op.pending()
            &&& !is_dot(op.name())
            &&& forall|fd: RawFd| !#[trigger] op.holds(fd)
            &&& match op {
                ReadDir::Read { .. } => false,
                ReadDir::Find { order: own_order, list: own, record, lookup, .. } => own_order == order
                    && own == list && at < record.end
                    && lookup is Open,
                ReadDir::Add { order: own_order, list: own, record, .. } => own_order == order && own
                    == list && at < record.end,
            }
        },
    decreases list@.len() - at,
{
    assert(list.len() == list@.len());
    if at < list@.len() {
        lemma_field_end(list@.skip(at + 19), 0);
        let record = record_at(order, list@, at);
        let end = at + record_len(order, list@, at);
        if is_dot(name_in(list@, record)) {
            lemma_at(fs, plus, order, list, end);
        }
    }
}

/// The directory itself and its parent are never reported, nor looked up: wherever a listing stands,
/// it is on another entry.
pub proof fn law_dots_are_passed_over(
    fs: FsView,
    plus: Option<Inode>,
    order: ByteOrder,
    list: Vec<u8>,
    at: int,
)
    requires
        0 <= at,
        are_records(order, list@, at),
    ensures
        ReadDir::at(fs, plus, order, list, at) matches Step::Call(_, op) ==> !is_dot(op.name()),
{
    lemma_at(fs, plus, order, list, at);
}

/// No step of a listing comes to the directory itself or its parent.
pub proof fn law_steps_pass_over_dots(op: ReadDir, fs: FsView, reply: Reply)
    requires
        op.wf(),
        op is Read || !is_dot(op.name()),
        op.pending().answered_by(reply),
    ensures
        op.next(fs, reply).1 matches Step::Call(_, then) ==> !is_dot(then.name()),
{
    match op {
        ReadDir::Read { plus, order, .. } => {
            if let Reply::Bytes(list) = reply {
                lemma_at(fs, plus, order, list, 0);
            }
        },
        ReadDir::Add { plus, order, list, record, .. } => {
            lemma_at(fs, plus, order, list, record.end as int);
        },
        _ => {},
    }
}

/// Listing a directory keeps account of files.
pub proof fn law_readdir_accounts_for_files(op: ReadDir, fs: FsView, reply: Reply, f: RawFd)
    requires
        fs.wf(),
        op.wf(),
        op.pending().answered_by(reply),
    ensures
        ({
            let (after, step) = op.next(fs, reply);
            after.holds(f) || (step matches Step::Call(_, op) && op.holds(f)) <==> fs.holds(f)
                || op.holds(f) || reply == Reply::Fd(f)
        }),
{
    match op {
        ReadDir::Read { plus, order, .. } => {
            if let Reply::Bytes(list) = reply {
                lemma_at(fs, plus, order, list, 0);
            }
        },
        ReadDir::Find { lookup, .. } => {
            law_lookup_step_accounts_for_files(lookup, fs, reply, f);
        },
        ReadDir::Add { plus, order, list, record, .. } => {
            lemma_at(fs, plus, order, list, record.end as int);
        },
    }
}

/// A listing reads the directory that the client has open, from the position that it names and as many
/// bytes as it has room for. One without room is done before the host is asked.
pub proof fn law_listing_reads_the_open_directory(
    fs: FsView,
    plus: Option<Inode>,
    inode: Inode,
    handle: Handle,
    fd: RawFd,
    size: u32,
    offset: u64,
    list: Vec<u8>,
    e: i32,
)
    requires
        fs.has_open(inode, handle, fd),
        are_records(fs.machine.order, list@, 0),
    ensures
        size == 0 ==> (readdir_start(fs, plus, inode, handle, size, offset) matches Step::Done(
            Ok(_),
        )),
        size != 0 ==> ({
            &&& readdir_start(fs, plus, inode, handle, size, offset) matches Step::Call(call, op)
            &&& call matches Syscall::GetDents { fd: of, offset: from, size: most, order }
            &&& of == fd
            &&& from == signed(offset)
            &&& most == size
            &&& order == fs.machine.order
            &&& op.next(fs, Reply::Fail(e)).0 == fs
            &&& op.next(fs, Reply::Fail(e)).1 matches Step::Done(Err(err))
            &&& err == FsError::Os(e)
            &&& op.next(fs, Reply::Bytes(list)) == (
                fs,
                ReadDir::at(fs, plus, fs.machine.order, list, 0),
            )
        }),
{
    lemma_signed(offset);
}

/// Wherever a listing stands in its list: at the end it is done; at a record of the directory itself or
/// its parent it is where the next record starts; and any other record is the one that it is on.
pub proof fn law_listing_goes_record_by_record(
    fs: FsView,
    plus: Option<Inode>,
    order: ByteOrder,
    list: Vec<u8>,
    at: int,
)
    requires
        0 <= at,
        are_records(order, list@, at),
    ensures
        ({
            let step = ReadDir::at(fs, plus, order, list, at);
            let record = record_at(order, list@, at);
            let name = list@.subrange(record.name_start as int, record.name_end as int);
            if at == list@.len() {
                step matches Step::Done(Ok(_))
            } else if name == seq![46u8] || name == seq![46u8, 46u8] {
                step == ReadDir::at(fs, plus, order, list, record.end as int)
            } else {
                step == ReadDir::on(fs, plus, order, list, record)
            }
        }),
{
    assert(list.len() == list@.len());
    if at < list@.len() {
        lemma_field_end(list@.skip(at + 19), 0);
    }
}

/// What the client is handed for a record: the record itself, and where the entries are looked up, what
/// the lookup of its name in the directory's own place found. Its name is that of the record.
pub proof fn law_entry_is_looked_up_in_the_directory(
    fs: FsView,
    inode: Inode,
    place: RawFd,
    order: ByteOrder,
    list: Vec<u8>,
    record: DirRecord,
)
    requires
        fs.has_place(inode, place),
    ensures
        ({
            &&& ReadDir::on(fs, None, order, list, record) matches Step::Call(add, plain)
            &&& add == (Syscall::AddEntry { record, entry: None })
            &&& plain == (ReadDir::Add { plus: None, order, list, record, entry: None })
            &&& plain.name() == list@.subrange(record.name_start as int, record.name_end as int)
            &&& ReadDir::on(fs, Some(inode), order, list, record) matches Step::Call(open, op)
            &&& open matches Syscall::OpenAt { dir, path: Path::Name, mode, .. }
            &&& dir == place
            &&& mode == 0
            &&& op matches ReadDir::Find { plus, order: own_order, list: own, record: at, lookup }
            &&& plus == inode
            &&& own_order == order
            &&& own == list
            &&& at == record
            &&& Step::<Lookup, Entry>::Call(open, lookup) == lookup_start(fs, inode)
            &&& op.name() == list@.subrange(record.name_start as int, record.name_end as int)
        }),
{
}

/// A listing that is to look entries up ends where the client no longer knows the directory.
pub proof fn law_no_entry_is_looked_up_without_an_inode(
    fs: FsView,
    inode: Inode,
    order: ByteOrder,
    list: Vec<u8>,
    record: DirRecord,
)
    requires
        !fs.inodes.contains_key(inode),
    ensures
        ReadDir::on(fs, Some(inode), order, list, record) matches Step::Done(Err(e)) && e
            == FsError::Os(EBADF),
{
}

/// The lookup of an entry goes on as any lookup does, and what it found is handed over with the record.
/// One that fails ends the listing.
pub proof fn law_found_entry_is_handed_over(
    fs: FsView,
    inode: Inode,
    order: ByteOrder,
    list: Vec<u8>,
    record: DirRecord,
    lookup: Lookup,
    reply: Reply,
)
    ensures
        ({
            let op = ReadDir::Find { plus: inode, order, list, record, lookup };
            let (found, own) = lookup.next(fs, reply);
            let (after, step) = op.next(fs, reply);
            &&& op.pending() == lookup.pending()
            &&& after == found
            &&& match own {
                Step::Call(_, then) => step == (ReadDir::Find {
                    plus: inode,
                    order,
                    list,
                    record,
                    lookup: then,
                }).wait(),
                Step::Done(Ok(entry)) => step == Step::<ReadDir, ()>::Call(
                    Syscall::AddEntry { record, entry: Some(entry) },
                    ReadDir::Add { plus: Some(inode), order, list, record, entry: Some(entry) },
                ),
                Step::Done(Err(e)) => step == Step::<ReadDir, ()>::Done(Err(e)),
            }
        }),
{
}

/// A listing goes on behind the record that the client took, and ends with the first that it had no
/// room for.
pub proof fn law_listing_ends_when_the_client_is_full(
    fs: FsView,
    plus: Option<Inode>,
    order: ByteOrder,
    list: Vec<u8>,
    record: DirRecord,
    entry: Option<Entry>,
    n: u64,
    e: i32,
)
    ensures
        ({
            let op = ReadDir::Add { plus, order, list, record, entry };
            let (after, step) = op.next(fs, Reply::Num(n));
            &&& op.pending() == (Syscall::AddEntry { record, entry })
            &&& after == fs
            &&& n == 0 ==> (step matches Step::Done(Ok(_)))
            &&& n != 0 ==> step == ReadDir::at(fs, plus, order, list, record.end as int)
            &&& op.next(fs, Reply::Fail(e)).0 == fs
            &&& op.next(fs, Reply::Fail(e)).1 matches Step::Done(Err(err))
            &&& err == FsError::Os(e)
        }),
{
}

} // verus!
