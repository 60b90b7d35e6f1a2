//! Finding a file by its name in a directory.

use crate::abi::{ATTR_SUBMOUNT, STATX_MASK, AT_ITSELF, S_IFDIR, S_IFMT};
use crate::fs::{FsView, InodeData, PassthroughFs, INIT_INODE};
use crate::fs_laws::{law_lookup_accounts_for_files, lemma_release_holds};
use crate::metadata::{get_override_xattr, override_read, ReadOverride};
use crate::model::{stat_of, statx, zero_stat, Entry, FsError, Inode, RawFd, Stat, Statx};
use crate::multikey::InodeAltKey;
use crate::override_stat::{apply_override_stat, seen, OverrideStat};
use crate::step::{
    bare, carries, carry, just_name, Carried, Carrying, Path, Reply, Step, Syscall,
};
use vstd::pervasive::unreached;
use vstd::prelude::*;

verus! {

/// The name of the init program: `init.krun`.
pub const INIT_NAME: [u8; 9] = [105, 110, 105, 116, 46, 107, 114, 117, 110];

/// Looks a name up in a directory: the file is opened, asked for its attributes and its override,
/// and then found among the inodes or given a new one.
#[derive(Clone, Copy, Debug, PartialEq, Eq)]
pub enum Lookup {
    Open { parent: InodeData, flags: i32 },
    Attributes { parent: InodeData, fd: RawFd },
    Override { parent: InodeData, fd: RawFd, stx: Statx, read: ReadOverride },
}

/// The file that a `statx` report is about.
pub open spec fn alt_of(stx: Statx) -> InodeAltKey {
    let st = stat_of(stx);
    InodeAltKey { ino: st.st_ino, dev: st.st_dev, mnt_id: stx.stx_mnt_id }
}

/// Whether the client is told that the file is a mount point: a directory on another device or
/// mount than its parent, if such are announced.
pub open spec fn is_submount(fs: FsView, parent: InodeData, stx: Statx) -> bool {
    &&& stat_of(stx).st_mode & S_IFMT == S_IFDIR
    &&& fs.announce_submounts
    &&& stat_of(stx).st_dev != parent.dev || stx.stx_mnt_id != parent.mnt_id
}

/// What the client is told of a file that was found.
pub open spec fn entry_of(fs: FsView, parent: InodeData, stx: Statx, over: OverrideStat) -> Entry {
    Entry {
        inode: fs.inode_for(alt_of(stx)),
        generation: 0,
        attr: seen(stat_of(stx), over, fs.my_uid, fs.my_gid),
        attr_flags: if is_submount(fs, parent, stx) {
            ATTR_SUBMOUNT
        } else {
            0
        },
        attr_timeout: fs.cfg.attr_timeout,
        entry_timeout: fs.cfg.entry_timeout,
    }
}

impl Lookup {
    /// Whether this lookup has the file `fd` open.
    pub open spec fn holds(self, fd: RawFd) -> bool {
        match self {
            Lookup::Open { .. } => false,
            Lookup::Attributes { fd: own, .. } => own == fd,
            Lookup::Override { fd: own, .. } => own == fd,
        }
    }

    pub open spec fn pending(self) -> Syscall {
        match self {
            Lookup::Open { parent, flags } => Syscall::OpenAt {
                dir: parent.fd,
                path: Path::Name,
                flags,
                mode: 0,
            },
            Lookup::Attributes { fd, .. } => Syscall::Statx {
                fd,
                flags: AT_ITSELF,
                mask: STATX_MASK,
            },
            Lookup::Override { read, .. } => read.pending(),
        }
    }

    pub open spec fn wait(self) -> Step<Lookup, Entry> {
        Step::Call(self.pending(), self)
    }

    pub open spec fn next(self, fs: FsView, reply: Reply) -> (FsView, Step<Lookup, Entry>) {
        match self {
            Lookup::Open { parent, .. } => match reply {
                Reply::Fail(e) => (fs, Step::Done(Err(FsError::Os(e)))),
                Reply::Fd(fd) => (fs, Lookup::Attributes { parent, fd }.wait()),
                _ => arbitrary(),
            },
            Lookup::Attributes { parent, fd } => match reply {
                Reply::Fail(e) => (fs.releasing(fd), Step::Done(Err(FsError::Os(e)))),
                Reply::Statx(stx) => (
                    fs,
                    Lookup::Override { parent, fd, stx, read: ReadOverride::Kind { fd } }.wait(),
                ),
                _ => arbitrary(),
            },
            Lookup::Override { parent, fd, stx, read } => match read.next(reply) {
                Step::Call(_, read) => (fs, Lookup::Override { parent, fd, stx, read }.wait()),
                Step::Done(Err(e)) => (fs.releasing(fd), Step::Done(Err(e))),
                Step::Done(Ok(over)) => (
                    fs.interned(alt_of(stx), fd),
                    Step::Done(Ok(entry_of(fs, parent, stx, over))),
                ),
            },
        }
    }

    /// Where this stands after a number of replies; those after the last step do not matter.
    pub open spec fn run(self, fs: FsView, replies: Seq<Reply>) -> (FsView, Step<Lookup, Entry>)
        decreases replies.len(),
    {
        if replies.len() == 0 {
            (fs, self.wait())
        } else {
            let (fs, step) = self.next(fs, replies[0]);
            match step {
                Step::Call(_, then) => then.run(fs, replies.skip(1)),
                done => (fs, done),
            }
        }
    }

    fn finish(
        fs: &mut PassthroughFs,
        parent: InodeData,
        fd: RawFd,
        stx: Statx,
        over: OverrideStat,
    ) -> (entry: Entry)
        requires
            old(fs).wf(),
        ensures
            final(fs).wf(),
            final(fs)@ == old(fs)@.interned(alt_of(stx), fd),
            entry == entry_of(old(fs)@, parent, stx, over),
    {
        let (st, mnt_id) = statx(&stx);
        let (uid, gid, mode) = over;
        let attr = apply_override_stat(st, uid, gid, mode, fs.my_uid(), fs.my_gid());
        let mut attr_flags: u32 = 0;
        if st.st_mode & S_IFMT == S_IFDIR && fs.announce_submounts() && (st.st_dev != parent.dev
            || mnt_id != parent.mnt_id) {
            attr_flags = ATTR_SUBMOUNT;
        }
        let inode: Inode = fs.intern(InodeAltKey { ino: st.st_ino, dev: st.st_dev, mnt_id }, fd);
        Entry {
            inode,
            generation: 0,
            attr,
            attr_flags,
            attr_timeout: fs.cfg().attr_timeout,
            entry_timeout: fs.cfg().entry_timeout,
        }
    }

    pub fn resume(self, fs: &mut PassthroughFs, reply: Reply) -> (step: Step<Lookup, Entry>)
        requires
            old(fs).wf(),
            self.pending().answered_by(reply),
        ensures
            final(fs).wf(),
            (final(fs)@, step) == self.next(old(fs)@, reply),
    {
        match self {
            Lookup::Open { parent, flags: _ } => match reply {
                Reply::Fail(e) => Step::Done(Err(FsError::from_raw_os_error(e))),
                Reply::Fd(fd) => Step::Call(
                    Syscall::Statx { fd, flags: AT_ITSELF, mask: STATX_MASK },
                    Lookup::Attributes { parent, fd },
                ),
                _ => unreached(),
            },
            Lookup::Attributes { parent, fd } => match reply {
                Reply::Fail(e) => {
                    fs.release_fd(fd);
                    Step::Done(Err(FsError::from_raw_os_error(e)))
                },
                Reply::Statx(stx) => match get_override_xattr(fd) {
                    Step::Call(call, read) => Step::Call(
                        call,
                        Lookup::Override { parent, fd, stx, read },
                    ),
                    _ => unreached(),
                },
                _ => unreached(),
            },
            Lookup::Override { parent, fd, stx, read } => match read.resume(reply) {
                Step::Call(call, read) => Step::Call(
                    call,
                    Lookup::Override { parent, fd, stx, read },
                ),
                Step::Done(Err(e)) => {
                    fs.release_fd(fd);
                    Step::Done(Err(e))
                },
                Step::Done(Ok(over)) => {
                    let entry = Lookup::finish(fs, parent, fd, stx, over);
                    Step::Done(Ok(entry))
                },
            },
        }
    }
}

impl Carrying<Lookup> {
    pub fn resume(self, fs: &mut PassthroughFs, reply: Reply) -> (step: Step<
        Carrying<Lookup>,
        Entry,
    >)
        requires
            old(fs).wf(),
            self.op.pending().answered_by(reply),
        ensures
            final(fs).wf(),
            (final(fs)@, bare(step)) == self.op.next(old(fs)@, reply),
            carries(step, self.carried@),
    {
        carry(self.op.resume(fs, reply), self.carried)
    }
}

/// How a lookup in `parent` starts.
pub open spec fn lookup_start(fs: FsView, parent: Inode) -> Step<Lookup, Entry> {
    match fs.find_inode(parent) {
        Ok(parent) => Lookup::Open { parent, flags: fs.machine.open_place() }.wait(),
        Err(e) => Step::Done(Err(e)),
    }
}

/// What the client is told of the init program: a file of its size that all may run.
pub open spec fn init_entry(fs: FsView) -> Entry {
    Entry {
        inode: INIT_INODE,
        generation: 0,
        attr: Stat {
            st_size: fs.init_len as i64,
            st_ino: INIT_INODE,
            st_mode: 0o100755,
            ..zero_stat()
        },
        attr_flags: 0,
        attr_timeout: fs.cfg.attr_timeout,
        entry_timeout: fs.cfg.entry_timeout,
    }
}

/// How a lookup of `name` in `parent` starts.
pub open spec fn named_start(fs: FsView, parent: Inode, name: Seq<u8>) -> Step<Lookup, Entry> {
    if name == INIT_NAME@ {
        Step::Done(Ok(init_entry(fs)))
    } else {
        lookup_start(fs, parent)
    }
}

fn is_init_name(name: &[u8]) -> (same: bool)
    ensures
        same == (name@ == INIT_NAME@),
{
    if name.len() != 9 {
        return false;
    }
    let mut i: usize = 0;
    while i < 9
        invariant
            i <= 9,
            name@.len() == 9,
            forall|k: int| 0 <= k < i ==> name@[k] == INIT_NAME@[k],
        decreases 9 - i,
    {
        if name[i] != INIT_NAME[i] {
            return false;
        }
        i = i + 1;
    }
    assert(name@ =~= INIT_NAME@);
    true
}

impl PassthroughFs {
    /// Starts to look a name up in `parent`.
    pub fn do_lookup(&self, parent: Inode) -> (step: Step<Lookup, Entry>)
        ensures
            step == lookup_start(self@, parent),
    {
        match self.inode_data(parent) {
            Ok(parent) => {
                let flags: i32 = self.machine().open_place();
                Step::Call(
                    Syscall::OpenAt { dir: parent.fd, path: Path::Name, flags, mode: 0 },
                    Lookup::Open { parent, flags },
                )
            },
            Err(e) => Step::Done(Err(e)),
        }
    }

    /// Looks `name` up in `parent`. The init program is found under its name in every directory.
    pub fn lookup(&self, parent: Inode, name: &[u8]) -> (step: Step<Carrying<Lookup>, Entry>)
        ensures
            bare(step) == named_start(self@, parent, name@),
            carries(step, just_name(name@)),
    {
        if is_init_name(name) {
            let mut st = Stat::zeroed();
            st.st_size = #[verifier::truncate]
            (self.init_len() as i64);
            st.st_ino = INIT_INODE;
            st.st_mode = 0o100755;
            Step::Done(
                Ok(
                    Entry {
                        inode: INIT_INODE,
                        generation: 0,
                        attr: st,
                        attr_flags: 0,
                        attr_timeout: self.cfg().attr_timeout,
                        entry_timeout: self.cfg().entry_timeout,
                    },
                ),
            )
        } else {
            carry(self.do_lookup(parent), Carried::named(name))
        }
    }
}

/// A lookup that comes to its end gives the client one more reference to the file's inode, one that
/// the client may use from then on; a lookup that fails changes no inode.
pub proof fn law_found_inode_is_known(
    fs: FsView,
    parent: InodeData,
    fd: RawFd,
    stx: Statx,
    read: ReadOverride,
    reply: Reply,
)
    requires
        fs.wf(),
        read.pending().answered_by(reply),
    ensures
        ({
            let (after, step) = Lookup::Override { parent, fd, stx, read }.next(fs, reply);
            match step {
                Step::Call(..) => after == fs,
                Step::Done(Err(_)) => after == fs.releasing(fd),
                Step::Done(Ok(entry)) => {
                    &&& after.wf()
                    &&& after.inodes.contains_key(entry.inode)
                    &&& after.inodes[entry.inode].0 == alt_of(stx)
                    &&& after.inode_for(alt_of(stx)) == entry.inode
                },
            }
        }),
{
    crate::fs_laws::law_looked_up_file_is_known(fs, alt_of(stx), fd);
}

/// A lookup keeps account of files: what the host opened is held by the lookup until an inode has it
/// or it is to be closed, and nothing else is.
pub proof fn law_lookup_step_accounts_for_files(op: Lookup, fs: FsView, reply: Reply, f: RawFd)
    requires
        fs.wf(),
        op.pending().answered_by(reply),
    ensures
        ({
            let (after, step) = op.next(fs, reply);
            after.holds(f) || (step matches Step::Call(_, op) && op.holds(f)) <==> fs.holds(f)
                || op.holds(f) || reply == Reply::Fd(f)
        }),
{
    if let Lookup::Override { parent, fd, stx, read } = op {
        if read.next(reply) matches Step::Done(Ok(_)) {
            law_lookup_accounts_for_files(fs, alt_of(stx), fd, f);
        }
        lemma_release_holds(fs, Some(fd), f);
    } else if let Lookup::Attributes { parent, fd } = op {
        lemma_release_holds(fs, Some(fd), f);
    }
}

/// The whole of a lookup that the host lets succeed: what the client is told, and the state after it,
/// from the replies to the calls that are made. Where the override cannot be read the file is to be
/// closed, and nothing else changes.
pub proof fn law_lookup_from_start_to_end(
    fs: FsView,
    parent: InodeData,
    fd: RawFd,
    stx: Statx,
    kind: Reply,
    by_fd: Reply,
    by_path: Reply,
)
    requires
        (ReadOverride::Kind { fd }).pending().answered_by(kind),
        (ReadOverride::ByFd { fd }).pending().answered_by(by_fd),
        (ReadOverride::ByPath { fd }).pending().answered_by(by_path),
    ensures
        (Lookup::Open { parent, flags: fs.machine.open_place() }).run(
            fs,
            seq![Reply::Fd(fd), Reply::Statx(stx), kind, by_fd, by_path],
        ) == (match override_read(kind, by_fd, by_path) {
            Ok(over) => (
                fs.interned(alt_of(stx), fd),
                Step::<Lookup, Entry>::Done(Ok(entry_of(fs, parent, stx, over))),
            ),
            Err(e) => (fs.releasing(fd), Step::Done(Err(e))),
        }),
{
    reveal_with_fuel(Lookup::run, 6);
    let replies = seq![Reply::Fd(fd), Reply::Statx(stx), kind, by_fd, by_path];
    assert(replies.skip(1) =~= seq![Reply::Statx(stx), kind, by_fd, by_path]);
    assert(seq![Reply::Statx(stx), kind, by_fd, by_path].skip(1) =~= seq![kind, by_fd, by_path]);
    assert(seq![kind, by_fd, by_path].skip(1) =~= seq![by_fd, by_path]);
    assert(seq![by_fd, by_path].skip(1) =~= seq![by_path]);
}

} // verus!
