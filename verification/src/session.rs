//! Starting the file system, and agreeing with the client on what it offers.

use crate::abi::{
    AT_ITSELF, FS_CREATE_SUPP_GROUP, FS_DO_READDIRPLUS, FS_READDIRPLUS_AUTO, FS_SUBMOUNTS,
    FS_WRITEBACK_CACHE, O_CLOEXEC, O_PATH, ROOT_ID, STATX_MASK,
};
use crate::config::Config;
use crate::fs::{fresh_view, FsView, PassthroughFs};
use crate::fs_laws::{law_root_accounts_for_files, lemma_release_holds, lemma_same_tables};
use crate::lookup::alt_of;
use crate::model::{device_number, statx, FsError, Handle, Inode, Machine, RawFd, Statx};
use crate::multikey::InodeAltKey;
use crate::step::{
    bare, carries, carry, just_name, Carried, Carrying, HostCap, Reply, Step, Syscall,
};
use vstd::pervasive::unreached;
use vstd::prelude::*;

verus! {

/// Mounts the file system: the root directory is opened and becomes the first inode.
#[derive(Clone, Copy, Debug, PartialEq, Eq)]
pub enum Init {
    Open { capable: u64, flags: i32 },
    Attributes { capable: u64, fd: RawFd },
    /// Clears the mask of file modes, so that the client can set all bits.
    ClearMask { capable: u64, fd: RawFd, stx: Statx },
}

pub open spec fn offers(capable: u64, option: u64) -> bool {
    capable & option == option
}

/// Whether the client may cache writes: if it can and the file system is set up for it.
pub open spec fn uses_writeback(cfg: Config, capable: u64) -> bool {
    cfg.writeback && offers(capable, FS_WRITEBACK_CACHE)
}

/// What is agreed on with a client that is capable of `capable`.
pub open spec fn agreed(cfg: Config, capable: u64) -> u64 {
    FS_DO_READDIRPLUS | FS_READDIRPLUS_AUTO | (if uses_writeback(cfg, capable) {
        FS_WRITEBACK_CACHE
    } else {
        0
    }) | (if offers(capable, FS_SUBMOUNTS) {
        FS_SUBMOUNTS
    } else {
        0
    }) | (if offers(capable, FS_CREATE_SUPP_GROUP) {
        FS_CREATE_SUPP_GROUP
    } else {
        0
    })
}

/// The state once the root directory is known.
pub open spec fn mounted(fs: FsView, capable: u64, stx: Statx, fd: RawFd) -> FsView {
    let with_root = fs.with_root(alt_of(stx), fd);
    FsView {
        writeback: with_root.writeback || uses_writeback(fs.cfg, capable),
        announce_submounts: with_root.announce_submounts || offers(capable, FS_SUBMOUNTS),
        supplementary_group_extension: with_root.supplementary_group_extension || offers(
            capable,
            FS_CREATE_SUPP_GROUP,
        ),
        ..with_root
    }
}

impl Init {
    /// Whether this request has the file `fd` open.
    pub open spec fn holds(self, fd: RawFd) -> bool {
        match self {
            Init::Open { .. } => false,
            Init::Attributes { fd: own, .. } => own == fd,
            Init::ClearMask { fd: own, .. } => own == fd,
        }
    }

    pub open spec fn pending(self) -> Syscall {
        match self {
            Init::Open { flags, .. } => Syscall::OpenRoot { flags },
            Init::Attributes { fd, .. } => Syscall::Statx {
                fd,
                flags: AT_ITSELF,
                mask: STATX_MASK,
            },
            Init::ClearMask { .. } => Syscall::Umask { mask: 0 },
        }
    }

    pub open spec fn wait(self) -> Step<Init, u64> {
        Step::Call(self.pending(), self)
    }

    pub open spec fn next(self, fs: FsView, reply: Reply) -> (FsView, Step<Init, u64>) {
        match self {
            Init::Open { capable, .. } => match reply {
                Reply::Fail(e) => (fs, Step::Done(Err(FsError::Os(e)))),
                Reply::Fd(fd) => (fs, Init::Attributes { capable, fd }.wait()),
                _ => arbitrary(),
            },
            Init::Attributes { capable, fd } => match reply {
                Reply::Fail(e) => (fs.releasing(fd), Step::Done(Err(FsError::Os(e)))),
                Reply::Statx(stx) => (fs, Init::ClearMask { capable, fd, stx }.wait()),
                _ => arbitrary(),
            },
            Init::ClearMask { capable, fd, stx } => (
                mounted(fs, capable, stx, fd),
                Step::Done(Ok(agreed(fs.cfg, capable))),
            ),
        }
    }

    fn mount(fs: &mut PassthroughFs, capable: u64, stx: Statx, fd: RawFd) -> (opts: u64)
        requires
            old(fs).wf(),
        ensures
            final(fs).wf(),
            final(fs)@ == mounted(old(fs)@, capable, stx, fd),
            opts == agreed(old(fs)@.cfg, capable),
    {
        let (st, mnt_id) = statx(&stx);
        fs.set_root(InodeAltKey { ino: st.st_ino, dev: st.st_dev, mnt_id }, fd);
        let writeback = fs.cfg().writeback && capable & FS_WRITEBACK_CACHE == FS_WRITEBACK_CACHE;
        let submounts = capable & FS_SUBMOUNTS == FS_SUBMOUNTS;
        let supp_group = capable & FS_CREATE_SUPP_GROUP == FS_CREATE_SUPP_GROUP;
        fs.enable(writeback, submounts, supp_group);
        FS_DO_READDIRPLUS | FS_READDIRPLUS_AUTO | (if writeback {
            FS_WRITEBACK_CACHE
        } else {
            0
        }) | (if submounts {
            FS_SUBMOUNTS
        } else {
            0
        }) | (if supp_group {
            FS_CREATE_SUPP_GROUP
        } else {
            0
        })
    }

    pub fn resume(self, fs: &mut PassthroughFs, reply: Reply) -> (step: Step<Init, u64>)
        requires
            old(fs).wf(),
            self.pending().answered_by(reply),
        ensures
            final(fs).wf(),
            (final(fs)@, step) == self.next(old(fs)@, reply),
    {
        match self {
            Init::Open { capable, flags: _ } => match reply {
                Reply::Fail(e) => Step::Done(Err(FsError::from_raw_os_error(e))),
                Reply::Fd(fd) => Step::Call(
                    Syscall::Statx { fd, flags: AT_ITSELF, mask: STATX_MASK },
                    Init::Attributes { capable, fd },
                ),
                _ => unreached(),
            },
            Init::Attributes { capable, fd } => match reply {
                Reply::Fail(e) => {
                    fs.release_fd(fd);
                    Step::Done(Err(FsError::from_raw_os_error(e)))
                },
                Reply::Statx(stx) => Step::Call(
                    Syscall::Umask { mask: 0 },
                    Init::ClearMask { capable, fd, stx },
                ),
                _ => unreached(),
            },
            Init::ClearMask { capable, fd, stx } => {
                let opts: u64 = Init::mount(fs, capable, stx, fd);
                Step::Done(Ok(opts))
            },
        }
    }
}

impl Carrying<Init> {
    pub fn resume(self, fs: &mut PassthroughFs, reply: Reply) -> (step: Step<Carrying<Init>, u64>)
        requires
            old(fs).wf(),
            self.op.pending().answered_by(reply),
        ensures
            final(fs).wf(),
            (final(fs)@, bare(step)) == self.op.next(old(fs)@, reply),
            carries(step, self.carried@),
    {
        carry(self.op.resume(fs, reply), self.carried)
    }
}

/// What a file system is set up with.
#[derive(Debug)]
pub struct Setup {
    pub cfg: Config,
    /// The length of the init program.
    pub init_len: usize,
    pub machine: Machine,
}

/// Sets a file system up. It asks for the capabilities that matter, and for the user and the group of
/// this process where it may not act as any other.
#[allow(inconsistent_fields)]
#[derive(Debug)]
pub enum NewFs {
    OpenProc { setup: Setup },
    MaySetuid { setup: Setup, fd: RawFd },
    Uid { setup: Setup, fd: RawFd },
    MaySetgid { setup: Setup, fd: RawFd, my_uid: Option<u32> },
    Gid { setup: Setup, fd: RawFd, my_uid: Option<u32> },
    MayFowner { setup: Setup, fd: RawFd, my_uid: Option<u32>, my_gid: Option<u32> },
}

/// Where the setup stands once the file system itself is there. It is a value of the library, of
/// which the contracts speak by its view.
pub enum NewView {
    Call(Syscall, NewFs),
    Ready(FsView),
    Failed(FsError),
}

/// A step of the setup, as the contracts speak of it.
pub open spec fn new_viewed(step: Step<NewFs, PassthroughFs>) -> NewView {
    match step {
        Step::Call(call, op) => NewView::Call(call, op),
        Step::Done(Ok(fs)) => NewView::Ready(fs@),
        Step::Done(Err(e)) => NewView::Failed(e),
    }
}

impl NewFs {
    pub open spec fn pending(self) -> Syscall {
        match self {
            NewFs::OpenProc { setup } => Syscall::OpenProcSelfFd {
                flags: setup.machine.open_place(),
            },
            NewFs::MaySetuid { .. } => Syscall::HasCap { cap: HostCap::Setuid },
            NewFs::Uid { .. } => Syscall::GetUid,
            NewFs::MaySetgid { .. } => Syscall::HasCap { cap: HostCap::Setgid },
            NewFs::Gid { .. } => Syscall::GetGid,
            NewFs::MayFowner { .. } => Syscall::HasCap { cap: HostCap::Fowner },
        }
    }

    pub open spec fn wait(self) -> NewView {
        NewView::Call(self.pending(), self)
    }

    /// What comes of the reply. Where this process may act as any user its own does not matter, and
    /// so with its group.
    pub open spec fn next(self, reply: Reply) -> NewView {
        match (self, reply) {
            (_, Reply::Fail(e)) => NewView::Failed(FsError::Os(e)),
            (NewFs::OpenProc { setup }, Reply::Fd(fd)) => NewFs::MaySetuid { setup, fd }.wait(),
            (NewFs::MaySetuid { setup, fd }, Reply::Held(held)) => if held {
                NewFs::MaySetgid { setup, fd, my_uid: None }.wait()
            } else {
                NewFs::Uid { setup, fd }.wait()
            },
            (NewFs::Uid { setup, fd }, Reply::Num(uid)) => NewFs::MaySetgid {
                setup,
                fd,
                my_uid: Some(uid as u32),
            }.wait(),
            (NewFs::MaySetgid { setup, fd, my_uid }, Reply::Held(held)) => if held {
                NewFs::MayFowner { setup, fd, my_uid, my_gid: None }.wait()
            } else {
                NewFs::Gid { setup, fd, my_uid }.wait()
            },
            (NewFs::Gid { setup, fd, my_uid }, Reply::Num(gid)) => NewFs::MayFowner {
                setup,
                fd,
                my_uid,
                my_gid: Some(gid as u32),
            }.wait(),
            (NewFs::MayFowner { setup, fd, my_uid, my_gid }, Reply::Held(held)) => NewView::Ready(
                fresh_view(setup.cfg, setup.init_len, setup.machine, fd, my_uid, my_gid, held),
            ),
            _ => arbitrary(),
        }
    }

    fn ask_setgid(setup: Setup, fd: RawFd, my_uid: Option<u32>) -> (step: Step<
        NewFs,
        PassthroughFs,
    >)
        ensures
            new_viewed(step) == (NewFs::MaySetgid { setup, fd, my_uid }).wait(),
    {
        Step::Call(
            Syscall::HasCap { cap: HostCap::Setgid },
            NewFs::MaySetgid { setup, fd, my_uid },
        )
    }

    fn ask_fowner(setup: Setup, fd: RawFd, my_uid: Option<u32>, my_gid: Option<u32>) -> (step: Step<
        NewFs,
        PassthroughFs,
    >)
        ensures
            new_viewed(step) == (NewFs::MayFowner { setup, fd, my_uid, my_gid }).wait(),
    {
        Step::Call(
            Syscall::HasCap { cap: HostCap::Fowner },
            NewFs::MayFowner { setup, fd, my_uid, my_gid },
        )
    }

    /// Goes on with the setup.
    pub fn resume(self, reply: Reply) -> (step: Step<NewFs, PassthroughFs>)
        requires
            self.pending().answered_by(reply),
        ensures
            new_viewed(step) == self.next(reply),
            step matches Step::Done(Ok(fs)) ==> fs.wf(),
    {
        match self {
            NewFs::OpenProc { setup } => match reply {
                Reply::Fail(e) => Step::Done(Err(FsError::from_raw_os_error(e))),
                Reply::Fd(fd) => Step::Call(
                    Syscall::HasCap { cap: HostCap::Setuid },
                    NewFs::MaySetuid { setup, fd },
                ),
                _ => unreached(),
            },
            NewFs::MaySetuid { setup, fd } => match reply {
                Reply::Held(held) => if held {
                    NewFs::ask_setgid(setup, fd, None)
                } else {
                    Step::Call(Syscall::GetUid, NewFs::Uid { setup, fd })
                },
                _ => unreached(),
            },
            NewFs::Uid { setup, fd } => match reply {
                Reply::Num(uid) => NewFs::ask_setgid(setup, fd, Some(uid as u32)),
                _ => unreached(),
            },
            NewFs::MaySetgid { setup, fd, my_uid } => match reply {
                Reply::Held(held) => if held {
                    NewFs::ask_fowner(setup, fd, my_uid, None)
                } else {
                    Step::Call(Syscall::GetGid, NewFs::Gid { setup, fd, my_uid })
                },
                _ => unreached(),
            },
            NewFs::Gid { setup, fd, my_uid } => match reply {
                Reply::Num(gid) => NewFs::ask_fowner(setup, fd, my_uid, Some(gid as u32)),
                _ => unreached(),
            },
            NewFs::MayFowner { setup, fd, my_uid, my_gid } => match reply {
                Reply::Held(held) => Step::Done(
                    Ok(
                        PassthroughFs::with_host(
                            setup.cfg,
                            setup.init_len,
                            setup.machine,
                            fd,
                            my_uid,
                            my_gid,
                            held,
                        ),
                    ),
                ),
                _ => unreached(),
            },
        }
    }
}

/// How a setup starts.
pub open spec fn setup_start(setup: Setup) -> NewView {
    match setup.cfg.proc_sfd_rawfd {
        None => NewFs::OpenProc { setup }.wait(),
        Some(fd) => NewFs::MaySetuid { setup, fd }.wait(),
    }
}

/// How mounting starts.
pub open spec fn init_start(fs: FsView, capable: u64) -> Step<Init, u64> {
    Init::Open { capable, flags: fs.machine.open_place() }.wait()
}

impl PassthroughFs {
    /// Sets a file system up that offers an init program of `init_len` bytes. Unless the options
    /// name a file for it, `/proc/self/fd` is opened first.
    pub fn new(cfg: Config, init_len: usize, machine: Machine) -> (step: Step<NewFs, PassthroughFs>)
        ensures
            new_viewed(step) == setup_start(Setup { cfg, init_len, machine }),
    {
        match cfg.proc_sfd_rawfd {
            None => Step::Call(
                Syscall::OpenProcSelfFd { flags: machine.open_place() },
                NewFs::OpenProc { setup: Setup { cfg, init_len, machine } },
            ),
            Some(fd) => Step::Call(
                Syscall::HasCap { cap: HostCap::Setuid },
                NewFs::MaySetuid { setup: Setup { cfg, init_len, machine }, fd },
            ),
        }
    }

    /// Mounts the file system for a client that is capable of `capable`. What comes back at the end
    /// is what both agree on.
    pub fn init(&self, capable: u64) -> (step: Step<Carrying<Init>, u64>)
        requires
            !self@.cfg.root_dir@.contains('\0'),
        ensures
            bare(step) == init_start(self@, capable),
            carries(step, just_name(self@.cfg.root_path())),
    {
        let flags: i32 = self.machine().open_place();
        carry(
            Step::Call(Syscall::OpenRoot { flags }, Init::Open { capable, flags }),
            Carried::named(self.cfg().root_bytes()),
        )
    }
}

/// A file system is set up by what the host says of this process: it keeps in mind its user unless it
/// may act as any, its group unless it may act as any, and whether it may do what only the owner of a
/// file may. Nothing after the opening of `/proc/self/fd` fails.
pub proof fn law_setup_follows_the_host(
    setup: Setup,
    fd: RawFd,
    setuid: bool,
    uid: u64,
    setgid: bool,
    gid: u64,
    fowner: bool,
)
    requires
        uid <= u32::MAX,
        gid <= u32::MAX,
    ensures
        ({
            let my_uid = if setuid {
                None
            } else {
                Some(uid as u32)
            };
            let my_gid = if setgid {
                None
            } else {
                Some(gid as u32)
            };
            let may_setgid = NewFs::MaySetgid { setup, fd, my_uid };
            let may_fowner = NewFs::MayFowner { setup, fd, my_uid, my_gid };
            &&& NewFs::OpenProc { setup }.next(Reply::Fd(fd)) == (NewFs::MaySetuid {
                setup,
                fd,
            }).wait()
            &&& NewFs::MaySetuid { setup, fd }.next(Reply::Held(setuid)) == if setuid {
                may_setgid.wait()
            } else {
                (NewFs::Uid { setup, fd }).wait()
            }
            &&& !setuid ==> NewFs::Uid { setup, fd }.next(Reply::Num(uid)) == may_setgid.wait()
            &&& may_setgid.next(Reply::Held(setgid)) == if setgid {
                may_fowner.wait()
            } else {
                (NewFs::Gid { setup, fd, my_uid }).wait()
            }
            &&& !setgid ==> NewFs::Gid { setup, fd, my_uid }.next(Reply::Num(gid))
                == may_fowner.wait()
            &&& may_fowner.next(Reply::Held(fowner)) == NewView::Ready(
                fresh_view(setup.cfg, setup.init_len, setup.machine, fd, my_uid, my_gid, fowner),
            )
        }),
{
}

/// Nothing is agreed on that the client is not capable of, besides the two ways of listing
/// directories that are always offered, and nothing that is not named here. Mount points and supplementary groups are agreed on with
/// every client that is capable of them, cached writes only where the options allow them too.
pub proof fn law_only_offered_options_are_agreed_on(cfg: Config, capable: u64)
    ensures
        agreed(cfg, capable) & !(FS_DO_READDIRPLUS | FS_READDIRPLUS_AUTO) & !capable == 0,
        agreed(cfg, capable) & !(FS_DO_READDIRPLUS | FS_READDIRPLUS_AUTO | FS_WRITEBACK_CACHE
            | FS_SUBMOUNTS | FS_CREATE_SUPP_GROUP) == 0,
        agreed(cfg, capable) & FS_DO_READDIRPLUS != 0,
        agreed(cfg, capable) & FS_READDIRPLUS_AUTO != 0,
        agreed(cfg, capable) & FS_WRITEBACK_CACHE != 0 <==> uses_writeback(cfg, capable),
        agreed(cfg, capable) & FS_SUBMOUNTS != 0 <==> offers(capable, FS_SUBMOUNTS),
        agreed(cfg, capable) & FS_CREATE_SUPP_GROUP != 0 <==> offers(capable, FS_CREATE_SUPP_GROUP),
{
    let w: u64 = if uses_writeback(cfg, capable) {
        0x10000
    } else {
        0
    };
    let s: u64 = if offers(capable, FS_SUBMOUNTS) {
        0x8000000
    } else {
        0
    };
    let g: u64 = if offers(capable, FS_CREATE_SUPP_GROUP) {
        0x400000000
    } else {
        0
    };
    let all = 0x2000u64 | 0x4000u64 | w | s | g;
    assert(all == agreed(cfg, capable));
    assert(w == 0 || capable & 0x10000 == 0x10000);
    assert(s == 0 || capable & 0x8000000 == 0x8000000);
    assert(g == 0 || capable & 0x400000000 == 0x400000000);
    assert((0x2000u64 | 0x4000u64 | w | s | g) & !(0x2000u64 | 0x4000u64) & !capable == 0 && (
    0x2000u64 | 0x4000u64 | w | s | g) & !(0x2000u64 | 0x4000u64 | 0x10000 | 0x8000000 | 0x400000000)
        == 0 && (0x2000u64 | 0x4000u64 | w | s | g) & 0x2000u64 != 0 && (0x2000u64 | 0x4000u64 | w | s | g)
        & 0x4000u64 != 0 && ((0x2000u64 | 0x4000u64 | w | s | g) & 0x10000u64 != 0 <==> w != 0) && (
    (0x2000u64 | 0x4000u64 | w | s | g) & 0x8000000u64 != 0 <==> s != 0) && ((0x2000u64 | 0x4000u64
        | w | s | g) & 0x400000000u64 != 0 <==> g != 0)) by (bit_vector)
        requires
            w == 0 || (w == 0x10000 && capable & 0x10000 == 0x10000),
            s == 0 || (s == 0x8000000 && capable & 0x8000000 == 0x8000000),
            g == 0 || (g == 0x400000000 && capable & 0x400000000 == 0x400000000),
    ;
}

/// Writes are cached only where the options allow it.
pub proof fn law_writeback_needs_both_sides(fs: FsView, capable: u64, stx: Statx, fd: RawFd)
    requires
        !fs.writeback,
    ensures
        mounted(fs, capable, stx, fd).writeback <==> fs.cfg.writeback && offers(
            capable,
            FS_WRITEBACK_CACHE,
        ),
{
}

/// Mounting keeps account of files: the root directory stays open as an inode, or is to be closed.
pub proof fn law_init_accounts_for_files(op: Init, fs: FsView, reply: Reply, f: RawFd)
    requires
        fs.wf(),
        op.pending().answered_by(reply),
    ensures
        ({
            let (after, step) = op.next(fs, reply);
            after.holds(f) || (step matches Step::Call(_, op) && op.holds(f)) <==> fs.holds(f)
                || op.holds(f) || reply == Reply::Fd(f)
        }),
{
    match op {
        Init::Open { .. } => {},
        Init::Attributes { fd, .. } => {
            lemma_release_holds(fs, Some(fd), f);
        },
        Init::ClearMask { capable, fd, stx } => {
            law_root_accounts_for_files(fs, alt_of(stx), fd, f);
            let with_root = fs.with_root(alt_of(stx), fd);
            let after = mounted(fs, capable, stx, fd);
            assert(after.inodes == with_root.inodes);
            assert(after.handles == with_root.handles);
            assert(after.released == with_root.released);
            lemma_same_tables(with_root, after, f);
        },
    }
}

/// Once mounted, the client knows the root directory, with two references to it.
pub proof fn law_root_is_known_once_mounted(fs: FsView, capable: u64, stx: Statx, fd: RawFd)
    requires
        fs.wf(),
    ensures
        mounted(fs, capable, stx, fd).wf(),
        mounted(fs, capable, stx, fd).find_inode(ROOT_ID) matches Ok(data) && data.fd == fd
            && data.refcount == 2,
{
}

/// Mounting opens the root directory as a place in the tree, asks the host about it, and clears the mask
/// of file modes; then it is the first inode. Its file is the one that the host opened, and it has two
/// references. What the host refuses ends the request, and a file that was opened is then to be closed.
pub proof fn law_mounting_makes_the_root_known(
    fs: FsView,
    capable: u64,
    flags: i32,
    fd: RawFd,
    stx: Statx,
    e: i32,
)
    requires
        fs.wf(),
    ensures
        ({
            let start = Init::Open { capable, flags };
            let ask = Init::Attributes { capable, fd };
            let clear = Init::ClearMask { capable, fd, stx };
            let closed = FsView { released: fs.released.push(fd), ..fs };
            let dev = device_number(stx.stx_dev_major, stx.stx_dev_minor);
            &&& init_start(fs, capable) == (Init::Open {
                capable,
                flags: O_PATH | fs.machine.o_nofollow | O_CLOEXEC,
            }).wait()
            &&& start.pending() == (Syscall::OpenRoot { flags })
            &&& ask.pending() == (Syscall::Statx { fd, flags: AT_ITSELF, mask: STATX_MASK })
            &&& clear.pending() == (Syscall::Umask { mask: 0 })
            &&& start.next(fs, Reply::Fail(e)) == (
                fs,
                Step::<Init, u64>::Done(Err(FsError::Os(e))),
            )
            &&& start.next(fs, Reply::Fd(fd)) == (fs, Step::<Init, u64>::Call(ask.pending(), ask))
            &&& ask.next(fs, Reply::Fail(e)) == (
                closed,
                Step::<Init, u64>::Done(Err(FsError::Os(e))),
            )
            &&& ask.next(fs, Reply::Statx(stx)) == (
                fs,
                Step::<Init, u64>::Call(clear.pending(), clear),
            )
            &&& clear.next(fs, Reply::Unit).1 matches Step::Done(Ok(opts))
            &&& opts == agreed(fs.cfg, capable)
            &&& is_root(
                clear.next(fs, Reply::Unit).0,
                InodeAltKey { ino: stx.stx_ino, dev, mnt_id: stx.stx_mnt_id },
                fd,
            )
            &&& clear.next(fs, Reply::Unit).0.handles == fs.handles
            &&& clear.next(fs, Reply::Unit).0.next_inode == fs.next_inode
            &&& clear.next(fs, Reply::Unit).0.next_handle == fs.next_handle
            &&& forall|other: Inode|
                other != ROOT_ID && #[trigger] clear.next(
                    fs,
                    Reply::Unit,
                ).0.inodes.contains_key(other) ==> fs.inodes.contains_key(other) && clear.next(
                    fs,
                    Reply::Unit,
                ).0.inodes[other] == fs.inodes[other]
            &&& forall|other: Inode| #[trigger]
                fs.inodes.contains_key(other) && fs.inodes[other].0 != (InodeAltKey {
                    ino: stx.stx_ino,
                    dev,
                    mnt_id: stx.stx_mnt_id,
                }) ==> clear.next(fs, Reply::Unit).0.inodes.contains_key(other)
        }),
{
}

/// Whether the root directory is the file `alt`, open as `fd`, with two references.
pub open spec fn is_root(fs: FsView, alt: InodeAltKey, fd: RawFd) -> bool {
    &&& fs.inodes.contains_key(ROOT_ID)
    &&& fs.inodes[ROOT_ID].0 == alt
    &&& fs.inodes[ROOT_ID].1.inode == ROOT_ID
    &&& fs.inodes[ROOT_ID].1.fd == fd
    &&& fs.inodes[ROOT_ID].1.dev == alt.dev
    &&& fs.inodes[ROOT_ID].1.mnt_id == alt.mnt_id
    &&& fs.inodes[ROOT_ID].1.refcount == 2
}

/// What was agreed on holds from then on, and what was agreed on before still does: cached writes where
/// the options allow them and the client is capable of them, mount points and supplementary groups
/// where it is capable of them. Nothing else of the setup changes.
pub proof fn law_agreement_holds_once_mounted(fs: FsView, capable: u64, stx: Statx, fd: RawFd)
    ensures
        ({
            let after = mounted(fs, capable, stx, fd);
            &&& after.writeback <==> fs.writeback || (fs.cfg.writeback && capable
                & FS_WRITEBACK_CACHE != 0)
            &&& after.announce_submounts <==> fs.announce_submounts || capable & FS_SUBMOUNTS != 0
            &&& after.supplementary_group_extension <==> fs.supplementary_group_extension || capable
                & FS_CREATE_SUPP_GROUP != 0
            &&& after.cfg == fs.cfg
            &&& after.machine == fs.machine
            &&& after.my_uid == fs.my_uid
            &&& after.my_gid == fs.my_gid
            &&& after.cap_fowner == fs.cap_fowner
            &&& after.init_len == fs.init_len
            &&& after.proc_self_fd == fs.proc_self_fd
        }),
{
    assert((capable & 0x10000 == 0x10000 <==> capable & 0x10000 != 0) && (capable & 0x8000000
        == 0x8000000 <==> capable & 0x8000000 != 0) && (capable & 0x400000000 == 0x400000000
        <==> capable & 0x400000000 != 0)) by (bit_vector);
}

/// Each question of the setup is about what it decides: the capability to act as any user goes before
/// this process's user, that to act as any group before its group, and last comes the one to do what
/// only owners may. `/proc/self/fd` is opened as a place in the tree, unless the options name a file
/// for it.
pub proof fn law_setup_asks_what_it_needs(
    setup: Setup,
    fd: RawFd,
    my_uid: Option<u32>,
    my_gid: Option<u32>,
    e: i32,
)
    ensures
        (NewFs::OpenProc { setup }).pending() == (Syscall::OpenProcSelfFd {
            flags: O_PATH | setup.machine.o_nofollow | O_CLOEXEC,
        }),
        (NewFs::OpenProc { setup }).next(Reply::Fail(e)) == NewView::Failed(FsError::Os(e)),
        match setup_start(setup) {
            NewView::Call(call, NewFs::OpenProc { setup: own }) => own == setup
                && setup.cfg.proc_sfd_rawfd is None && call is OpenProcSelfFd,
            NewView::Call(call, NewFs::MaySetuid { setup: own, fd: given }) => own == setup
                && setup.cfg.proc_sfd_rawfd == Some(given) && call == (Syscall::HasCap {
                cap: HostCap::Setuid,
            }),
            _ => false,
        },
        (NewFs::MaySetuid { setup, fd }).pending() == (Syscall::HasCap { cap: HostCap::Setuid }),
        (NewFs::Uid { setup, fd }).pending() == Syscall::GetUid,
        (NewFs::MaySetgid { setup, fd, my_uid }).pending() == (Syscall::HasCap {
            cap: HostCap::Setgid,
        }),
        (NewFs::Gid { setup, fd, my_uid }).pending() == Syscall::GetGid,
        (NewFs::MayFowner { setup, fd, my_uid, my_gid }).pending() == (Syscall::HasCap {
            cap: HostCap::Fowner,
        }),
{
}

/// A file system starts with what it was set up with and what the host said, and with nothing else: it
/// knows no file, has agreed on nothing and has nothing to close.
pub proof fn law_new_file_system_is_empty(
    cfg: Config,
    init_len: usize,
    machine: Machine,
    proc_self_fd: RawFd,
    my_uid: Option<u32>,
    my_gid: Option<u32>,
    cap_fowner: bool,
)
    ensures
        ({
            let fs = fresh_view(cfg, init_len, machine, proc_self_fd, my_uid, my_gid, cap_fowner);
            &&& fs.cfg == cfg
            &&& fs.init_len == init_len
            &&& fs.machine == machine
            &&& fs.proc_self_fd == proc_self_fd
            &&& fs.my_uid == my_uid
            &&& fs.my_gid == my_gid
            &&& fs.cap_fowner == cap_fowner
            &&& !fs.writeback
            &&& !fs.announce_submounts
            &&& !fs.supplementary_group_extension
            &&& forall|i: Inode| !#[trigger] fs.inodes.contains_key(i)
            &&& forall|h: Handle| !#[trigger] fs.handles.contains_key(h)
            &&& fs.released.len() == 0
        }),
{
}

} // verus!
