//! Whole requests, served against a host that is kept in memory.

use passthrough_fs::abi::{
    AT_REMOVEDIR, EACCES, EBADF, EINVAL, ELOOP, ENODATA, ENOSYS, EOPNOTSUPP, EPERM, ERANGE,
    FS_CREATE_SUPP_GROUP, FS_DO_READDIRPLUS, FS_READDIRPLUS_AUTO, FS_SUBMOUNTS,
    FS_WRITEBACK_CACHE, IOC_EXIT_CODE, IOC_EXPORT_FD, IOC_REMOVE_ROOT_DIR, OPEN_CACHE_DIR,
    OPEN_DIRECT_IO, OPEN_KEEP_CACHE, O_CREAT, O_PATH, O_WRONLY, ROOT_ID, SET_ATIME,
    SET_ATIME_NOW, SET_GID, SET_MODE, SET_MTIME, SET_SIZE, SET_UID, S_IFDIR, S_IFLNK, S_IFMT,
    S_IFREG, S_ISGID, UTIME_NOW, UTIME_OMIT,
};
use passthrough_fs::config::{CachePolicy, Config};
use passthrough_fs::create::Created;
use passthrough_fs::dirent::{is_record_list, push_u64};
use passthrough_fs::fs::{PassthroughFs, INIT_HANDLE, INIT_INODE};
use passthrough_fs::guest_xattr::host_xattr_name_for_guest;
use passthrough_fs::mapping::RemovemappingOne;
use passthrough_fs::model::{
    ByteOrder, Context, Entry, Extensions, FsError, Handle, Inode, Machine, RawFd, Stat, StatVfs,
    Statx, StatxTimestamp, Timeout, Timespec,
};
use passthrough_fs::override_stat::{override_xattr_value, XATTR_KEY};
use passthrough_fs::step::{
    arguments, Carried, Carrying, HostCap, Path, Reply, Step, Syscall, XattrName, XattrTarget, XattrValue,
};
use passthrough_fs::xattr::XattrReply;
use std::collections::BTreeMap;

const ENOENT: i32 = 2;
const EEXIST: i32 = 17;
const HOST_UID: u32 = 1000;
const HOST_GID: u32 = 1000;
const MACHINE: Machine = Machine {
    o_directory: libc::O_DIRECTORY,
    o_nofollow: libc::O_NOFOLLOW,
    order: ByteOrder::Little,
};

struct Node {
    st: Stat,
    mnt_id: u64,
    xattrs: BTreeMap<Vec<u8>, Vec<u8>>,
    children: BTreeMap<Vec<u8>, usize>,
    /// The text of a link.
    text: Vec<u8>,
}

#[derive(Clone, Copy)]
struct Open {
    node: usize,
    flags: i32,
}

/// A host that keeps its files in memory. A call can be made to fail by putting its number in the
/// log into `failures`.
struct Host {
    nodes: Vec<Node>,
    open: BTreeMap<RawFd, Open>,
    next_fd: RawFd,
    calls: Vec<Syscall>,
    failures: BTreeMap<usize, i32>,
    fsetid: bool,
    /// The capabilities that this process has.
    caps: Vec<HostCap>,
    /// The path of the directory that is served.
    root: Vec<u8>,
    umask: u32,
    exit_code: Option<i32>,
    exports: BTreeMap<(u64, Handle), RawFd>,
    sent: Vec<(usize, usize)>,
    listed: Vec<(u64, u64, u32, Option<Entry>)>,
    room: usize,
}

fn new_node(ino: u64, mode: u32) -> Node {
    let mut st = Stat::zeroed();
    st.st_dev = 1;
    st.st_ino = ino;
    st.st_nlink = 1;
    st.st_mode = mode;
    st.st_uid = HOST_UID;
    st.st_gid = HOST_GID;
    Node { st, mnt_id: 1, xattrs: BTreeMap::new(), children: BTreeMap::new(), text: Vec::new() }
}

impl Host {
    fn new() -> Host {
        Host {
            nodes: vec![new_node(100, S_IFDIR | 0o755)],
            open: BTreeMap::new(),
            next_fd: 10,
            calls: Vec::new(),
            failures: BTreeMap::new(),
            fsetid: true,
            caps: Vec::new(),
            root: b"/".to_vec(),
            umask: 0o22,
            exit_code: None,
            exports: BTreeMap::new(),
            sent: Vec::new(),
            listed: Vec::new(),
            room: usize::MAX,
        }
    }

    /// Adds a file to the host's root directory.
    fn add(&mut self, name: &[u8], mode: u32) -> usize {
        let node = self.nodes.len();
        self.nodes.push(new_node(100 + node as u64, mode));
        self.nodes[0].children.insert(name.to_vec(), node);
        node
    }

    fn open_node(&mut self, node: usize, flags: i32) -> Reply {
        let fd = self.next_fd;
        self.next_fd += 1;
        self.open.insert(fd, Open { node, flags });
        Reply::Fd(fd)
    }

    fn node(&self, fd: RawFd) -> usize {
        self.open.get(&fd).unwrap_or_else(|| panic!("{fd} is not open")).node
    }

    fn open_at(&mut self, dir: RawFd, path: Path, name: Vec<u8>, flags: i32, mode: u32) -> Reply {
        match path {
            Path::Fd(fd) => {
                assert_eq!((dir, name), (3, fd.to_string().into_bytes()));
                let node = self.node(fd);
                if self.nodes[node].st.st_mode & S_IFMT == S_IFLNK && flags & O_PATH == 0 {
                    return Reply::Fail(ELOOP);
                }
                self.open_node(node, flags)
            }
            Path::Name => {
                let parent = self.node(dir);
                match self.nodes[parent].children.get(&name) {
                    Some(&node) => self.open_node(node, flags),
                    None if flags & O_CREAT != 0 => {
                        let node = self.make(dir, name, S_IFREG | mode);
                        self.open_node(node, flags)
                    }
                    None => Reply::Fail(ENOENT),
                }
            }
        }
    }

    fn make(&mut self, dir: RawFd, name: Vec<u8>, mode: u32) -> usize {
        let parent = self.node(dir);
        let node = self.nodes.len();
        self.nodes.push(new_node(100 + node as u64, mode));
        self.nodes[parent].children.insert(name, node);
        node
    }

    fn xattr_node(&self, target: XattrTarget) -> Result<usize, i32> {
        match target {
            XattrTarget::Fd(fd) if self.open[&fd].flags & O_PATH != 0 => Err(EBADF),
            XattrTarget::Fd(fd) | XattrTarget::Follow(fd) | XattrTarget::Link(fd) => {
                Ok(self.node(fd))
            }
        }
    }

    fn sized(bytes: Vec<u8>, size: usize) -> Reply {
        if size == 0 {
            Reply::Num(bytes.len() as u64)
        } else if bytes.len() > size {
            Reply::Fail(ERANGE)
        } else {
            Reply::Bytes(bytes)
        }
    }

    fn dirents(&self, node: usize, offset: i64, order: ByteOrder) -> Vec<u8> {
        let mut list = Vec::new();
        let mut names: Vec<(Vec<u8>, usize)> = vec![(b".".to_vec(), node), (b"..".to_vec(), 0)];
        names.extend(self.nodes[node].children.iter().map(|(n, &i)| (n.clone(), i)));
        for (at, (name, child)) in names.iter().enumerate().skip(offset as usize) {
            let len = (19 + name.len() + 1 + 7) / 8 * 8;
            let start = list.len();
            push_u64(order, &mut list, self.nodes[*child].st.st_ino);
            push_u64(order, &mut list, at as u64 + 1);
            list.extend_from_slice(&match order {
                ByteOrder::Little => (len as u16).to_le_bytes(),
                ByteOrder::Big => (len as u16).to_be_bytes(),
            });
            list.push((self.nodes[*child].st.st_mode >> 12) as u8);
            list.extend_from_slice(name);
            list.resize(start + len, 0);
        }
        assert!(is_record_list(order, &list));
        list
    }

    /// Performs a call that is handed these bytes.
    fn perform(&mut self, call: Syscall, (first, second): (Vec<u8>, Vec<u8>)) -> Reply {
        let number = self.calls.len();
        self.calls.push(call);
        if let Some(&code) = self.failures.get(&number) {
            if call != Syscall::RaiseFsetid {
                return Reply::Fail(code);
            }
        }
        match call {
            Syscall::OpenProcSelfFd { .. } => {
                assert_eq!(first, b"/proc/self/fd");
                Reply::Fd(3)
            }
            Syscall::OpenRoot { flags } => {
                assert_eq!(first, self.root);
                self.open_node(0, flags)
            }
            Syscall::OpenAt { dir, path, flags, mode } => {
                self.open_at(dir, path, first, flags, mode)
            }
            Syscall::FstatAt { fd, .. } => Reply::Stat(self.nodes[self.node(fd)].st),
            Syscall::Statx { fd, .. } => {
                let node = &self.nodes[self.node(fd)];
                let time = StatxTimestamp { tv_sec: 0, tv_nsec: 0 };
                Reply::Statx(Statx {
                    stx_blksize: 0,
                    stx_nlink: 1,
                    stx_uid: node.st.st_uid,
                    stx_gid: node.st.st_gid,
                    stx_mode: node.st.st_mode as u16,
                    stx_ino: node.st.st_ino,
                    stx_size: node.st.st_size as u64,
                    stx_blocks: 0,
                    stx_atime: time,
                    stx_ctime: time,
                    stx_mtime: time,
                    stx_rdev_major: 0,
                    stx_rdev_minor: 0,
                    stx_dev_major: 0,
                    stx_dev_minor: node.st.st_dev as u32,
                    stx_mnt_id: node.mnt_id,
                })
            }
            Syscall::FstatVfs { .. } => Reply::StatVfs(StatVfs {
                f_bsize: 1,
                f_frsize: 2,
                f_blocks: 3,
                f_bfree: 4,
                f_bavail: 5,
                f_files: 6,
                f_ffree: 7,
                f_favail: 8,
                f_fsid: 9,
                f_flag: 10,
                f_namemax: 255,
            }),
            Syscall::GetXattr { target, size, .. } => match self.xattr_node(target) {
                Err(code) => Reply::Fail(code),
                Ok(node) => match self.nodes[node].xattrs.get(&first) {
                    None => Reply::Fail(ENODATA),
                    Some(value) => Host::sized(value.clone(), size),
                },
            },
            Syscall::SetXattr { target, .. } => match self.xattr_node(target) {
                Err(code) => Reply::Fail(code),
                Ok(node) if self.nodes[node].st.st_mode & S_IFMT == S_IFLNK => Reply::Fail(EPERM),
                Ok(node) => {
                    self.nodes[node].xattrs.insert(first, second);
                    Reply::Unit
                }
            },
            Syscall::RemoveXattr { target, .. } => {
                let node = self.xattr_node(target).unwrap();
                match self.nodes[node].xattrs.remove(&first) {
                    Some(_) => Reply::Unit,
                    None => Reply::Fail(ENODATA),
                }
            }
            Syscall::ListXattr { target, size } => {
                let node = self.xattr_node(target).unwrap();
                let mut list = Vec::new();
                for name in self.nodes[node].xattrs.keys() {
                    list.extend_from_slice(name);
                    list.push(0);
                }
                Host::sized(list, size)
            }
            Syscall::HasCap { cap } => Reply::Held(self.caps.contains(&cap)),
            Syscall::DropFsetid => {
                let held = self.fsetid;
                self.fsetid = false;
                Reply::Held(held)
            }
            Syscall::RaiseFsetid => {
                assert!(!self.fsetid);
                self.fsetid = true;
                Reply::Unit
            }
            Syscall::Fchmod { fd, mode } => {
                let node = self.node(fd);
                let st = &mut self.nodes[node].st;
                st.st_mode = st.st_mode & S_IFMT | mode & 0o7777;
                Reply::Unit
            }
            Syscall::FchmodAt { dir: 3, path: Path::Fd(fd), mode } => {
                let node = self.node(fd);
                let st = &mut self.nodes[node].st;
                st.st_mode = st.st_mode & S_IFMT | mode & 0o7777;
                Reply::Unit
            }
            Syscall::FchownAt { fd, uid, gid, .. } => {
                let node = self.node(fd);
                self.nodes[node].st.st_uid = uid;
                self.nodes[node].st.st_gid = gid;
                Reply::Unit
            }
            Syscall::Ftruncate { fd, size } => {
                let node = self.node(fd);
                self.nodes[node].st.st_size = size;
                Reply::Unit
            }
            Syscall::Futimens { .. } | Syscall::UtimensAt { .. } => Reply::Unit,
            Syscall::MkdirAt { dir, mode } => {
                if self.nodes[self.node(dir)].children.contains_key(&first) {
                    return Reply::Fail(EEXIST);
                }
                self.make(dir, first, S_IFDIR | mode);
                Reply::Unit
            }
            Syscall::MknodAt { dir, mode, rdev } => {
                let node = self.make(dir, first, mode);
                self.nodes[node].st.st_rdev = rdev;
                Reply::Unit
            }
            Syscall::SymlinkAt { dir } => {
                let node = self.make(dir, second, S_IFLNK | 0o777);
                self.nodes[node].text = first;
                Reply::Unit
            }
            Syscall::UnlinkAt { dir, .. } => {
                let parent = self.node(dir);
                match self.nodes[parent].children.remove(&first) {
                    Some(_) => Reply::Unit,
                    None => Reply::Fail(ENOENT),
                }
            }
            Syscall::RenameAt2 { old_dir, new_dir, .. } => {
                let (from, to) = (self.node(old_dir), self.node(new_dir));
                match self.nodes[from].children.remove(&first) {
                    Some(node) => {
                        self.nodes[to].children.insert(second, node);
                        Reply::Unit
                    }
                    None => Reply::Fail(ENOENT),
                }
            }
            Syscall::LinkAt { old_dir: 3, path: Path::Fd(fd), new_dir, .. } => {
                assert_eq!(first, fd.to_string().into_bytes());
                let (node, parent) = (self.node(fd), self.node(new_dir));
                self.nodes[parent].children.insert(second, node);
                Reply::Unit
            }
            Syscall::ReadLinkAt { fd, .. } => Reply::Bytes(self.nodes[self.node(fd)].text.clone()),
            Syscall::Dup { fd } | Syscall::TryClone { fd } => {
                let open = self.open[&fd];
                self.open_node(open.node, open.flags)
            }
            Syscall::Close { fd } => {
                assert!(self.open.remove(&fd).is_some());
                Reply::Unit
            }
            Syscall::Fsync { .. } | Syscall::Fdatasync { .. } | Syscall::Fallocate { .. } => {
                Reply::Unit
            }
            Syscall::Lseek { offset, .. } => Reply::Num(offset as u64 + 1),
            Syscall::CopyFileRange { len, .. } => Reply::Num(len as u64 - 1),
            Syscall::GetDents { fd, offset, order, .. } => {
                Reply::Bytes(self.dirents(self.node(fd), offset, order))
            }
            Syscall::AddEntry { record, entry } => {
                if self.listed.len() == self.room {
                    return Reply::Num(0);
                }
                self.listed.push((record.ino, record.offset, record.type_, entry));
                Reply::Num(24)
            }
            Syscall::SendInit { start, len } => {
                self.sent.push((start, len));
                Reply::Num(len as u64)
            }
            Syscall::SendFile { size, .. } => Reply::Num(size as u64),
            Syscall::StoreFile { fd, size, offset } => {
                let node = self.node(fd);
                if !self.fsetid {
                    self.nodes[node].st.st_mode &= !0o6000;
                }
                self.nodes[node].st.st_size = (offset + size as u64) as i64;
                Reply::Num(size as u64)
            }
            Syscall::Mmap { .. } => Reply::Unit,
            Syscall::CopyInit { .. } => Reply::Unit,
            Syscall::Umask { mask } => {
                self.umask = mask;
                Reply::Unit
            }
            Syscall::GetUid => Reply::Num(HOST_UID as u64),
            Syscall::GetGid => Reply::Num(HOST_GID as u64),
            Syscall::ExportInsert { fsid, handle, fd } => {
                self.exports.insert((fsid, handle), fd);
                Reply::Unit
            }
            Syscall::ExportRemove { fsid, handle } => {
                self.exports.remove(&(fsid, handle));
                Reply::Unit
            }
            Syscall::SetExitCode { code } => {
                self.exit_code = Some(code);
                Reply::Unit
            }
            Syscall::RemoveRootDir => {
                assert_eq!(first, self.root);
                Reply::Unit
            }
            call => panic!("unexpected {call:?}"),
        }
    }
}

/// A mounted file system and its host.
struct Server {
    fs: PassthroughFs,
    host: Host,
}

/// What a call is handed that belongs to a request without names.
fn bare_arguments(call: Syscall) -> (Vec<u8>, Vec<u8>) {
    arguments(call, &Carried::none())
}

const CTX: Context = Context { uid: 22323, gid: 22324, pid: 1 };

fn plain(gids: &[u32]) -> Extensions {
    Extensions { secctx: None, sup_gids: gids.to_vec() }
}

impl Server {
    /// A file system on a host where this process is a plain user.
    fn start(cfg: Config, capable: u64) -> Server {
        Server::start_on(MACHINE, Host::new(), cfg, capable)
    }

    fn start_on(machine: Machine, mut host: Host, cfg: Config, capable: u64) -> Server {
        let mut step = PassthroughFs::new(cfg, 5000, machine);
        let fs = loop {
            match step {
                Step::Call(call, op) => {
                    step = op.resume(host.perform(call, bare_arguments(call)))
                }
                Step::Done(res) => break res.unwrap(),
            }
        };
        let mut server = Server { fs, host };
        server.init(capable).unwrap();
        server.host.calls.clear();
        server
    }

    fn plain() -> Server {
        let mut cfg = Config::default();
        cfg.xattr = true;
        Server::start(cfg, FS_SUBMOUNTS | FS_CREATE_SUPP_GROUP)
    }

    /// Runs a request to its end and closes what is to be closed. A capability that was dropped has
    /// come back by then.
    fn serve<S, T>(
        &mut self,
        first: Step<S, T>,
        handed: impl Fn(&S, Syscall) -> (Vec<u8>, Vec<u8>),
        mut resume: impl FnMut(S, &mut PassthroughFs, Reply, &mut Host) -> Step<S, T>,
    ) -> Result<T, FsError> {
        let fsetid = self.host.fsetid;
        let mut step = first;
        let res = loop {
            match step {
                Step::Call(call, op) => {
                    let reply = self.host.perform(call, handed(&op, call));
                    step = resume(op, &mut self.fs, reply, &mut self.host);
                }
                Step::Done(res) => break res,
            }
        };
        assert_eq!(self.host.fsetid, fsetid);
        for fd in self.fs.take_released() {
            assert!(self.host.open.remove(&fd).is_some(), "{fd} is closed twice");
        }
        res
    }

    fn run<S, T>(
        &mut self,
        first: Step<S, T>,
        resume: impl FnMut(S, &mut PassthroughFs, Reply, &mut Host) -> Step<S, T>,
    ) -> Result<T, FsError> {
        self.serve(first, |_, call| bare_arguments(call), resume)
    }

    fn run_carrying<S, T>(
        &mut self,
        first: Step<Carrying<S>, T>,
        resume: impl FnMut(Carrying<S>, &mut PassthroughFs, Reply, &mut Host) -> Step<Carrying<S>, T>,
    ) -> Result<T, FsError> {
        self.serve(first, |op, call| arguments(call, &op.carried), resume)
    }

    fn init(&mut self, capable: u64) -> Result<u64, FsError> {
        let step = self.fs.init(capable);
        self.run_carrying(step, |op, fs, reply, _| op.resume(fs, reply))
    }

    fn lookup(&mut self, parent: Inode, name: &[u8]) -> Result<Entry, FsError> {
        let step = self.fs.lookup(parent, name);
        self.run_carrying(step, |op, fs, reply, _| op.resume(fs, reply))
    }

    fn getattr(&mut self, inode: Inode) -> Result<(Stat, Timeout), FsError> {
        let step = self.fs.getattr(inode);
        self.run(step, |op, _, reply, _| op.resume(reply))
    }

    fn setattr(
        &mut self,
        inode: Inode,
        attr: Stat,
        handle: Option<Handle>,
        valid: u32,
    ) -> Result<Stat, FsError> {
        let step = self.fs.setattr(inode, attr, handle, valid);
        self.run(step, |op, fs, reply, _| op.resume(fs, reply)).map(|(st, _)| st)
    }

    fn mkdir(&mut self, parent: Inode, name: &[u8], gids: &[u32]) -> Result<Created, FsError> {
        let step = self.fs.mkdir(CTX, parent, name, 0o777, 0o022, plain(gids));
        self.run_carrying(step, |op, fs, reply, _| op.resume(fs, reply))
    }

    fn create(
        &mut self,
        parent: Inode,
        name: &[u8],
        mode: u32,
        kill_priv: bool,
        gids: &[u32],
    ) -> Result<Created, FsError> {
        let flags = O_WRONLY as u32;
        let step = self.fs.create(CTX, parent, name, mode, kill_priv, flags, 0o022, plain(gids));
        self.run_carrying(step, |op, fs, reply, _| op.resume(fs, reply))
    }

    fn symlink(&mut self, parent: Inode, name: &[u8], gids: &[u32]) -> Result<Created, FsError> {
        let step = self.fs.symlink(CTX, b"missing-target", parent, name, plain(gids));
        self.run_carrying(step, |op, fs, reply, _| op.resume(fs, reply))
    }

    fn open(&mut self, inode: Inode, kill_priv: bool, flags: u32) -> Result<(Option<Handle>, u32), FsError> {
        let step = self.fs.open(inode, kill_priv, flags);
        self.run(step, |op, fs, reply, _| op.resume(fs, reply))
    }

    fn opendir(&mut self, inode: Inode) -> Result<(Option<Handle>, u32), FsError> {
        let step = self.fs.opendir(inode, 0);
        self.run(step, |op, fs, reply, _| op.resume(fs, reply))
    }

    fn release(&mut self, inode: Inode, handle: Handle) -> Result<(), FsError> {
        let step = self.fs.release(inode, handle);
        self.run(step, |op, _, reply, _| op.resume(reply))
    }

    fn write(
        &mut self,
        inode: Inode,
        handle: Handle,
        size: u32,
        kill_priv: bool,
    ) -> Result<usize, FsError> {
        let step = self.fs.write(inode, handle, size, 0, kill_priv);
        self.run(step, |op, fs, reply, _| op.resume(fs, reply))
    }

    fn forget(&mut self, inode: Inode, count: u64) {
        self.fs.forget(inode, count);
        for fd in self.fs.take_released() {
            assert!(self.host.open.remove(&fd).is_some());
        }
    }

    fn readdir(&mut self, plus: bool, inode: Inode, handle: Handle, offset: u64) -> Result<Vec<Vec<u8>>, FsError> {
        let step = if plus {
            self.fs.readdirplus(inode, handle, 4096, offset)
        } else {
            self.fs.readdir(inode, handle, 4096, offset)
        };
        let mut names = Vec::new();
        self.host.listed.clear();
        let mut next = step;
        let res = loop {
            match next {
                Step::Call(call, op) => {
                    let before = self.host.listed.len();
                    let reply = self.host.perform(call, arguments(call, &op.carried()));
                    if self.host.listed.len() > before {
                        names.push(op.entry_name().to_vec());
                    }
                    next = op.resume(&mut self.fs, reply);
                }
                Step::Done(res) => break res,
            }
        };
        for fd in self.fs.take_released() {
            assert!(self.host.open.remove(&fd).is_some());
        }
        res.map(|()| names)
    }

    fn setxattr(&mut self, inode: Inode, name: &[u8], value: &[u8]) -> Result<(), FsError> {
        let step = self.fs.setxattr(inode, name, value, 0);
        self.run_carrying(step, |op, fs, reply, _| op.resume(fs, reply)).map(|_| ())
    }

    fn getxattr(&mut self, inode: Inode, name: &[u8], size: u32) -> Result<XattrReply, FsError> {
        let step = self.fs.getxattr(inode, name, size);
        self.run_carrying(step, |op, fs, reply, _| op.resume(fs, reply))
    }

    fn listxattr(&mut self, inode: Inode, size: u32) -> Result<XattrReply, FsError> {
        let step = self.fs.listxattr(inode, size);
        self.run_carrying(step, |op, fs, reply, _| op.resume(fs, reply))
    }

    fn removexattr(&mut self, inode: Inode, name: &[u8]) -> Result<(), FsError> {
        let step = self.fs.removexattr(inode, name);
        self.run_carrying(step, |op, fs, reply, _| op.resume(fs, reply)).map(|_| ())
    }

    fn ioctl(&mut self, inode: Inode, handle: Handle, cmd: u32, arg: u64, out: u32) -> Result<Vec<u8>, FsError> {
        let step = self.fs.ioctl(inode, handle, cmd, arg, out);
        self.run_carrying(step, |op, _, reply, _| op.resume(reply))
    }

    /// Makes the shared directory of the guest's users: root's, of group 22322, set-group-id.
    fn shared_dir(&mut self) -> Inode {
        let node = self.host.add(b"shared", S_IFDIR | 0o755);
        let value = override_xattr_value((Some(0), Some(22322), Some(0o2770)));
        self.host.nodes[node].xattrs.insert(XATTR_KEY.to_vec(), value);
        self.lookup(ROOT_ID, b"shared").unwrap().inode
    }
}

fn owner_and_mode(st: &Stat) -> (u32, u32, u32) {
    (st.st_uid, st.st_gid, st.st_mode & 0o7777)
}

fn err<T: std::fmt::Debug>(res: Result<T, FsError>) -> i32 {
    res.unwrap_err().raw_os_error().unwrap()
}

/// Sets a file system up whose `/proc/self/fd` is open as 9, with these answers of the host.
fn set_up(setuid: bool, setgid: bool, fowner: bool) -> (PassthroughFs, Vec<Syscall>) {
    let mut cfg = Config::default();
    cfg.proc_sfd_rawfd = Some(9);
    let mut calls = Vec::new();
    let mut step = PassthroughFs::new(cfg, 12, MACHINE);
    loop {
        match step {
            Step::Call(call, op) => {
                calls.push(call);
                step = op.resume(match call {
                    Syscall::HasCap { cap: HostCap::Setuid } => Reply::Held(setuid),
                    Syscall::HasCap { cap: HostCap::Setgid } => Reply::Held(setgid),
                    Syscall::HasCap { cap: HostCap::Fowner } => Reply::Held(fowner),
                    Syscall::GetUid => Reply::Num(40),
                    Syscall::GetGid => Reply::Num(50),
                    call => panic!("unexpected {call:?}"),
                });
            }
            Step::Done(res) => return (res.unwrap(), calls),
        }
    }
}

#[test]
fn setup_asks_for_what_it_does_not_know() {
    let has = |cap| Syscall::HasCap { cap };
    let (setuid, setgid) = (has(HostCap::Setuid), has(HostCap::Setgid));
    let fowner = has(HostCap::Fowner);
    for (may, uid, gid, asked) in [
        ((true, true), None, None, vec![setuid, setgid, fowner]),
        ((true, false), None, Some(50), vec![setuid, setgid, Syscall::GetGid, fowner]),
        ((false, true), Some(40), None, vec![setuid, Syscall::GetUid, setgid, fowner]),
        (
            (false, false),
            Some(40),
            Some(50),
            vec![setuid, Syscall::GetUid, setgid, Syscall::GetGid, fowner],
        ),
    ] {
        for may_own in [true, false] {
            let (fs, calls) = set_up(may.0, may.1, may_own);
            assert_eq!((fs.my_uid(), fs.my_gid(), fs.proc_self_fd()), (uid, gid, 9));
            assert_eq!(fs.cap_fowner(), may_own);
            assert_eq!(fs.init_len(), 12);
            assert_eq!(calls, asked);
        }
    }
}

#[test]
fn setup_opens_the_directory_of_files_unless_it_is_given() {
    let step = PassthroughFs::new(Config::default(), 0, MACHINE);
    let Step::Call(Syscall::OpenProcSelfFd { flags }, op) = step else { panic!() };
    assert_eq!(flags, libc::O_PATH | libc::O_NOFOLLOW | libc::O_CLOEXEC);
    assert!(matches!(op.resume(Reply::Fail(EACCES)), Step::Done(Err(FsError::Os(EACCES)))));

    let step = PassthroughFs::new(Config::default(), 0, MACHINE);
    let Step::Call(_, op) = step else { panic!() };
    let step = op.resume(Reply::Fd(77));
    assert!(matches!(step, Step::Call(Syscall::HasCap { cap: HostCap::Setuid }, _)));
}

#[test]
fn the_root_directory_is_the_configured_one() {
    let mut cfg = Config::default();
    cfg.root_dir = String::from("/srv/\u{e9}");
    cfg.allow_root_dir_delete = true;
    let mut host = Host::new();
    host.root = b"/srv/\xc3\xa9".to_vec();
    let mut server = Server::start_on(MACHINE, host, cfg, 0);
    assert_eq!(server.ioctl(0, 0, IOC_REMOVE_ROOT_DIR, 0, 0), Ok(Vec::new()));
}

#[test]
fn other_machines_have_other_numbers() {
    let machine =
        Machine { o_directory: 0o40000, o_nofollow: 0o100000, order: ByteOrder::Big };
    let mut cfg = Config::default();
    cfg.export_table = true;
    cfg.export_fsid = 0x0102030405060708;
    cfg.cache_policy = CachePolicy::Always;
    let mut server = Server::start_on(machine, Host::new(), cfg, 0);
    server.host.add(b"a", S_IFREG | 0o640);
    let (handle, opts) = server.opendir(ROOT_ID).unwrap();
    assert_eq!(opts, OPEN_CACHE_DIR);
    assert!(matches!(
        server.host.calls.last(),
        Some(Syscall::OpenAt { flags, .. }) if *flags == 0o40000 | libc::O_CLOEXEC
    ));
    assert_eq!(server.readdir(true, ROOT_ID, handle.unwrap(), 0), Ok(names(&[b"a"])));
    assert_eq!(server.host.listed[0].0, 101);
    assert!(server.host.calls.iter().any(|call| {
        matches!(call, Syscall::OpenAt { path: Path::Name, flags: 0o12100000, .. })
    }));
    let inode = server.lookup(ROOT_ID, b"a").unwrap().inode;
    let handle = server.open(inode, false, 0o100000).unwrap().0.unwrap();
    assert!(matches!(
        server.host.calls.last(),
        Some(Syscall::OpenAt { flags: libc::O_CLOEXEC, .. })
    ));
    let told = server.ioctl(inode, handle, IOC_EXPORT_FD, 0, 16).unwrap();
    assert_eq!(told, [1, 2, 3, 4, 5, 6, 7, 8, 0, 0, 0, 0, 0, 0, 0, 2]);
}

#[test]
fn mounting_agrees_only_on_what_both_sides_want() {
    let always = FS_DO_READDIRPLUS | FS_READDIRPLUS_AUTO;
    let mut server = Server::start(Config::default(), 0);
    assert_eq!(server.init(0), Ok(always));
    assert_eq!(server.init(FS_WRITEBACK_CACHE), Ok(always));
    assert!(!server.fs.writeback());
    assert_eq!(
        server.init(FS_SUBMOUNTS | FS_CREATE_SUPP_GROUP),
        Ok(always | FS_SUBMOUNTS | FS_CREATE_SUPP_GROUP)
    );
    assert!(server.fs.announce_submounts());
    assert!(server.fs.supplementary_group_extension());

    let mut cfg = Config::default();
    cfg.writeback = true;
    let mut server = Server::start(cfg, 0);
    assert!(!server.fs.writeback());
    assert_eq!(server.init(FS_WRITEBACK_CACHE), Ok(always | FS_WRITEBACK_CACHE));
    assert!(server.fs.writeback());
    assert_eq!(server.host.umask, 0);
    assert_eq!(server.fs.inode_data(ROOT_ID).unwrap().refcount, 2);
}

#[test]
fn a_root_that_cannot_be_opened_is_not_mounted() {
    let mut server = Server::start(Config::default(), 0);
    server.host.failures.insert(0, ENOENT);
    assert_eq!(err(server.init(0)), ENOENT);
    server.host.calls.clear();
    server.host.failures.clear();
    server.host.failures.insert(1, EACCES);
    let open = server.host.open.len();
    assert_eq!(err(server.init(0)), EACCES);
    assert_eq!(server.host.open.len(), open);
}

#[test]
fn lookups_count_references() {
    let mut server = Server::plain();
    server.host.add(b"file", S_IFREG | 0o644);
    server.host.add(b"other", S_IFREG | 0o644);
    let open = server.host.open.len();

    let first = server.lookup(ROOT_ID, b"file").unwrap();
    let again = server.lookup(ROOT_ID, b"file").unwrap();
    let other = server.lookup(ROOT_ID, b"other").unwrap();
    assert_eq!(first.inode, 3);
    assert_eq!(first, again);
    assert_eq!(other.inode, 4);
    assert_eq!(server.fs.inode_data(3).unwrap().refcount, 2);
    assert_eq!(server.host.open.len(), open + 2);
    assert_eq!(first.generation, 0);
    assert_eq!(first.attr_timeout, Timeout { secs: 5, nanos: 0 });
    assert_eq!(owner_and_mode(&first.attr), (0, 0, 0o644));

    server.forget(3, 1);
    assert!(server.getattr(3).is_ok());
    server.forget(3, 7);
    assert_eq!(err(server.getattr(3)), EBADF);
    assert_eq!(server.host.open.len(), open + 1);
    server.forget(3, 1);
    server.forget(99, 1);

    server.fs.batch_forget(&vec![(4, 1), (5, 1)]);
    assert_eq!(err(server.getattr(4)), EBADF);
    assert_eq!(server.lookup(ROOT_ID, b"file").unwrap().inode, 5);
}

#[test]
fn two_lookups_find_one_inode_just_if_they_find_one_file() {
    let mut server = Server::plain();
    let node = server.host.add(b"file", S_IFREG | 0o644);
    server.host.nodes[0].children.insert(b"second".to_vec(), node);
    let first = server.lookup(ROOT_ID, b"file").unwrap().inode;
    assert_eq!(server.fs.inode_data(first).unwrap().refcount, 1);
    assert_eq!(server.lookup(ROOT_ID, b"second").unwrap().inode, first);
    assert_eq!(server.fs.inode_data(first).unwrap().refcount, 2);

    server.host.nodes[node].mnt_id = 2;
    let mounted = server.lookup(ROOT_ID, b"file").unwrap().inode;
    server.host.nodes[node].st.st_dev = 9;
    let moved = server.lookup(ROOT_ID, b"file").unwrap().inode;
    assert_eq!((first, mounted, moved), (3, 4, 5));
    for (inode, refcount) in [(first, 2), (mounted, 1), (moved, 1)] {
        assert_eq!(server.fs.inode_data(inode).unwrap().refcount, refcount);
    }
    assert_eq!(err(server.lookup(ROOT_ID, b"none")), ENOENT);
    assert!(server.fs.inode_data(6).is_err());
}

#[test]
fn lookup_fails_as_the_host_does_and_keeps_nothing_open() {
    let mut server = Server::plain();
    server.host.add(b"file", S_IFREG | 0o644);
    let open = server.host.open.len();
    assert_eq!(err(server.lookup(ROOT_ID, b"none")), ENOENT);
    assert_eq!(err(server.lookup(42, b"file")), EBADF);
    for failing in [1, 2] {
        server.host.calls.clear();
        server.host.failures.clear();
        server.host.failures.insert(failing, 5);
        assert_eq!(err(server.lookup(ROOT_ID, b"file")), 5);
        assert_eq!(server.host.open.len(), open);
        assert_eq!(err(server.getattr(3)), EBADF);
    }
}

#[test]
fn mount_points_are_announced() {
    let mut server = Server::plain();
    let dir = server.host.add(b"mnt", S_IFDIR | 0o755);
    let file = server.host.add(b"file", S_IFREG | 0o644);
    assert_eq!(server.lookup(ROOT_ID, b"mnt").unwrap().attr_flags, 0);
    server.host.nodes[dir].mnt_id = 2;
    server.host.nodes[file].mnt_id = 2;
    assert_eq!(server.lookup(ROOT_ID, b"mnt").unwrap().attr_flags, 1);
    assert_eq!(server.lookup(ROOT_ID, b"file").unwrap().attr_flags, 0);

    let mut quiet = Server::start(Config::default(), 0);
    let dir = quiet.host.add(b"mnt", S_IFDIR | 0o755);
    quiet.host.nodes[dir].st.st_dev = 2;
    assert_eq!(quiet.lookup(ROOT_ID, b"mnt").unwrap().attr_flags, 0);
}

#[test]
fn the_init_program_is_found_everywhere() {
    let mut server = Server::plain();
    let entry = server.lookup(12345, b"init.krun").unwrap();
    assert!(server.host.calls.is_empty());
    assert_eq!(entry.inode, INIT_INODE);
    assert_eq!(entry.attr.st_ino, INIT_INODE);
    assert_eq!(entry.attr.st_size, 5000);
    assert_eq!(entry.attr.st_mode, 0o100755);
    assert_eq!(server.open(INIT_INODE, true, 0), Ok((Some(INIT_HANDLE), 0)));
    assert_eq!(err(server.lookup(ROOT_ID, b"init.kru")), ENOENT);
    assert_eq!(err(server.lookup(ROOT_ID, b"init.krunx")), ENOENT);
}

#[test]
fn the_init_program_is_read_within_its_bounds() {
    let mut server = Server::plain();
    for (size, offset, want) in
        [(100, 0, (0, 100)), (100, 4950, (4950, 50)), (5000, 0, (0, 5000)), (9, 5000, (5000, 0))]
    {
        let step = server.fs.read(INIT_INODE, INIT_HANDLE, size, offset);
        let got = server.run(step, |op, _, reply, _| op.resume(reply));
        assert_eq!(got, Ok(want.1));
        assert_eq!(server.host.sent.last(), Some(&want));
    }
}

#[test]
fn opening_follows_the_cache_policy() {
    for (policy, file, dir) in [
        (CachePolicy::Never, OPEN_DIRECT_IO, 0),
        (CachePolicy::Auto, 0, 0),
        (CachePolicy::Always, OPEN_KEEP_CACHE, OPEN_CACHE_DIR),
    ] {
        let mut cfg = Config::default();
        cfg.cache_policy = policy;
        let mut server = Server::start(cfg, 0);
        server.host.add(b"file", S_IFREG | 0o644);
        let inode = server.lookup(ROOT_ID, b"file").unwrap().inode;
        assert_eq!(server.open(inode, false, 0), Ok((Some(1), file)));
        assert_eq!(server.opendir(ROOT_ID), Ok((Some(2), dir)));
        assert_eq!(server.create(ROOT_ID, b"new", 0o600, false, &[]).unwrap().2, file);
    }
}

#[test]
fn opening_changes_flags_as_the_session_needs() {
    let mut server = Server::plain();
    server.host.add(b"file", S_IFREG | 0o644);
    let inode = server.lookup(ROOT_ID, b"file").unwrap().inode;
    let flags_of = |server: &Server| match server.host.calls.last() {
        Some(Syscall::OpenAt { flags, .. }) => *flags,
        other => panic!("{other:?}"),
    };
    let asked = libc::O_WRONLY | libc::O_APPEND | libc::O_NOFOLLOW | libc::O_NOATIME;
    server.open(inode, false, asked as u32).unwrap();
    assert_eq!(flags_of(&server), libc::O_WRONLY | libc::O_APPEND | libc::O_CLOEXEC);
    server.opendir(inode).unwrap();
    assert_eq!(flags_of(&server), libc::O_DIRECTORY | libc::O_CLOEXEC);

    let mut cfg = Config::default();
    cfg.writeback = true;
    let mut cached = Server::start(cfg, FS_WRITEBACK_CACHE);
    cached.host.add(b"file", S_IFREG | 0o644);
    let inode = cached.lookup(ROOT_ID, b"file").unwrap().inode;
    cached.open(inode, false, asked as u32).unwrap();
    assert_eq!(flags_of(&cached), libc::O_RDWR | libc::O_CLOEXEC);
    cached.open(inode, false, libc::O_RDONLY as u32).unwrap();
    assert_eq!(flags_of(&cached), libc::O_RDONLY | libc::O_CLOEXEC);
}

#[test]
fn opening_can_drop_privileges_first() {
    let mut server = Server::plain();
    server.host.add(b"file", S_IFREG | 0o644);
    let inode = server.lookup(ROOT_ID, b"file").unwrap().inode;
    server.host.calls.clear();
    server.open(inode, true, 0).unwrap();
    assert_eq!(server.host.calls[0], Syscall::DropFsetid);
    assert!(matches!(server.host.calls[1], Syscall::OpenAt { .. }));
    assert_eq!(server.host.calls[2..], [Syscall::RaiseFsetid]);

    server.host.calls.clear();
    server.host.failures.insert(1, EACCES);
    assert_eq!(err(server.open(inode, true, 0)), EACCES);
    assert_eq!(server.host.calls[2..], [Syscall::RaiseFsetid]);
    server.host.failures.clear();
    server.host.calls.clear();
    assert_eq!(err(server.open(99, true, 0)), EBADF);
    assert_eq!(server.host.calls, [Syscall::DropFsetid, Syscall::RaiseFsetid]);

    server.host.fsetid = false;
    server.host.calls.clear();
    server.open(inode, true, 0).unwrap();
    assert_eq!(server.host.calls.len(), 2);
    server.host.fsetid = true;

    server.host.calls.clear();
    server.host.failures.insert(0, EINVAL);
    assert_eq!(err(server.open(inode, true, 0)), EINVAL);
    assert_eq!(server.host.calls.len(), 1);
    assert_eq!(err(server.open(99, false, 0)), EBADF);
}

#[test]
fn handles_belong_to_their_inode_and_are_closed_once() {
    let mut server = Server::plain();
    server.host.add(b"file", S_IFREG | 0o644);
    let inode = server.lookup(ROOT_ID, b"file").unwrap().inode;
    let open = server.host.open.len();
    let handle = server.open(inode, false, 0).unwrap().0.unwrap();
    assert_eq!(handle, 1);
    assert_eq!(err(server.release(ROOT_ID, handle)), EBADF);
    assert_eq!(err(server.write(ROOT_ID, handle, 1, false)), EBADF);
    assert_eq!(server.release(inode, handle), Ok(()));
    assert_eq!(server.host.open.len(), open);
    assert_eq!(err(server.release(inode, handle)), EBADF);
    let step = server.fs.releasedir(inode, handle);
    assert!(matches!(step, Step::Done(Err(FsError::Os(EBADF)))));
    assert_eq!(server.open(inode, false, 0).unwrap().0, Some(2));
}

#[test]
fn files_made_through_a_supplementary_group_belong_to_it() {
    let mut server = Server::plain();
    let parent = server.shared_dir();
    let st = server.getattr(parent).unwrap().0;
    assert_eq!(owner_and_mode(&st), (0, 22322, 0o2770));

    let (file, handle, opts) = server.create(parent, b"file", 0o640, false, &[22322]).unwrap();
    assert_eq!(owner_and_mode(&file.attr), (22323, 22322, 0o640));
    assert_eq!((handle, opts), (Some(1), 0));
    let (dir, none, _) = server.mkdir(parent, b"dir", &[22322]).unwrap();
    assert_eq!(owner_and_mode(&dir.attr), (22323, 22322, 0o2755));
    assert_eq!(dir.attr.st_mode & S_IFMT, S_IFDIR);
    assert_eq!(none, None);

    for entry in [file, dir] {
        assert_eq!(server.getattr(entry.inode).unwrap().0, entry.attr);
    }
}

#[test]
fn links_belong_to_their_maker_where_the_process_may_give_them_away() {
    let mut host = Host::new();
    host.caps = vec![HostCap::Setuid, HostCap::Setgid, HostCap::Fowner];
    let mut server = Server::start_on(MACHINE, host, Config::default(), FS_CREATE_SUPP_GROUP);
    let parent = server.shared_dir();
    let (link, _, _) = server.symlink(parent, b"symlink", &[22322]).unwrap();
    assert_eq!(owner_and_mode(&link.attr), (22323, 22322, 0o777));

    let mut plain_user = Server::plain();
    let parent = plain_user.shared_dir();
    let (link, _, _) = plain_user.symlink(parent, b"symlink", &[22322]).unwrap();
    assert_eq!(owner_and_mode(&link.attr), (0, 0, 0o777));
    let owned = plain_user.host.calls.iter().any(|call| {
        matches!(call, Syscall::FchownAt { uid: HOST_UID, gid: HOST_GID, .. })
    });
    assert!(owned);
    let step = plain_user.fs.readlink(link.inode);
    let text = plain_user.run(step, |op, _, reply, _| op.resume(reply));
    assert_eq!(text, Ok(b"missing-target".to_vec()));
}

#[test]
fn creation_without_access_is_refused_before_anything_is_made() {
    let mut server = Server::plain();
    let parent = server.shared_dir();
    assert_eq!(err(server.mkdir(parent, b"dir", &[])), EACCES);
    assert_eq!(err(server.create(parent, b"file", 0o640, true, &[7])), EACCES);
    assert_eq!(err(server.symlink(parent, b"link", &[])), EACCES);
    assert!(server.host.nodes[1].children.is_empty());
    assert!(!server.host.calls.contains(&Syscall::DropFsetid));

    let mut trusting = Server::start(Config::default(), 0);
    let parent = trusting.shared_dir();
    let (dir, _, _) = trusting.mkdir(parent, b"dir", &[]).unwrap();
    assert_eq!(owner_and_mode(&dir.attr), (22323, 22322, 0o2755));
}

#[test]
fn files_outside_setgid_directories_belong_to_their_makers_group() {
    let mut server = Server::start(Config::default(), 0);
    let (dir, _, _) = server.mkdir(ROOT_ID, b"dir", &[]).unwrap();
    assert_eq!(owner_and_mode(&dir.attr), (22323, 22324, 0o755));
    let mode = 0o010666;
    let step = server.fs.mknod(CTX, ROOT_ID, b"pipe", mode, 0x105, 0o027, plain(&[]));
    let (node, none, _) = server.run_carrying(step, |op, fs, reply, _| op.resume(fs, reply)).unwrap();
    assert_eq!(none, None);
    assert_eq!(node.attr.st_mode, 0o010640);
    assert_eq!((node.attr.st_uid, node.attr.st_gid), (22323, 22324));
    assert_eq!(server.host.nodes.last().unwrap().st.st_rdev, 0x105);
    assert_eq!(server.host.nodes[0].children[b"pipe".as_slice()], server.host.nodes.len() - 1);
}

#[test]
fn creation_passes_the_hosts_errors_on_and_closes_its_files() {
    let mut server = Server::plain();
    let calls = {
        server.create(ROOT_ID, b"probe", 0o600, true, &[]).unwrap_err();
        let mut trusting = Server::start(Config::default(), 0);
        trusting.create(ROOT_ID, b"probe", 0o600, true, &[]).unwrap();
        trusting.host.calls.clone()
    };
    for failing in 0..calls.len() {
        let mut server = Server::start(Config::default(), 0);
        let open = server.host.open.len();
        server.host.failures.insert(failing, 5);
        let made = server.create(ROOT_ID, b"file", 0o600, true, &[]);
        let kept = server.host.open.len() - open;
        match made {
            Ok((entry, handle, _)) => {
                assert_eq!((entry.inode, handle), (3, Some(1)));
                assert_eq!(kept, 2);
            }
            Err(e) => {
                assert_eq!(e, FsError::Os(5));
                assert!(kept <= 1, "call {failing} leaks");
                assert_eq!(kept == 1, server.fs.inode_data(3).is_ok());
            }
        }
    }
    assert_eq!(err(server.create(99, b"file", 0o600, true, &[])), EBADF);
}

#[test]
fn a_new_file_is_opened_with_the_mode_under_the_mask() {
    let mut server = Server::start(Config::default(), 0);
    server.create(ROOT_ID, b"file", 0o4666, false, &[]).unwrap();
    let flags = libc::O_WRONLY | libc::O_CREAT | libc::O_CLOEXEC | libc::O_NOFOLLOW;
    let made = server.host.calls.iter().any(|call| {
        matches!(call, Syscall::OpenAt { path: Path::Name, flags: f, mode: 0o4644, .. } if *f == flags)
    });
    assert!(made);
}

#[test]
fn a_link_without_owner_is_removed() {
    let mut server = Server::start(Config::default(), 0);
    server.symlink(ROOT_ID, b"probe", &[]).unwrap();
    let at = |find: &dyn Fn(&Syscall) -> bool| server.host.calls.iter().position(find).unwrap();
    let own = at(&|call| matches!(call, Syscall::FchownAt { .. }));

    for failing in [own - 1, own] {
        let mut server = Server::start(Config::default(), 0);
        let open = server.host.open.len();
        server.host.failures.insert(failing, EPERM);
        assert_eq!(err(server.symlink(ROOT_ID, b"link", &[])), EPERM);
        assert!(server.host.nodes[0].children.is_empty());
        assert_eq!(server.host.open.len(), open);
    }
    let mut server = Server::start(Config::default(), 0);
    server.host.failures.insert(own, EPERM);
    server.host.failures.insert(own + 1, 5);
    assert_eq!(
        server.symlink(ROOT_ID, b"link", &[]).unwrap_err(),
        FsError::SymlinkRollback { owner: EPERM, rollback: 5 }
    );
}

#[test]
fn modes_are_changed_where_they_are_kept() {
    let mut server = Server::plain();
    let node = server.host.add(b"file", S_IFREG | 0o644);
    let inode = server.lookup(ROOT_ID, b"file").unwrap().inode;
    let mut attr = Stat::zeroed();
    attr.st_mode = 0o600;
    let st = server.setattr(inode, attr, None, SET_MODE).unwrap();
    assert_eq!(st.st_mode, S_IFREG | 0o600);
    assert!(server.host.nodes[node].xattrs.is_empty());

    let handle = server.open(inode, false, 0).unwrap().0;
    attr.st_mode = 0o640;
    assert_eq!(server.setattr(inode, attr, handle, SET_MODE).unwrap().st_mode, S_IFREG | 0o640);
    assert!(server.host.calls.iter().any(|c| matches!(c, Syscall::Fchmod { mode: 0o640, .. })));

    let key = XATTR_KEY.to_vec();
    server.host.nodes[node].xattrs.insert(key.clone(), b"33:44:0600".to_vec());
    attr.st_mode = 0o4755;
    let st = server.setattr(inode, attr, None, SET_MODE).unwrap();
    assert_eq!(owner_and_mode(&st), (33, 44, 0o4755));
    assert_eq!(server.host.nodes[node].xattrs[&key], b"33:44:04755");
    assert_eq!(server.host.nodes[node].st.st_mode, S_IFREG | 0o640);
}

#[test]
fn a_mode_that_the_host_refuses_is_recorded() {
    for (code, kept) in [(EPERM, true), (EINVAL, true), (EOPNOTSUPP, true), (EACCES, false)] {
        let mut server = Server::plain();
        let node = server.host.add(b"file", S_IFREG | 0o644);
        let inode = server.lookup(ROOT_ID, b"file").unwrap().inode;
        server.host.calls.clear();
        server.host.failures.insert(3, code);
        let mut attr = Stat::zeroed();
        attr.st_mode = 0o1777;
        let res = server.setattr(inode, attr, None, SET_MODE);
        assert!(matches!(server.host.calls[3], Syscall::FchmodAt { .. }));
        if kept {
            assert_eq!(res.unwrap().st_mode, S_IFREG | 0o1777);
            assert_eq!(server.host.nodes[node].xattrs[&XATTR_KEY.to_vec()], b"x:x:01777");
        } else {
            assert_eq!(err(res), code);
        }
    }
}

#[test]
fn a_new_owner_takes_the_setid_bits() {
    let mut server = Server::plain();
    server.host.add(b"file", S_IFREG | 0o6755);
    let inode = server.lookup(ROOT_ID, b"file").unwrap().inode;
    let mut attr = Stat::zeroed();
    attr.st_uid = 7;
    attr.st_gid = 8;
    let st = server.setattr(inode, attr, None, SET_UID).unwrap();
    assert_eq!(owner_and_mode(&st), (7, 0, 0o755));
    assert_eq!(st.st_mode & S_IFMT, S_IFREG);
    let st = server.setattr(inode, attr, None, SET_GID).unwrap();
    assert_eq!(owner_and_mode(&st), (7, 8, 0o755));
}

#[test]
fn sizes_are_changed_through_an_open_file() {
    let mut server = Server::plain();
    server.host.add(b"file", S_IFREG | 0o644);
    let inode = server.lookup(ROOT_ID, b"file").unwrap().inode;
    let open = server.host.open.len();
    let mut attr = Stat::zeroed();
    attr.st_size = 77;
    server.host.calls.clear();
    assert_eq!(server.setattr(inode, attr, None, SET_SIZE).unwrap().st_size, 77);
    assert!(matches!(
        server.host.calls[0],
        Syscall::OpenAt { dir: 3, path: Path::Fd(_), flags, .. }
            if flags == libc::O_NONBLOCK | libc::O_RDWR | libc::O_CLOEXEC
    ));
    assert_eq!(server.host.open.len(), open);
    server.host.calls.clear();
    server.host.failures.insert(1, 27);
    assert_eq!(err(server.setattr(inode, attr, None, SET_SIZE)), 27);
    assert_eq!(server.host.open.len(), open);
    server.host.failures.clear();

    let handle = server.open(inode, false, 0).unwrap().0;
    attr.st_size = 78;
    server.host.calls.clear();
    assert_eq!(server.setattr(inode, attr, handle, SET_SIZE).unwrap().st_size, 78);
    assert!(matches!(server.host.calls[0], Syscall::Ftruncate { size: 78, .. }));
    assert_eq!(err(server.setattr(inode, attr, Some(99), 0)), EBADF);
    assert_eq!(err(server.setattr(99, attr, None, 0)), EBADF);
}

#[test]
fn times_are_set_kept_or_now() {
    let mut server = Server::plain();
    server.host.add(b"file", S_IFREG | 0o644);
    let inode = server.lookup(ROOT_ID, b"file").unwrap().inode;
    let mut attr = Stat::zeroed();
    attr.st_atime = 1;
    attr.st_atime_nsec = 2;
    attr.st_mtime = 3;
    attr.st_mtime_nsec = 4;
    let at = |tv_sec, tv_nsec| Timespec { tv_sec, tv_nsec };
    for (valid, want) in [
        (SET_ATIME, (at(1, 2), at(0, UTIME_OMIT))),
        (SET_MTIME, (at(0, UTIME_OMIT), at(3, 4))),
        (SET_ATIME | SET_ATIME_NOW, (at(0, UTIME_NOW), at(0, UTIME_OMIT))),
        (SET_ATIME_NOW | SET_MTIME, (at(0, UTIME_NOW), at(3, 4))),
    ] {
        server.host.calls.clear();
        server.setattr(inode, attr, None, valid).unwrap();
        let Syscall::UtimensAt { atime, mtime, .. } = server.host.calls[0] else { panic!() };
        assert_eq!((atime, mtime), want);
    }
    server.host.calls.clear();
    server.setattr(inode, attr, None, SET_ATIME_NOW).unwrap();
    assert!(matches!(server.host.calls[0], Syscall::FstatAt { .. }));
    let handle = server.open(inode, false, 0).unwrap().0;
    server.host.calls.clear();
    server.setattr(inode, attr, handle, SET_MTIME).unwrap();
    assert!(matches!(server.host.calls[0], Syscall::Futimens { .. }));
}

#[test]
fn writes_take_setid_bits_with_the_privileges() {
    let mut server = Server::plain();
    let node = server.host.add(b"file", S_IFREG | 0o644);
    let key = XATTR_KEY.to_vec();
    server.host.nodes[node].xattrs.insert(key.clone(), b"33:44:06755".to_vec());
    let inode = server.lookup(ROOT_ID, b"file").unwrap().inode;
    let handle = server.open(inode, false, O_WRONLY as u32).unwrap().0.unwrap();

    assert_eq!(server.write(inode, handle, 10, false), Ok(10));
    assert_eq!(server.host.nodes[node].xattrs[&key], b"33:44:06755");
    assert_eq!(server.write(inode, handle, 20, true), Ok(20));
    assert_eq!(server.host.nodes[node].xattrs[&key], b"33:44:0100755");
    assert_eq!(server.getattr(inode).unwrap().0.st_mode, S_IFREG | 0o755);

    server.host.calls.clear();
    assert_eq!(server.write(inode, handle, 30, true), Ok(30));
    assert!(!server.host.calls.iter().any(|c| matches!(c, Syscall::SetXattr { .. })));
    server.host.calls.clear();
    server.host.failures.insert(1, 28);
    assert_eq!(err(server.write(inode, handle, 1, true)), 28);
    assert_eq!(server.host.calls.len(), 3);
    assert_eq!(server.host.calls[2], Syscall::RaiseFsetid);
    assert_eq!(err(server.write(inode, 99, 1, true)), EBADF);
}

#[test]
fn nothing_is_written_where_privileges_cannot_be_dropped() {
    let mut server = Server::plain();
    server.host.add(b"file", S_IFREG | 0o644);
    let inode = server.lookup(ROOT_ID, b"file").unwrap().inode;
    let handle = server.open(inode, false, O_WRONLY as u32).unwrap().0.unwrap();
    server.host.calls.clear();
    server.host.failures.insert(0, EINVAL);
    assert_eq!(err(server.write(inode, handle, 1, true)), EINVAL);
    assert_eq!(server.host.calls, vec![Syscall::DropFsetid]);
}

#[test]
fn references_may_be_given_back_bit_by_bit() {
    for parts in [vec![(3, 3)], vec![(3, 1), (3, 2)], vec![(3, 2), (3, 1), (3, 1)]] {
        let mut server = Server::plain();
        server.host.add(b"file", S_IFREG | 0o644);
        let open = server.host.open.len();
        for _ in 0..3 {
            assert_eq!(server.lookup(ROOT_ID, b"file").unwrap().inode, 3);
        }
        server.fs.batch_forget(&parts);
        assert_eq!(err(server.getattr(3)), EBADF);
        assert_eq!(server.host.open.len(), open);
    }
}

#[test]
fn reads_go_to_the_open_file() {
    let mut server = Server::plain();
    server.host.add(b"file", S_IFREG | 0o644);
    let inode = server.lookup(ROOT_ID, b"file").unwrap().inode;
    let handle = server.open(inode, false, 0).unwrap().0.unwrap();
    server.host.calls.clear();
    let step = server.fs.read(inode, handle, 100, u64::MAX);
    assert_eq!(server.run(step, |op, _, reply, _| op.resume(reply)), Ok(100));
    assert!(matches!(
        server.host.calls[0],
        Syscall::SendFile { size: 100, offset: u64::MAX, .. }
    ));
    let step = server.fs.read(inode, 9, 100, 0);
    assert!(matches!(step, Step::Done(Err(FsError::Os(EBADF)))));
}

fn names(list: &[&[u8]]) -> Vec<Vec<u8>> {
    list.iter().map(|n| n.to_vec()).collect()
}

#[test]
fn directories_are_listed_to_the_end() {
    let mut server = Server::plain();
    server.host.add(b"a", S_IFREG | 0o644);
    server.host.add(b"longer-name", S_IFDIR | 0o755);
    let handle = server.opendir(ROOT_ID).unwrap().0.unwrap();
    let all = names(&[b"a", b"longer-name"]);
    assert_eq!(server.readdir(false, ROOT_ID, handle, 0), Ok(all.clone()));
    assert_eq!(server.host.listed, vec![(101, 3, 8, None), (102, 4, 4, None)]);
    assert_eq!(server.readdir(false, ROOT_ID, handle, 1), Ok(all.clone()));
    assert_eq!(server.readdir(false, ROOT_ID, handle, 3), Ok(all[1..].to_vec()));
    server.host.room = 1;
    assert_eq!(server.readdir(false, ROOT_ID, handle, 0), Ok(all[..1].to_vec()));
    assert_eq!(err(server.readdir(false, 99, handle, 0)), EBADF);
    let step = server.fs.readdir(99, 99, 0, 0);
    assert!(matches!(step, Step::Done(Ok(()))));
}

#[test]
fn only_the_directory_and_its_parent_are_passed_over() {
    let mut server = Server::plain();
    let handle = server.opendir(ROOT_ID).unwrap().0.unwrap();
    for plus in [false, true] {
        assert_eq!(server.readdir(plus, ROOT_ID, handle, 0), Ok(vec![]));
    }
    for name in [b".a".as_slice(), b"...", b"a."] {
        server.host.add(name, S_IFREG | 0o644);
    }
    let all = names(&[b"...", b".a", b"a."]);
    for plus in [false, true] {
        assert_eq!(server.readdir(plus, ROOT_ID, handle, 0), Ok(all.clone()));
    }
}

#[test]
fn directories_are_listed_with_their_entries() {
    let mut server = Server::plain();
    server.host.add(b"a", S_IFREG | 0o640);
    let handle = server.opendir(ROOT_ID).unwrap().0.unwrap();
    let root = server.fs.inode_data(ROOT_ID).unwrap().refcount;
    server.host.calls.clear();
    assert_eq!(server.readdir(true, ROOT_ID, handle, 0), Ok(names(&[b"a"])));
    assert_eq!(server.host.listed.len(), 1);
    let (ino, _, _, entry) = server.host.listed[0];
    let entry = entry.unwrap();
    assert_eq!(ino, 101);
    assert_eq!(entry.inode, 3);
    assert_eq!(owner_and_mode(&entry.attr), (0, 0, 0o640));
    assert_eq!(server.fs.inode_data(3).unwrap().refcount, 1);
    assert_eq!(server.fs.inode_data(ROOT_ID).unwrap().refcount, root);
    let by_name = |call: &&Syscall| matches!(call, Syscall::OpenAt { path: Path::Name, .. });
    assert_eq!(server.host.calls.iter().filter(by_name).count(), 1);

    server.host.calls.clear();
    server.host.failures.insert(1, ENOENT);
    assert_eq!(err(server.readdir(true, ROOT_ID, handle, 0)), ENOENT);
}

#[test]
fn a_list_that_is_not_made_of_records_is_told() {
    let mut list = Vec::new();
    let order = ByteOrder::Little;
    push_u64(order, &mut list, 1);
    push_u64(order, &mut list, 2);
    list.extend_from_slice(&[24, 0, 8]);
    list.extend_from_slice(b"name\0");
    assert_eq!(list.len(), 24);
    assert!(is_record_list(order, &list));
    assert!(is_record_list(order, &[]));
    assert!(!is_record_list(order, &list[..23]));
    assert!(!is_record_list(order, &list[..18]));
    let mut unended = list.clone();
    unended[23] = b'!';
    assert!(!is_record_list(order, &unended));
    let mut short = list.clone();
    short[16] = 19;
    assert!(!is_record_list(order, &short));
    let mut long = list;
    long[17] = 1;
    assert!(!is_record_list(order, &long));
    let mut big = Vec::new();
    push_u64(ByteOrder::Big, &mut big, 1);
    push_u64(ByteOrder::Big, &mut big, 2);
    assert_eq!(big, [0, 0, 0, 0, 0, 0, 0, 1, 0, 0, 0, 0, 0, 0, 0, 2]);
    big.extend_from_slice(&[0, 24, 8]);
    big.extend_from_slice(b"name\0");
    assert!(is_record_list(ByteOrder::Big, &big));
    assert!(!is_record_list(order, &big));
}

#[test]
fn guest_attributes_are_kept_under_hidden_names() {
    let mut server = Server::plain();
    let node = server.host.add(b"file", S_IFREG | 0o644);
    server.host.nodes[node].xattrs.insert(b"user.secret".to_vec(), b"s".to_vec());
    let inode = server.lookup(ROOT_ID, b"file").unwrap().inode;
    let open = server.host.open.len();

    server.setxattr(inode, b"security.capability", b"\x01\x00").unwrap();
    server.setxattr(inode, b"user.a", b"").unwrap();
    let hidden = host_xattr_name_for_guest(b"security.capability");
    assert_ne!(hidden, b"security.capability");
    assert_eq!(server.host.nodes[node].xattrs[&hidden], b"\x01\x00");
    assert!(!server.host.nodes[node].xattrs.contains_key(b"security.capability".as_slice()));
    assert!(matches!(
        server.getxattr(inode, b"security.capability", 100),
        Ok(XattrReply::Bytes(v)) if v == b"\x01\x00"
    ));
    assert!(matches!(
        server.getxattr(inode, b"security.capability", 0),
        Ok(XattrReply::Count(2))
    ));
    assert_eq!(err(server.getxattr(inode, b"security.capability", 1)), ERANGE);
    assert_eq!(err(server.getxattr(inode, b"user.secret", 10)), ENODATA);

    let names = b"security.capability\0user.a\0";
    let n = names.len() as u32;
    assert!(matches!(server.listxattr(inode, 0), Ok(XattrReply::Count(c)) if c == n));
    assert!(matches!(server.listxattr(inode, n), Ok(XattrReply::Bytes(b)) if b == names));
    assert_eq!(err(server.listxattr(inode, n - 1)), ERANGE);

    server.removexattr(inode, b"user.a").unwrap();
    assert_eq!(err(server.removexattr(inode, b"user.a")), ENODATA);
    assert!(server.host.nodes[node].xattrs.contains_key(b"user.secret".as_slice()));
    assert_eq!(server.host.open.len(), open);
    assert_eq!(err(server.listxattr(99, 0)), EBADF);
    assert_eq!(err(server.getxattr(INIT_INODE, b"user.a", 0)), ENODATA);
    assert_eq!(err(server.listxattr(INIT_INODE, 0)), EBADF);
}

#[test]
fn attributes_of_links_are_reached_through_their_path() {
    let mut server = Server::plain();
    server.host.add(b"link", S_IFLNK | 0o777);
    let inode = server.lookup(ROOT_ID, b"link").unwrap().inode;
    let place = server.fs.inode_data(inode).unwrap().fd;
    assert!(matches!(server.listxattr(inode, 0), Ok(XattrReply::Count(0))));
    assert!(matches!(server.listxattr(inode, 9), Ok(XattrReply::Bytes(b)) if b.is_empty()));
    assert_eq!(err(server.setxattr(inode, b"user.a", b"v")), EPERM);
    assert!(matches!(
        server.host.calls.last(),
        Some(Syscall::SetXattr { target: XattrTarget::Link(fd), .. }) if *fd == place
    ));
    server.host.calls.clear();
    server.host.failures.insert(0, EACCES);
    assert_eq!(err(server.listxattr(inode, 0)), EACCES);
}

#[test]
fn attributes_can_be_switched_off() {
    let mut server = Server::start(Config::default(), 0);
    server.host.add(b"file", S_IFREG | 0o644);
    let inode = server.lookup(ROOT_ID, b"file").unwrap().inode;
    server.host.calls.clear();
    assert_eq!(err(server.setxattr(inode, b"user.a", b"v")), ENOSYS);
    assert_eq!(err(server.getxattr(inode, b"user.a", 0)), ENOSYS);
    assert_eq!(err(server.listxattr(inode, 0)), ENOSYS);
    assert_eq!(err(server.removexattr(inode, b"user.a")), ENOSYS);
    assert!(server.host.calls.is_empty());
}

#[test]
fn access_is_checked_by_what_the_guest_sees() {
    let mut server = Server::plain();
    let parent = server.shared_dir();
    let mut check = |ctx: Context, mask: u32| {
        let step = server.fs.access(ctx, parent, mask);
        server.run(step, |op, _, reply, _| op.resume(reply))
    };
    let member = Context { uid: 5, gid: 22322, pid: 1 };
    assert_eq!(check(member, 7), Ok(()));
    assert_eq!(err(check(CTX, 1)), EACCES);
    assert_eq!(check(CTX, 0), Ok(()));
    let step = server.fs.access(CTX, 99, 0);
    assert!(matches!(step, Step::Done(Err(FsError::Os(EBADF)))));
    let step = server.fs.check_access(CTX, parent, 3, vec![1, 22322]);
    assert_eq!(server.run(step, |op, _, reply, _| op.resume(reply)), Ok(()));
}

#[test]
fn names_are_removed_moved_and_added() {
    let mut server = Server::plain();
    server.host.add(b"file", S_IFREG | 0o644);
    let inode = server.lookup(ROOT_ID, b"file").unwrap().inode;
    server.host.calls.clear();

    let step = server.fs.link(inode, ROOT_ID, b"second");
    let entry = server.run_carrying(step, |op, fs, reply, _| op.resume(fs, reply)).unwrap();
    assert_eq!(entry.inode, inode);
    assert!(matches!(
        server.host.calls[0],
        Syscall::LinkAt { old_dir: 3, flags: libc::AT_SYMLINK_FOLLOW, .. }
    ));
    assert_eq!(server.fs.inode_data(inode).unwrap().refcount, 2);

    let step = server.fs.unlink(ROOT_ID, b"file");
    assert_eq!(server.run_carrying(step, |op, _, reply, _| op.resume(reply)), Ok(()));
    let step = server.fs.unlink(ROOT_ID, b"file");
    assert_eq!(err(server.run_carrying(step, |op, _, reply, _| op.resume(reply))), ENOENT);
    let step = server.fs.rmdir(ROOT_ID, b"file");
    assert!(matches!(step, Step::Call(Syscall::UnlinkAt { flags: AT_REMOVEDIR, .. }, _)));

    let step = server.fs.rename(ROOT_ID, b"second", ROOT_ID, b"third", 1);
    assert!(matches!(step, Step::Call(Syscall::RenameAt2 { flags: 1, .. }, _)));
    assert_eq!(server.run_carrying(step, |op, _, reply, _| op.resume(reply)), Ok(()));
    let left: Vec<Vec<u8>> = server.host.nodes[0].children.keys().cloned().collect();
    assert_eq!(left, names(&[b"third"]));
    for (a, b) in [(99, ROOT_ID), (ROOT_ID, 99)] {
        let step = server.fs.rename(a, b"x", b, b"y", 0);
        assert!(matches!(step, Step::Done(Err(FsError::Os(EBADF)))));
        assert!(matches!(server.fs.link(a, b, b"x"), Step::Done(Err(FsError::Os(EBADF)))));
    }
    assert!(matches!(server.fs.unlink(99, b"x"), Step::Done(Err(FsError::Os(EBADF)))));
}

#[test]
fn calls_are_handed_their_bytes_in_order() {
    let carried =
        Carried { name: b"name".to_vec(), other: b"other".to_vec(), value: b"value".to_vec() };
    let target = XattrTarget::Fd(7);
    let time = Timespec { tv_sec: 0, tv_nsec: 0 };
    let by = |path| Syscall::OpenAt { dir: 3, path, flags: 0, mode: 0 };
    for (call, first, second) in [
        (by(Path::Name), b"name".as_slice(), b"".as_slice()),
        (by(Path::Fd(42)), b"42", b""),
        (Syscall::FchmodAt { dir: 3, path: Path::Fd(5), mode: 0 }, b"5", b""),
        (
            Syscall::UtimensAt { dir: 3, path: Path::Fd(6), atime: time, mtime: time },
            b"6",
            b"",
        ),
        (Syscall::MkdirAt { dir: 3, mode: 0 }, b"name", b""),
        (Syscall::MknodAt { dir: 3, mode: 0, rdev: 0 }, b"name", b""),
        (Syscall::UnlinkAt { dir: 3, flags: 0 }, b"name", b""),
        (Syscall::SymlinkAt { dir: 3 }, b"other", b"name"),
        (Syscall::RenameAt2 { old_dir: 3, new_dir: 4, flags: 0 }, b"name", b"other"),
        (
            Syscall::LinkAt { old_dir: 3, path: Path::Fd(8), new_dir: 4, flags: 0 },
            b"8",
            b"name",
        ),
        (Syscall::GetXattr { target, name: XattrName::Guest, size: 0 }, b"name", b""),
        (Syscall::GetXattr { target, name: XattrName::Override, size: 0 }, &XATTR_KEY, b""),
        (Syscall::RemoveXattr { target, name: XattrName::Guest }, b"name", b""),
        (
            Syscall::SetXattr {
                target,
                name: XattrName::Guest,
                value: XattrValue::Guest,
                flags: 0,
            },
            b"name",
            b"value",
        ),
        (
            Syscall::SetXattr {
                target,
                name: XattrName::Override,
                value: XattrValue::Override((Some(1), None, Some(0o644))),
                flags: 0,
            },
            &XATTR_KEY,
            b"1:x:0644",
        ),
        (Syscall::GetUid, b"", b""),
    ] {
        assert_eq!(arguments(call, &carried), (first.to_vec(), second.to_vec()), "{call:?}");
    }
}

#[test]
fn plain_calls_are_passed_on() {
    let mut server = Server::plain();
    server.host.add(b"file", S_IFREG | 0o644);
    let inode = server.lookup(ROOT_ID, b"file").unwrap().inode;
    let handle = server.open(inode, false, 0).unwrap().0.unwrap();
    let fd = server.fs.handle_data(inode, handle).unwrap().fd;
    let open = server.host.open.len();

    let step = server.fs.statfs(inode);
    let out = server.run(step, |op, _, reply, _| op.resume(reply)).unwrap();
    assert_eq!((out.f_bsize, out.f_namemax), (1, 255));

    let step = server.fs.readlink(inode);
    assert!(matches!(step, Step::Call(Syscall::ReadLinkAt { size: 4096, .. }, _)));
    server.host.nodes[1].text = b"elsewhere".to_vec();
    let text = server.run(step, |op, _, reply, _| op.resume(reply));
    assert_eq!(text, Ok(b"elsewhere".to_vec()));

    server.host.calls.clear();
    let step = server.fs.flush(inode, handle);
    assert_eq!(server.run(step, |op, _, reply, _| op.resume(reply)), Ok(()));
    assert!(matches!(server.host.calls[0], Syscall::Dup { fd: dup } if dup == fd));
    assert!(matches!(server.host.calls[1], Syscall::Close { .. }));
    assert_eq!(server.host.open.len(), open);

    let step = server.fs.fsync(inode, false, handle);
    assert!(matches!(step, Step::Call(Syscall::Fsync { .. }, _)));
    let step = server.fs.fsyncdir(inode, true, handle);
    assert!(matches!(step, Step::Call(Syscall::Fdatasync { .. }, _)));

    let step = server.fs.fallocate(inode, handle, 3, u64::MAX, 9);
    assert!(matches!(
        step,
        Step::Call(Syscall::Fallocate { mode: 3, offset: -1, length: 9, .. }, _)
    ));
    assert_eq!(server.run(step, |op, _, reply, _| op.resume(reply)), Ok(()));

    let step = server.fs.lseek(inode, handle, 41, 2);
    assert!(matches!(step, Step::Call(Syscall::Lseek { offset: 41, whence: 2, .. }, _)));
    assert_eq!(server.run(step, |op, _, reply, _| op.resume(reply)), Ok(42));

    let step = server.fs.copyfilerange(inode, handle, 1, inode, handle, 2, 100, 0);
    assert_eq!(server.run(step, |op, _, reply, _| op.resume(reply)), Ok(99));

    assert!(matches!(server.fs.statfs(99), Step::Done(Err(FsError::Os(EBADF)))));
    assert!(matches!(server.fs.readlink(99), Step::Done(Err(FsError::Os(EBADF)))));
    assert!(matches!(server.fs.flush(inode, 99), Step::Done(Err(FsError::Os(EBADF)))));
    assert!(matches!(server.fs.fsync(inode, true, 99), Step::Done(Err(FsError::Os(EBADF)))));
    assert!(matches!(server.fs.fallocate(9, handle, 0, 0, 0), Step::Done(Err(FsError::Os(EBADF)))));
    assert!(matches!(server.fs.lseek(inode, 99, 0, 0), Step::Done(Err(FsError::Os(EBADF)))));
    let step = server.fs.copyfilerange(inode, handle, 0, inode, 99, 0, u64::MAX, u64::MAX);
    assert!(matches!(step, Step::Done(Err(FsError::Os(EBADF)))));
}

#[test]
fn files_are_mapped_within_the_window() {
    let mut server = Server::plain();
    server.host.add(b"file", S_IFREG | 0o644);
    let inode = server.lookup(ROOT_ID, b"file").unwrap().inode;
    let open = server.host.open.len();
    server.host.calls.clear();
    let step = server.fs.setupmapping(inode, 8192, 4096, 1, 0x1000, 0x7000_0000, 0x2000);
    assert_eq!(server.run(step, |op, fs, reply, _| op.resume(fs, reply)), Ok(()));
    assert!(matches!(
        server.host.calls[1],
        Syscall::Mmap { addr: 0x7000_1000, len: 4096, prot, flags, offset: 8192, .. }
            if prot == libc::PROT_READ | libc::PROT_WRITE
                && flags == libc::MAP_SHARED | libc::MAP_FIXED
    ));
    assert_eq!(server.host.open.len(), open);
    let step = server.fs.setupmapping(inode, 0, 1, 0, 0, 0, 1);
    assert!(matches!(
        step,
        Step::Call(Syscall::OpenAt { flags, .. }, _)
            if flags == libc::O_RDONLY | libc::O_CLOEXEC
    ));
    let step = server.fs.setupmapping(inode, 0, 4097, 1, 0x1000, 0x7000_0000, 0x2000);
    assert!(matches!(step, Step::Done(Err(FsError::Os(EINVAL)))));
    let step = server.fs.setupmapping(99, 0, 1, 1, 0, 0, 1);
    assert!(matches!(step, Step::Done(Err(FsError::Os(EBADF)))));
    server.host.calls.clear();
    server.host.failures.insert(1, 12);
    let step = server.fs.setupmapping(inode, 0, 1, 0, 0, 0, 1);
    assert_eq!(err(server.run(step, |op, fs, reply, _| op.resume(fs, reply))), 12);
    assert_eq!(server.host.open.len(), open);
}

#[test]
fn the_init_program_is_mapped_as_a_copy() {
    let mut server = Server::plain();
    for (len, copied) in [(8192, 5000), (4096, 4096)] {
        server.host.calls.clear();
        let step = server.fs.setupmapping(INIT_INODE, 0, len, 0, 0, 0x10_0000, 0x10_0000);
        assert_eq!(server.run(step, |op, fs, reply, _| op.resume(fs, reply)), Ok(()));
        assert!(matches!(
            server.host.calls[0],
            Syscall::Mmap { addr: 0x10_0000, len: l, prot: 3, flags, fd: -1, offset: 0 }
                if l as u64 == len
                    && flags == libc::MAP_PRIVATE | libc::MAP_ANONYMOUS | libc::MAP_FIXED
        ));
        assert_eq!(server.host.calls[1], Syscall::CopyInit { addr: 0x10_0000, len: copied });
    }
}

#[test]
fn mappings_are_taken_out_until_one_is_refused() {
    let mut server = Server::plain();
    let one = |moffset, len| RemovemappingOne { moffset, len };
    let step = server.fs.removemapping(
        vec![one(0, 0x1000), one(0x1000, 0x1000), one(0x1001, 0x1000), one(0, 1)],
        0x5000,
        0x2000,
    );
    let res = server.run(step, |op, _, reply, _| {
        assert!(op.next_fits());
        op.resume(reply)
    });
    assert_eq!(err(res), EINVAL);
    let addresses: Vec<u64> = server
        .host
        .calls
        .iter()
        .map(|call| match call {
            Syscall::Mmap { addr, prot: 0, .. } => *addr,
            other => panic!("{other:?}"),
        })
        .collect();
    assert_eq!(addresses, vec![0x5000, 0x6000]);
    assert!(matches!(server.fs.removemapping(vec![], 0, 0), Step::Done(Ok(()))));
    let Step::Call(_, op) =
        server.fs.removemapping(vec![one(0, 1), one(u64::MAX, 1)], 0, 9) else { panic!() };
    assert!(!op.next_fits());
}

#[test]
fn open_files_are_exported_until_they_are_closed() {
    let mut cfg = Config::default();
    cfg.export_table = true;
    cfg.export_fsid = 0x0102030405060708;
    let mut server = Server::start(cfg, 0);
    server.host.add(b"file", S_IFREG | 0o644);
    let inode = server.lookup(ROOT_ID, b"file").unwrap().inode;
    let handle = server.open(inode, false, 0).unwrap().0.unwrap();

    assert_eq!(err(server.ioctl(inode, handle, IOC_EXPORT_FD, 0, 15)), EINVAL);
    assert_eq!(err(server.ioctl(inode, 99, IOC_EXPORT_FD, 0, 16)), EBADF);
    let told = server.ioctl(inode, handle, IOC_EXPORT_FD, 0, 16).unwrap();
    assert_eq!(told, [8, 7, 6, 5, 4, 3, 2, 1, 1, 0, 0, 0, 0, 0, 0, 0]);
    assert_eq!(server.host.exports.len(), 1);
    assert!(server.fs.handle_data(inode, handle).unwrap().exported);
    assert_eq!(server.release(inode, handle), Ok(()));
    assert!(server.host.exports.is_empty());

    let mut none = Server::plain();
    assert_eq!(err(none.ioctl(ROOT_ID, 1, IOC_EXPORT_FD, 0, 16)), EOPNOTSUPP);
}

#[test]
fn only_known_ioctls_are_served() {
    let mut server = Server::plain();
    assert_eq!(server.ioctl(0, 0, IOC_EXIT_CODE, 0xffff_ffff_0000_0007, 0), Ok(Vec::new()));
    assert_eq!(server.host.exit_code, Some(7));
    assert_eq!(server.ioctl(0, 0, IOC_EXIT_CODE, 0xffff_fffe, 0), Ok(Vec::new()));
    assert_eq!(server.host.exit_code, Some(-2));
    assert_eq!(err(server.ioctl(0, 0, IOC_REMOVE_ROOT_DIR, 0, 0)), EOPNOTSUPP);
    assert_eq!(err(server.ioctl(0, 0, 0x5401, 0, 0)), EOPNOTSUPP);
    assert!(!server.host.calls.contains(&Syscall::RemoveRootDir));

    let mut cfg = Config::default();
    cfg.allow_root_dir_delete = true;
    let mut server = Server::start(cfg, 0);
    assert_eq!(server.ioctl(0, 0, IOC_REMOVE_ROOT_DIR, 0, 0), Ok(Vec::new()));
    server.host.calls.clear();
    server.host.failures.insert(0, EACCES);
    assert_eq!(err(server.ioctl(0, 0, IOC_REMOVE_ROOT_DIR, 0, 0)), EACCES);
    assert_eq!(S_ISGID, 0o2000);
}

#[test]
fn the_end_of_the_session_closes_all_files() {
    let mut server = Server::plain();
    server.host.add(b"file", S_IFREG | 0o644);
    let inode = server.lookup(ROOT_ID, b"file").unwrap().inode;
    server.open(inode, false, 0).unwrap();
    server.fs.destroy();
    let released = server.fs.take_released();
    assert_eq!(released.len(), 3);
    for fd in released {
        assert!(server.host.open.remove(&fd).is_some());
    }
    assert!(server.host.open.is_empty());
    assert_eq!(err(server.getattr(ROOT_ID)), EBADF);
    assert!(!server.fs.supplementary_group_extension());
    assert!(server.fs.announce_submounts());
}
