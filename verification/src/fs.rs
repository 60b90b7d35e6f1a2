//! The state of the file system: which inodes and handles the client knows.

use crate::abi::{EBADF, ROOT_ID};
use crate::config::Config;
use crate::model::{ebadf, FsError, Handle, Inode, Machine, RawFd};
use crate::multikey::{
    enumerates, key_of_alt, values_of, with_entry, without_alt, InodeAltKey, MultikeyBTreeMap,
};
use std::collections::BTreeMap;
use vstd::laws_cmp::group_laws_cmp;
use vstd::prelude::*;
use vstd::std_specs::btree::group_btree_axioms;

verus! {

broadcast use {group_btree_axioms, group_laws_cmp};

/// The inode of the init program, which is no file of the host.
pub const INIT_INODE: Inode = 2;

/// The handle of the init program.
pub const INIT_HANDLE: Handle = 0;

/// The first inode that is given to a file of the host.
pub const FIRST_INODE: Inode = 3;

/// The first handle that is given to a file of the host.
pub const FIRST_HANDLE: Handle = 1;

/// An inode that the client knows.
#[derive(Clone, Copy, Debug, PartialEq, Eq)]
pub struct InodeData {
    pub inode: Inode,
    /// The place in the tree; it cannot be read from or written to.
    pub fd: RawFd,
    pub dev: u64,
    pub mnt_id: u64,
    /// How many references the client holds.
    pub refcount: u64,
}

/// A file that the client has open.
#[derive(Clone, Copy, Debug, PartialEq, Eq)]
pub struct HandleData {
    pub inode: Inode,
    pub fd: RawFd,
    /// Whether the file may be in the export table.
    pub exported: bool,
}

/// The state of the file system, as the contracts speak of it.
#[verifier::ext_equal]
pub struct FsView {
    pub inodes: Map<Inode, (InodeAltKey, InodeData)>,
    pub next_inode: Inode,
    pub handles: Map<Handle, HandleData>,
    pub next_handle: Handle,
    pub proc_self_fd: RawFd,
    pub writeback: bool,
    pub announce_submounts: bool,
    pub supplementary_group_extension: bool,
    pub my_uid: Option<u32>,
    pub my_gid: Option<u32>,
    pub cap_fowner: bool,
    pub init_len: usize,
    pub machine: Machine,
    pub cfg: Config,
    /// Files to be closed.
    pub released: Seq<RawFd>,
}

/// The number after `n`; zero comes after the largest.
pub open spec fn succ(n: u64) -> u64 {
    if n == u64::MAX {
        0
    } else {
        (n + 1) as u64
    }
}

/// `a` less `b`, but not below zero.
pub open spec fn minus(a: u64, b: u64) -> u64 {
    if a < b {
        0
    } else {
        (a - b) as u64
    }
}

impl FsView {
    /// What holds of every state: each entry is filed under its own number and file, and a handle
    /// is exported only if there is a table to export it to.
    pub open spec fn wf(self) -> bool {
        &&& crate::multikey::alts_are_unique(self.inodes)
        &&& forall|i: Inode| #[trigger]
            self.inodes.contains_key(i) ==> self.inodes[i].1.inode == i && self.inodes[i].1.dev
                == self.inodes[i].0.dev && self.inodes[i].1.mnt_id == self.inodes[i].0.mnt_id
        &&& forall|h: Handle| #[trigger]
            self.handles.contains_key(h) && self.handles[h].exported ==> self.cfg.export_table
    }

    pub open spec fn find_inode(self, inode: Inode) -> Result<InodeData, FsError> {
        if self.inodes.contains_key(inode) {
            Ok(self.inodes[inode].1)
        } else {
            Err(FsError::Os(EBADF))
        }
    }

    /// The handle, if it is one of this inode.
    pub open spec fn find_handle(self, inode: Inode, handle: Handle) -> Result<
        HandleData,
        FsError,
    > {
        if self.handles.contains_key(handle) && self.handles[handle].inode == inode {
            Ok(self.handles[handle])
        } else {
            Err(FsError::Os(EBADF))
        }
    }

    pub open spec fn releasing(self, fd: RawFd) -> FsView {
        FsView { released: self.released.push(fd), ..self }
    }

    pub open spec fn releasing_if(self, fd: Option<RawFd>) -> FsView {
        match fd {
            Some(fd) => self.releasing(fd),
            None => self,
        }
    }

    /// The inode that a lookup of the file `alt` gives.
    pub open spec fn inode_for(self, alt: InodeAltKey) -> Inode {
        match key_of_alt(self.inodes, alt) {
            Some(inode) => inode,
            None => self.next_inode,
        }
    }

    /// The state after a lookup found the file `alt`, opened as `fd`. A file that is known gets one
    /// more reference, and `fd` is not needed; another gets the next inode.
    pub open spec fn interned(self, alt: InodeAltKey, fd: RawFd) -> FsView {
        match key_of_alt(self.inodes, alt) {
            Some(inode) => {
                let data = self.inodes[inode].1;
                FsView {
                    inodes: self.inodes.insert(
                        inode,
                        (alt, InodeData { refcount: succ(data.refcount), ..data }),
                    ),
                    ..self
                }.releasing(fd)
            },
            None => FsView {
                inodes: with_entry(
                    self.inodes,
                    self.next_inode,
                    alt,
                    InodeData {
                        inode: self.next_inode,
                        fd,
                        dev: alt.dev,
                        mnt_id: alt.mnt_id,
                        refcount: 1,
                    },
                ),
                next_inode: succ(self.next_inode),
                ..self
            }.releasing_if(
                if self.inodes.contains_key(self.next_inode) {
                    Some(self.inodes[self.next_inode].1.fd)
                } else {
                    None
                },
            ),
        }
    }

    /// The state after the root directory was opened as `fd`. It starts with two references.
    pub open spec fn with_root(self, alt: InodeAltKey, fd: RawFd) -> FsView {
        FsView {
            inodes: with_entry(
                self.inodes,
                ROOT_ID,
                alt,
                InodeData { inode: ROOT_ID, fd, dev: alt.dev, mnt_id: alt.mnt_id, refcount: 2 },
            ),
            ..self
        }.releasing_if(
            match key_of_alt(self.inodes, alt) {
                Some(inode) => Some(self.inodes[inode].1.fd),
                None => None,
            },
        ).releasing_if(
            if without_alt(self.inodes, alt).contains_key(ROOT_ID) {
                Some(self.inodes[ROOT_ID].1.fd)
            } else {
                None
            },
        )
    }

    /// The state after the client gave back `count` references to an inode. With the last of them
    /// the inode goes.
    pub open spec fn forgotten(self, inode: Inode, count: u64) -> FsView {
        if self.inodes.contains_key(inode) {
            let (alt, data) = self.inodes[inode];
            let left = minus(data.refcount, count);
            if left == 0 {
                FsView { inodes: self.inodes.remove(inode), ..self }.releasing(data.fd)
            } else {
                FsView {
                    inodes: self.inodes.insert(inode, (alt, InodeData { refcount: left, ..data })),
                    ..self
                }
            }
        } else {
            self
        }
    }

    /// The state after a list of such requests, in their order.
    pub open spec fn all_forgotten(self, requests: Seq<(Inode, u64)>) -> FsView
        decreases requests.len(),
    {
        if requests.len() == 0 {
            self
        } else {
            self.all_forgotten(requests.drop_last()).forgotten(
                requests.last().0,
                requests.last().1,
            )
        }
    }

    /// The state after a file was opened as `fd` for the client, under the next handle.
    pub open spec fn with_handle(self, inode: Inode, fd: RawFd) -> FsView {
        FsView {
            handles: self.handles.insert(
                self.next_handle,
                HandleData { inode, fd, exported: false },
            ),
            next_handle: succ(self.next_handle),
            ..self
        }.releasing_if(
            if self.handles.contains_key(self.next_handle) {
                Some(self.handles[self.next_handle].fd)
            } else {
                None
            },
        )
    }

    pub open spec fn without_handle(self, handle: Handle) -> FsView {
        FsView { handles: self.handles.remove(handle), ..self }.releasing(self.handles[handle].fd)
    }

    pub open spec fn with_exported(self, handle: Handle) -> FsView {
        FsView {
            handles: self.handles.insert(
                handle,
                HandleData { exported: true, ..self.handles[handle] },
            ),
            ..self
        }
    }
}

/// A file system that passes all requests that it receives through to the underlying file system.
/// To keep things simple it serves the contents of its root directory.
pub struct PassthroughFs {
    inodes: MultikeyBTreeMap<InodeData>,
    next_inode: Inode,
    handles: BTreeMap<Handle, HandleData>,
    next_handle: Handle,
    proc_self_fd: RawFd,
    writeback: bool,
    announce_submounts: bool,
    supplementary_group_extension: bool,
    my_uid: Option<u32>,
    my_gid: Option<u32>,
    cap_fowner: bool,
    init_len: usize,
    machine: Machine,
    cfg: Config,
    released: Vec<RawFd>,
}

impl View for PassthroughFs {
    type V = FsView;

    closed spec fn view(&self) -> FsView {
        FsView {
            inodes: self.inodes@,
            next_inode: self.next_inode,
            handles: self.handles@,
            next_handle: self.next_handle,
            proc_self_fd: self.proc_self_fd,
            writeback: self.writeback,
            announce_submounts: self.announce_submounts,
            supplementary_group_extension: self.supplementary_group_extension,
            my_uid: self.my_uid,
            my_gid: self.my_gid,
            cap_fowner: self.cap_fowner,
            init_len: self.init_len,
            machine: self.machine,
            cfg: self.cfg,
            released: self.released@,
        }
    }
}

impl PassthroughFs {
    pub closed spec fn wf(&self) -> bool {
        self.inodes.wf() && self@.wf()
    }

    pub proof fn lemma_wf(&self)
        requires
            self.wf(),
        ensures
            self@.wf(),
    {
    }

    /// A file system that knows no file yet. `proc_self_fd` is the open directory of this process's
    /// files; an owner is given where this process cannot act as another user or group.
    pub fn with_host(
        cfg: Config,
        init_len: usize,
        machine: Machine,
        proc_self_fd: RawFd,
        my_uid: Option<u32>,
        my_gid: Option<u32>,
        cap_fowner: bool,
    ) -> (fs: PassthroughFs)
        ensures
            fs.wf(),
            fs@ == fresh_view(cfg, init_len, machine, proc_self_fd, my_uid, my_gid, cap_fowner),
    {
        PassthroughFs {
            inodes: MultikeyBTreeMap::new(),
            next_inode: FIRST_INODE,
            handles: BTreeMap::new(),
            next_handle: FIRST_HANDLE,
            proc_self_fd,
            writeback: false,
            announce_submounts: false,
            supplementary_group_extension: false,
            my_uid,
            my_gid,
            cap_fowner,
            init_len,
            machine,
            cfg,
            released: Vec::new(),
        }
    }

    pub fn cfg(&self) -> (cfg: &Config)
        ensures
            *cfg == self@.cfg,
    {
        &self.cfg
    }

    pub fn machine(&self) -> (machine: Machine)
        ensures
            machine == self@.machine,
    {
        self.machine
    }

    pub fn proc_self_fd(&self) -> (fd: RawFd)
        ensures
            fd == self@.proc_self_fd,
    {
        self.proc_self_fd
    }

    pub fn my_uid(&self) -> (uid: Option<u32>)
        ensures
            uid == self@.my_uid,
    {
        self.my_uid
    }

    pub fn my_gid(&self) -> (gid: Option<u32>)
        ensures
            gid == self@.my_gid,
    {
        self.my_gid
    }

    pub fn cap_fowner(&self) -> (held: bool)
        ensures
            held == self@.cap_fowner,
    {
        self.cap_fowner
    }

    pub fn init_len(&self) -> (len: usize)
        ensures
            len == self@.init_len,
    {
        self.init_len
    }

    pub fn writeback(&self) -> (on: bool)
        ensures
            on == self@.writeback,
    {
        self.writeback
    }

    pub fn announce_submounts(&self) -> (on: bool)
        ensures
            on == self@.announce_submounts,
    {
        self.announce_submounts
    }

    pub fn supplementary_group_extension(&self) -> (on: bool)
        ensures
            on == self@.supplementary_group_extension,
    {
        self.supplementary_group_extension
    }

    /// Looks an inode up.
    pub fn inode_data(&self, inode: Inode) -> (data: Result<InodeData, FsError>)
        ensures
            data == self@.find_inode(inode),
    {
        match self.inodes.get(&inode) {
            Some(data) => Ok(*data),
            None => Err(ebadf()),
        }
    }

    /// Looks a handle of `inode` up.
    pub fn handle_data(&self, inode: Inode, handle: Handle) -> (data: Result<HandleData, FsError>)
        ensures
            data == self@.find_handle(inode, handle),
    {
        match self.handles.get(&handle) {
            Some(data) => if data.inode == inode {
                Ok(*data)
            } else {
                Err(ebadf())
            },
            None => Err(ebadf()),
        }
    }

    /// Queues a file to be closed.
    pub(crate) fn release_fd(&mut self, fd: RawFd)
        requires
            old(self).wf(),
        ensures
            final(self).wf(),
            final(self)@ == old(self)@.releasing(fd),
    {
        self.released.push(fd);
    }

    pub(crate) fn release_if(&mut self, fd: Option<RawFd>)
        requires
            old(self).wf(),
        ensures
            final(self).wf(),
            final(self)@ == old(self)@.releasing_if(fd),
    {
        if let Some(fd) = fd {
            self.release_fd(fd);
        }
    }

    /// Hands out the files to be closed. No request that starts later uses one of them; a request that
    /// waits may still name one in its call, so that the host keeps a file open while a call uses it.
    pub fn take_released(&mut self) -> (released: Vec<RawFd>)
        requires
            old(self).wf(),
        ensures
            final(self).wf(),
            released@ == old(self)@.released,
            final(self)@ == (FsView { released: Seq::empty(), ..old(self)@ }),
    {
        let mut released: Vec<RawFd> = Vec::new();
        released.append(&mut self.released);
        assert(released@ =~= old(self)@.released);
        released
    }

    /// Finds the inode of a file that was looked up, or gives it one.
    pub(crate) fn intern(&mut self, alt: InodeAltKey, fd: RawFd) -> (inode: Inode)
        requires
            old(self).wf(),
        ensures
            final(self).wf(),
            inode == old(self)@.inode_for(alt),
            final(self)@ == old(self)@.interned(alt, fd),
    {
        match self.inodes.get_alt(&alt) {
            Some(inode) => {
                let data: InodeData = match self.inodes.get(&inode) {
                    Some(data) => *data,
                    None => vstd::pervasive::unreached(),
                };
                self.inodes.set(
                    inode,
                    InodeData { refcount: data.refcount.wrapping_add(1), ..data },
                );
                self.release_fd(fd);
                inode
            },
            None => {
                let inode: Inode = self.next_inode;
                self.next_inode = inode.wrapping_add(1);
                let displaced = self.inodes.insert(
                    inode,
                    alt,
                    InodeData { inode, fd, dev: alt.dev, mnt_id: alt.mnt_id, refcount: 1 },
                );
                proof {
                    self.inodes.lemma_alts_are_unique();
                }
                if let Some(data) = displaced.1 {
                    self.release_fd(data.fd);
                }
                inode
            },
        }
    }

    /// Files the root directory.
    pub(crate) fn set_root(&mut self, alt: InodeAltKey, fd: RawFd)
        requires
            old(self).wf(),
        ensures
            final(self).wf(),
            final(self)@ == old(self)@.with_root(alt, fd),
    {
        let displaced = self.inodes.insert(
            ROOT_ID,
            alt,
            InodeData { inode: ROOT_ID, fd, dev: alt.dev, mnt_id: alt.mnt_id, refcount: 2 },
        );
        proof {
            self.inodes.lemma_alts_are_unique();
        }
        if let Some(data) = displaced.0 {
            self.release_fd(data.fd);
        }
        if let Some(data) = displaced.1 {
            self.release_fd(data.fd);
        }
    }

    fn forget_one(&mut self, inode: Inode, count: u64)
        requires
            old(self).wf(),
        ensures
            final(self).wf(),
            final(self)@ == old(self)@.forgotten(inode, count),
    {
        let data: InodeData = match self.inodes.get(&inode) {
            Some(data) => *data,
            None => {
                return;
            },
        };
        let new_count: u64 = data.refcount.saturating_sub(count);
        if new_count == 0 {
            self.inodes.remove(&inode);
            proof {
                self.inodes.lemma_alts_are_unique();
            }
            self.release_fd(data.fd);
        } else {
            self.inodes.set(inode, InodeData { refcount: new_count, ..data });
            proof {
                self.inodes.lemma_alts_are_unique();
            }
        }
    }

    /// The client gives back references to an inode.
    pub fn forget(&mut self, inode: Inode, count: u64)
        requires
            old(self).wf(),
        ensures
            final(self).wf(),
            final(self)@ == old(self)@.forgotten(inode, count),
    {
        self.forget_one(inode, count)
    }

    /// The client gives back references to several inodes.
    pub fn batch_forget(&mut self, requests: &Vec<(Inode, u64)>)
        requires
            old(self).wf(),
        ensures
            final(self).wf(),
            final(self)@ == old(self)@.all_forgotten(requests@),
    {
        let mut i: usize = 0;
        while i < requests.len()
            invariant
                i <= requests@.len(),
                self.wf(),
                self@ == old(self)@.all_forgotten(requests@.take(i as int)),
            decreases requests.len() - i,
        {
            let request: (Inode, u64) = requests[i];
            self.forget_one(request.0, request.1);
            i = i + 1;
            assert(requests@.take(i as int).drop_last() =~= requests@.take(i - 1));
        }
        assert(requests@.take(i as int) =~= requests@);
    }

    /// Files an open file of the client.
    pub(crate) fn add_handle(&mut self, inode: Inode, fd: RawFd) -> (handle: Handle)
        requires
            old(self).wf(),
        ensures
            final(self).wf(),
            handle == old(self)@.next_handle,
            final(self)@ == old(self)@.with_handle(inode, fd),
    {
        let handle: Handle = self.next_handle;
        self.next_handle = handle.wrapping_add(1);
        let displaced = self.handles.insert(handle, HandleData { inode, fd, exported: false });
        if let Some(data) = displaced {
            self.release_fd(data.fd);
        }
        handle
    }

    pub(crate) fn remove_handle(&mut self, handle: Handle)
        requires
            old(self).wf(),
            old(self)@.handles.contains_key(handle),
        ensures
            final(self).wf(),
            final(self)@ == old(self)@.without_handle(handle),
    {
        match self.handles.remove(&handle) {
            Some(data) => self.release_fd(data.fd),
            None => vstd::pervasive::unreached(),
        }
    }

    pub(crate) fn mark_exported(&mut self, handle: Handle)
        requires
            old(self).wf(),
            old(self)@.handles.contains_key(handle),
            old(self)@.cfg.export_table,
        ensures
            final(self).wf(),
            final(self)@ == old(self)@.with_exported(handle),
    {
        let data: HandleData = match self.handles.get(&handle) {
            Some(data) => *data,
            None => vstd::pervasive::unreached(),
        };
        self.handles.insert(handle, HandleData { exported: true, ..data });
    }

    pub(crate) fn enable(&mut self, writeback: bool, submounts: bool, supp_group: bool)
        requires
            old(self).wf(),
        ensures
            final(self).wf(),
            final(self)@ == (FsView {
                writeback: old(self)@.writeback || writeback,
                announce_submounts: old(self)@.announce_submounts || submounts,
                supplementary_group_extension: old(self)@.supplementary_group_extension
                    || supp_group,
                ..old(self)@
            }),
    {
        if writeback {
            self.writeback = true;
        }
        if submounts {
            self.announce_submounts = true;
        }
        if supp_group {
            self.supplementary_group_extension = true;
        }
    }

    /// Ends the session: all handles and inodes are forgotten and their files released, handles
    /// first, each in the order of their numbers.
    pub fn destroy(&mut self)
        requires
            old(self).wf(),
        ensures
            final(self).wf(),
            exists|handles: Seq<Handle>, inodes: Seq<Inode>|
                #![trigger enumerates(handles, old(self)@.handles.dom()), enumerates(
                    inodes,
                    old(self)@.inodes.dom(),
                )]
                enumerates(handles, old(self)@.handles.dom()) && enumerates(
                    inodes,
                    old(self)@.inodes.dom(),
                ) && final(self)@ == destroyed(old(self)@, handles, inodes),
    {
        let open: Vec<HandleData> = values_of(&self.handles);
        let ghost handles = choose|handles: Seq<Handle>|
            enumerates(handles, self.handles@.dom()) && open@ == handles.map_values(
                |h: Handle| self.handles@[h],
            );
        let known: Vec<(InodeAltKey, InodeData)> = self.inodes.entries();
        let ghost inodes = choose|inodes: Seq<Inode>|
            enumerates(inodes, self.inodes@.dom()) && known@ == inodes.map_values(
                |i: Inode| self.inodes@[i],
            );
        self.handles.clear();
        let mut i: usize = 0;
        while i < open.len()
            invariant
                i <= open@.len(),
                self.inodes.wf(),
                self@ == (FsView {
                    handles: Map::empty(),
                    released: old(self)@.released + open@.take(i as int).map_values(
                        |data: HandleData| data.fd,
                    ),
                    ..old(self)@
                }),
            decreases open.len() - i,
        {
            self.released.push(open[i].fd);
            i = i + 1;
            assert(self.released@ =~= old(self)@.released + open@.take(i as int).map_values(
                |data: HandleData| data.fd,
            ));
        }
        let ghost middle = self.released@;
        self.inodes.clear();
        let mut i: usize = 0;
        while i < known.len()
            invariant
                i <= known@.len(),
                self.inodes.wf(),
                self@ == (FsView {
                    handles: Map::empty(),
                    inodes: Map::empty(),
                    released: middle + known@.take(i as int).map_values(
                        |entry: (InodeAltKey, InodeData)| entry.1.fd,
                    ),
                    ..old(self)@
                }),
            decreases known.len() - i,
        {
            self.released.push(known[i].1.fd);
            i = i + 1;
            assert(self.released@ =~= middle + known@.take(i as int).map_values(
                |entry: (InodeAltKey, InodeData)| entry.1.fd,
            ));
        }
        self.supplementary_group_extension = false;
        proof {
            assert(open@.take(open@.len() as int) =~= open@);
            assert(known@.take(known@.len() as int) =~= known@);
            assert(self@ =~= destroyed(old(self)@, handles, inodes));
        }
    }
}

/// The state in which a file system starts.
pub open spec fn fresh_view(
    cfg: Config,
    init_len: usize,
    machine: Machine,
    proc_self_fd: RawFd,
    my_uid: Option<u32>,
    my_gid: Option<u32>,
    cap_fowner: bool,
) -> FsView {
    FsView {
        inodes: Map::empty(),
        next_inode: FIRST_INODE,
        handles: Map::empty(),
        next_handle: FIRST_HANDLE,
        proc_self_fd,
        writeback: false,
        announce_submounts: false,
        supplementary_group_extension: false,
        my_uid,
        my_gid,
        cap_fowner,
        init_len,
        machine,
        cfg,
        released: Seq::empty(),
    }
}

/// The state after the session ended, `handles` and `inodes` being the numbers in use.
pub open spec fn destroyed(fs: FsView, handles: Seq<Handle>, inodes: Seq<Inode>) -> FsView {
    FsView {
        handles: Map::empty(),
        inodes: Map::empty(),
        supplementary_group_extension: false,
        released: fs.released + handles.map_values(|h: Handle| fs.handles[h].fd)
            + inodes.map_values(|i: Inode| fs.inodes[i].1.fd),
        ..fs
    }
}

} // verus!
