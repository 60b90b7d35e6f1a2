//! Mapping files into the memory window that the guest shares.

use crate::abi::{
    EINVAL, MAP_ANONYMOUS, MAP_FIXED, MAP_PRIVATE, MAP_SHARED, NO_FD, O_RDONLY, O_RDWR, PROT_NONE,
    PROT_READ, PROT_WRITE, SETUPMAPPING_WRITE,
};
use crate::fs::{FsView, PassthroughFs, INIT_INODE};
use crate::fs_laws::lemma_release_holds;
use crate::model::{einval, FsError, Inode, RawFd};
use crate::open::{opening, Opening};
use crate::step::{Reply, Step, Syscall};
use vstd::pervasive::unreached;
use vstd::prelude::*;

verus! {

/// A part of the window that is to be mapped.
#[derive(Clone, Copy, Debug, PartialEq, Eq)]
pub struct Area {
    pub addr: u64,
    pub len: usize,
    pub foffset: i64,
    pub writable: bool,
}

/// Maps a file, or a copy of the init program.
#[allow(inconsistent_fields)]
#[derive(Clone, Copy, Debug, PartialEq, Eq)]
pub enum SetupMapping {
    /// Maps memory for the init program, of which `copy` bytes are then copied.
    MapInit { addr: u64, len: usize, copy: usize },
    CopyInit { addr: u64, copy: usize },
    Open { area: Area, opening: Opening },
    MapFile { area: Area, fd: RawFd },
}

/// The call that maps fresh memory at a fixed place.
pub open spec fn map_fresh(addr: u64, len: usize, prot: i32) -> Syscall {
    Syscall::Mmap {
        addr,
        len,
        prot,
        flags: MAP_PRIVATE | MAP_ANONYMOUS | MAP_FIXED,
        fd: NO_FD,
        offset: 0,
    }
}

fn map_fresh_call(addr: u64, len: usize, prot: i32) -> (call: Syscall)
    ensures
        call == map_fresh(addr, len, prot),
{
    Syscall::Mmap {
        addr,
        len,
        prot,
        flags: MAP_PRIVATE | MAP_ANONYMOUS | MAP_FIXED,
        fd: NO_FD,
        offset: 0,
    }
}

impl Area {
    /// The call that maps an open file.
    pub open spec fn map(self, fd: RawFd) -> Syscall {
        Syscall::Mmap {
            addr: self.addr,
            len: self.len,
            prot: if self.writable {
                PROT_READ | PROT_WRITE
            } else {
                PROT_READ
            },
            flags: MAP_SHARED | MAP_FIXED,
            fd,
            offset: self.foffset,
        }
    }

    fn map_call(self, fd: RawFd) -> (call: Syscall)
        ensures
            call == self.map(fd),
    {
        Syscall::Mmap {
            addr: self.addr,
            len: self.len,
            prot: if self.writable {
                PROT_READ | PROT_WRITE
            } else {
                PROT_READ
            },
            flags: MAP_SHARED | MAP_FIXED,
            fd,
            offset: self.foffset,
        }
    }
}

impl SetupMapping {
    /// Whether this request has the file `fd` open.
    pub open spec fn holds(self, fd: RawFd) -> bool {
        self matches SetupMapping::MapFile { fd: own, .. } && own == fd
    }

    pub open spec fn pending(self) -> Syscall {
        match self {
            SetupMapping::MapInit { addr, len, .. } => map_fresh(
                addr,
                len,
                PROT_READ | PROT_WRITE,
            ),
            SetupMapping::CopyInit { addr, copy } => Syscall::CopyInit { addr, len: copy },
            SetupMapping::Open { opening, .. } => opening.call(),
            SetupMapping::MapFile { area, fd } => area.map(fd),
        }
    }

    pub open spec fn wait(self) -> Step<SetupMapping, ()> {
        Step::Call(self.pending(), self)
    }

    pub open spec fn next(self, fs: FsView, reply: Reply) -> (FsView, Step<SetupMapping, ()>) {
        match self {
            SetupMapping::MapInit { addr, copy, .. } => match reply {
                Reply::Fail(e) => (fs, Step::Done(Err(FsError::Os(e)))),
                _ => (fs, SetupMapping::CopyInit { addr, copy }.wait()),
            },
            SetupMapping::CopyInit { .. } => (fs, Step::Done(Ok(()))),
            SetupMapping::Open { area, .. } => match reply {
                Reply::Fail(e) => (fs, Step::Done(Err(FsError::Os(e)))),
                Reply::Fd(fd) => (fs, SetupMapping::MapFile { area, fd }.wait()),
                _ => arbitrary(),
            },
            SetupMapping::MapFile { fd, .. } => (
                fs.releasing(fd),
                match reply {
                    Reply::Fail(e) => Step::Done(Err(FsError::Os(e))),
                    _ => Step::Done(Ok(())),
                },
            ),
        }
    }

    pub fn resume(self, fs: &mut PassthroughFs, reply: Reply) -> (step: Step<SetupMapping, ()>)
        requires
            old(fs).wf(),
            self.pending().answered_by(reply),
        ensures
            final(fs).wf(),
            (final(fs)@, step) == self.next(old(fs)@, reply),
    {
        match self {
            SetupMapping::MapInit { addr, len: _, copy } => match reply {
                Reply::Fail(e) => Step::Done(Err(FsError::from_raw_os_error(e))),
                _ => Step::Call(
                    Syscall::CopyInit { addr, len: copy },
                    SetupMapping::CopyInit { addr, copy },
                ),
            },
            SetupMapping::CopyInit { addr: _, copy: _ } => Step::Done(Ok(())),
            SetupMapping::Open { area, opening: _ } => match reply {
                Reply::Fail(e) => Step::Done(Err(FsError::from_raw_os_error(e))),
                Reply::Fd(fd) => Step::Call(area.map_call(fd), SetupMapping::MapFile { area, fd }),
                _ => unreached(),
            },
            SetupMapping::MapFile { area: _, fd } => {
                fs.release_fd(fd);
                match reply {
                    Reply::Fail(e) => Step::Done(Err(FsError::from_raw_os_error(e))),
                    _ => Step::Done(Ok(())),
                }
            },
        }
    }
}

/// Whether the end of an area and its address are numbers that the machine has.
pub open spec fn is_addressable(moffset: u64, len: u64, base: u64, shm_size: u64) -> bool {
    &&& moffset + len <= u64::MAX
    &&& moffset + len <= shm_size ==> base + moffset <= u64::MAX
}

/// How a request to map a file starts. An area that is not in the window is refused.
pub open spec fn setupmapping_start(
    fs: FsView,
    inode: Inode,
    foffset: u64,
    len: u64,
    flags: u64,
    moffset: u64,
    base: u64,
    shm_size: u64,
) -> Step<SetupMapping, ()> {
    let addr = (base + moffset) as u64;
    let len_here = len as usize;
    let writable = flags & SETUPMAPPING_WRITE != 0;
    if moffset + len > shm_size {
        Step::Done(Err(FsError::Os(EINVAL)))
    } else if inode == INIT_INODE {
        SetupMapping::MapInit {
            addr,
            len: len_here,
            copy: if len_here > fs.init_len {
                fs.init_len
            } else {
                len_here
            },
        }.wait()
    } else {
        match opening(
            fs,
            inode,
            if writable {
                O_RDWR
            } else {
                O_RDONLY
            },
        ) {
            Ok(opening) => SetupMapping::Open {
                area: Area { addr, len: len_here, foffset: foffset as i64, writable },
                opening,
            }.wait(),
            Err(e) => Step::Done(Err(e)),
        }
    }
}

/// A part of the window that the guest gives back.
#[derive(Clone, Copy, Debug, PartialEq, Eq)]
pub struct RemovemappingOne {
    pub moffset: u64,
    pub len: u64,
}

/// Takes mappings out of the window, one after the other: each is replaced by memory that nobody may
/// touch.
#[derive(Debug)]
pub struct RemoveMapping {
    pub requests: Vec<RemovemappingOne>,
    /// The number of the request that is at work.
    pub at: usize,
    pub base: u64,
    pub shm_size: u64,
}

/// Whether the sums of request `at`, if there is one, are numbers that the machine has.
pub open spec fn fits(requests: Seq<RemovemappingOne>, at: int, base: u64) -> bool {
    at < requests.len() ==> base + requests[at].moffset <= u64::MAX && requests[at].moffset
        + requests[at].len <= u64::MAX
}

impl RemoveMapping {
    pub open spec fn pending(self) -> Syscall {
        let request = self.requests@[self.at as int];
        map_fresh((self.base + request.moffset) as u64, request.len as usize, PROT_NONE)
    }

    /// Where the work stands at request `at`.
    pub open spec fn at(
        requests: Vec<RemovemappingOne>,
        at: int,
        base: u64,
        shm_size: u64,
    ) -> Step<RemoveMapping, ()> {
        if at >= requests@.len() {
            Step::Done(Ok(()))
        } else if requests@[at].moffset + requests@[at].len > shm_size {
            Step::Done(Err(FsError::Os(EINVAL)))
        } else {
            let op = RemoveMapping { requests, at: at as usize, base, shm_size };
            Step::Call(op.pending(), op)
        }
    }

    pub open spec fn next(self, reply: Reply) -> Step<RemoveMapping, ()> {
        match reply {
            Reply::Fail(e) => Step::Done(Err(FsError::Os(e))),
            _ => RemoveMapping::at(self.requests, self.at + 1, self.base, self.shm_size),
        }
    }

    fn go_to(requests: Vec<RemovemappingOne>, at: usize, base: u64, shm_size: u64) -> (step: Step<
        RemoveMapping,
        (),
    >)
        requires
            fits(requests@, at as int, base),
        ensures
            step == RemoveMapping::at(requests, at as int, base, shm_size),
            step matches Step::Call(_, op) ==> op.at < op.requests@.len(),
    {
        if at >= requests.len() {
            return Step::Done(Ok(()));
        }
        let request = requests[at];
        let addr: u64 = base + request.moffset;
        if request.moffset + request.len > shm_size {
            return Step::Done(Err(einval()));
        }
        Step::Call(
            map_fresh_call(
                addr,
                #[verifier::truncate]
                (request.len as usize),
                PROT_NONE,
            ),
            RemoveMapping { requests, at, base, shm_size },
        )
    }

    /// Whether the request after the one at work can be taken up.
    pub fn next_fits(&self) -> (ok: bool)
        requires
            self.at < self.requests@.len(),
        ensures
            ok == fits(self.requests@, self.at + 1, self.base),
    {
        let len: usize = self.requests.len();
        assert(self.at < len);
        request_fits(&self.requests, self.at + 1, self.base)
    }

    pub fn resume(self, reply: Reply) -> (step: Step<RemoveMapping, ()>)
        requires
            self.at < self.requests@.len(),
            self.pending().answered_by(reply),
            reply is Unit ==> fits(self.requests@, self.at + 1, self.base),
        ensures
            step == self.next(reply),
            step matches Step::Call(_, op) ==> op.at < op.requests@.len(),
    {
        match reply {
            Reply::Fail(e) => Step::Done(Err(FsError::from_raw_os_error(e))),
            _ => {
                let len: usize = self.requests.len();
                assert(self.at < len);
                RemoveMapping::go_to(self.requests, self.at + 1, self.base, self.shm_size)
            },
        }
    }
}

/// Whether the sums of request `at`, if there is one, are numbers that the machine has.
pub fn request_fits(requests: &Vec<RemovemappingOne>, at: usize, base: u64) -> (ok: bool)
    ensures
        ok == fits(requests@, at as int, base),
{
    if at < requests.len() {
        let request = requests[at];
        base <= u64::MAX - request.moffset && request.moffset <= u64::MAX - request.len
    } else {
        true
    }
}

impl PassthroughFs {
    /// Maps `len` bytes of a file at `foffset` to `moffset` in the window of `shm_size` bytes at
    /// `host_shm_base`.
    pub fn setupmapping(
        &self,
        inode: Inode,
        foffset: u64,
        len: u64,
        flags: u64,
        moffset: u64,
        host_shm_base: u64,
        shm_size: u64,
    ) -> (step: Step<SetupMapping, ()>)
        requires
            is_addressable(moffset, len, host_shm_base, shm_size),
        ensures
            step == setupmapping_start(
                self@,
                inode,
                foffset,
                len,
                flags,
                moffset,
                host_shm_base,
                shm_size,
            ),
    {
        let writable = (flags & SETUPMAPPING_WRITE) != 0;
        let open_flags: i32 = if writable {
            O_RDWR
        } else {
            O_RDONLY
        };
        if (moffset + len) > shm_size {
            return Step::Done(Err(einval()));
        }
        let addr: u64 = host_shm_base + moffset;
        let len: usize = #[verifier::truncate]
        (len as usize);
        if inode == INIT_INODE {
            let copy: usize = if len > self.init_len() {
                self.init_len()
            } else {
                len
            };
            return Step::Call(
                map_fresh_call(addr, len, PROT_READ | PROT_WRITE),
                SetupMapping::MapInit { addr, len, copy },
            );
        }
        match self.open_inode(inode, open_flags) {
            Ok(opening) => Step::Call(
                opening.call(),
                SetupMapping::Open {
                    area: Area {
                        addr,
                        len,
                        foffset: #[verifier::truncate]
                        (foffset as i64),
                        writable,
                    },
                    opening,
                },
            ),
            Err(e) => Step::Done(Err(e)),
        }
    }

    /// Takes mappings out of the window of `shm_size` bytes at `host_shm_base`.
    pub fn removemapping(
        &self,
        requests: Vec<RemovemappingOne>,
        host_shm_base: u64,
        shm_size: u64,
    ) -> (step: Step<RemoveMapping, ()>)
        requires
            fits(requests@, 0, host_shm_base),
        ensures
            step == RemoveMapping::at(requests, 0, host_shm_base, shm_size),
            step matches Step::Call(_, op) ==> op.at < op.requests@.len(),
    {
        RemoveMapping::go_to(requests, 0, host_shm_base, shm_size)
    }
}

/// Whether a call maps only memory of the window of `shm_size` bytes at `base`.
pub open spec fn maps_within(call: Syscall, base: u64, shm_size: u64) -> bool {
    call matches Syscall::Mmap { addr, len, .. } ==> base <= addr && addr + len <= base + shm_size
}

/// Nothing is mapped outside of the window, neither when a mapping is made nor when mappings are
/// taken out, and the init program is copied only to where memory was mapped for it.
pub proof fn law_mappings_stay_in_the_window(
    fs: FsView,
    inode: Inode,
    foffset: u64,
    len: u64,
    flags: u64,
    moffset: u64,
    base: u64,
    shm_size: u64,
    fd: RawFd,
)
    requires
        is_addressable(moffset, len, base, shm_size),
        len <= usize::MAX,
    ensures
        match setupmapping_start(fs, inode, foffset, len, flags, moffset, base, shm_size) {
            Step::Call(call, op) => {
                &&& maps_within(call, base, shm_size)
                &&& op matches SetupMapping::Open { area, .. } ==> maps_within(
                    area.map(fd),
                    base,
                    shm_size,
                )
                &&& op matches SetupMapping::MapInit { len, copy, .. } ==> copy <= len && copy
                    <= fs.init_len
            },
            Step::Done(_) => true,
        },
{
}

/// The same of mappings that are taken out.
pub proof fn law_removals_stay_in_the_window(
    requests: Vec<RemovemappingOne>,
    at: int,
    base: u64,
    shm_size: u64,
)
    requires
        0 <= at,
        requests@.len() <= usize::MAX,
        fits(requests@, at, base),
        at < requests@.len() ==> requests@[at].len <= usize::MAX,
    ensures
        RemoveMapping::at(requests, at, base, shm_size) matches Step::Call(call, op) ==> op.at == at
            && maps_within(call, base, shm_size),
{
}

/// Mapping keeps account of files: one that was opened for it is to be closed once it is mapped.
pub proof fn law_mapping_accounts_for_files(op: SetupMapping, fs: FsView, reply: Reply, f: RawFd)
    requires
        op.pending().answered_by(reply),
    ensures
        ({
            let (after, step) = op.next(fs, reply);
            after.holds(f) || (step matches Step::Call(_, op) && op.holds(f)) <==> fs.holds(f)
                || op.holds(f) || reply == Reply::Fd(f)
        }),
{
    if let SetupMapping::MapFile { fd, .. } = op {
        lemma_release_holds(fs, Some(fd), f);
    }
}

} // verus!
