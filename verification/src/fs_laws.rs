//! What holds of the numbers and files that the file system keeps, whatever the client does.

use crate::abi::{EBADF, ROOT_ID};
use crate::config::Config;
use crate::fs::{
    destroyed, fresh_view, minus, FsView, HandleData, InodeData, FIRST_HANDLE, FIRST_INODE,
    INIT_HANDLE, INIT_INODE,
};
use crate::model::{FsError, Handle, Inode, Machine, RawFd};
use crate::multikey::{enumerates, key_of_alt, without_alt, InodeAltKey};
use vstd::prelude::*;

verus! {

impl FsView {
    /// Whether the numbers to be given out next were never given out: all numbers in use lie below
    /// them, and so do the reserved ones.
    pub open spec fn numbers_are_fresh(self) -> bool {
        &&& self.next_inode >= FIRST_INODE
        &&& self.next_handle >= FIRST_HANDLE
        &&& forall|i: Inode| #[trigger] self.inodes.contains_key(i) ==> i < self.next_inode
        &&& forall|h: Handle| #[trigger]
            self.handles.contains_key(h) ==> INIT_HANDLE < h < self.next_handle
        &&& !self.inodes.contains_key(INIT_INODE)
    }

    /// Whether `fd` is accounted for: some inode or handle uses it, or it is to be closed.
    pub open spec fn holds(self, fd: RawFd) -> bool {
        ||| exists|i: Inode| #[trigger] self.inodes.contains_key(i) && self.inodes[i].1.fd == fd
        ||| exists|h: Handle| #[trigger] self.handles.contains_key(h) && self.handles[h].fd == fd
        ||| self.released.contains(fd)
    }
}

proof fn lemma_key_of_alt(fs: FsView, alt: InodeAltKey)
    requires
        fs.wf(),
    ensures
        key_of_alt(fs.inodes, alt) matches Some(inode) ==> fs.inodes.contains_key(inode)
            && fs.inodes[inode].0 == alt,
        forall|i: Inode| #[trigger]
            fs.inodes.contains_key(i) && fs.inodes[i].0 == alt ==> key_of_alt(fs.inodes, alt)
                == Some(i),
{
}

/// A lookup keeps the tables in order, and a file that was looked up is found under the inode that
/// it was given.
pub proof fn law_looked_up_file_is_known(fs: FsView, alt: InodeAltKey, fd: RawFd)
    requires
        fs.wf(),
    ensures
        fs.interned(alt, fd).wf(),
        fs.interned(alt, fd).inodes.contains_key(fs.inode_for(alt)),
        fs.interned(alt, fd).inodes[fs.inode_for(alt)].0 == alt,
        fs.interned(alt, fd).inode_for(alt) == fs.inode_for(alt),
{
    lemma_key_of_alt(fs, alt);
    let after = fs.interned(alt, fd);
    assert(after.inodes.contains_key(fs.inode_for(alt)));
    lemma_key_of_alt(after, alt);
}

/// Two files never share an inode, and one file never has two.
pub proof fn law_inodes_tell_files_apart(fs: FsView, a: Inode, b: Inode)
    requires
        fs.wf(),
        fs.inodes.contains_key(a),
        fs.inodes.contains_key(b),
    ensures
        a == b <==> fs.inodes[a].0 == fs.inodes[b].0,
{
}

/// Giving back the reference that a lookup gave leaves the client's inodes as they were. The file
/// that the lookup opened is then to be closed.
pub proof fn law_forget_undoes_lookup(fs: FsView, alt: InodeAltKey, fd: RawFd)
    requires
        fs.wf(),
        fs.inodes.contains_key(fs.inode_for(alt)) ==> key_of_alt(fs.inodes, alt) is Some && 0
            < fs.inodes[fs.inode_for(alt)].1.refcount < u64::MAX,
    ensures
        fs.interned(alt, fd).forgotten(fs.inode_for(alt), 1).inodes == fs.inodes,
        fs.interned(alt, fd).forgotten(fs.inode_for(alt), 1).released == fs.released.push(fd),
{
    lemma_key_of_alt(fs, alt);
    let after = fs.interned(alt, fd).forgotten(fs.inode_for(alt), 1);
    assert(after.inodes =~= fs.inodes);
}

/// An inode goes with its last reference, and not before. Its file is then to be closed, and the
/// client can no longer use it. More references than there are do not hurt.
pub proof fn law_inode_goes_with_its_last_reference(fs: FsView, inode: Inode, count: u64)
    requires
        fs.wf(),
        fs.inodes.contains_key(inode),
    ensures
        fs.forgotten(inode, count).wf(),
        count >= fs.inodes[inode].1.refcount ==> fs.forgotten(inode, count).find_inode(inode)
            == Err::<InodeData, FsError>(FsError::Os(EBADF)) && fs.forgotten(
            inode,
            count,
        ).released == fs.released.push(fs.inodes[inode].1.fd),
        count < fs.inodes[inode].1.refcount ==> fs.forgotten(inode, count).inodes[inode].1.refcount
            == fs.inodes[inode].1.refcount - count && fs.forgotten(inode, count).released
            == fs.released,
        forall|other: Inode|
            other != inode ==> #[trigger] fs.forgotten(inode, count).find_inode(other)
                == fs.find_inode(other),
{
}

/// References may be given back at once or bit by bit, as long as some are left in between.
pub proof fn law_forgets_add_up(fs: FsView, inode: Inode, a: u64, b: u64)
    requires
        fs.inodes.contains_key(inode) ==> a < fs.inodes[inode].1.refcount,
        a + b <= u64::MAX,
    ensures
        fs.forgotten(inode, a).forgotten(inode, b) == fs.forgotten(inode, (a + b) as u64),
{
    let left = fs.forgotten(inode, a).forgotten(inode, b);
    let right = fs.forgotten(inode, (a + b) as u64);
    if fs.inodes.contains_key(inode) {
        assert(left.inodes =~= right.inodes);
    }
}

/// The inode that a lookup gives to a new file was never given out before, and is not a reserved
/// one; until the numbers run out this stays so.
pub proof fn law_new_inodes_are_fresh(fs: FsView, alt: InodeAltKey, fd: RawFd)
    requires
        fs.wf(),
        fs.numbers_are_fresh(),
        key_of_alt(fs.inodes, alt) is None,
        fs.next_inode < u64::MAX,
    ensures
        !fs.inodes.contains_key(fs.inode_for(alt)),
        fs.inode_for(alt) != ROOT_ID,
        fs.inode_for(alt) != INIT_INODE,
        fs.interned(alt, fd).numbers_are_fresh(),
{
}

/// The handle that an open gives was never given out before, and is not the reserved one; until the
/// numbers run out this stays so.
pub proof fn law_new_handles_are_fresh(fs: FsView, inode: Inode, fd: RawFd)
    requires
        fs.wf(),
        fs.numbers_are_fresh(),
        fs.next_handle < u64::MAX,
    ensures
        !fs.handles.contains_key(fs.next_handle),
        fs.next_handle != INIT_HANDLE,
        fs.with_handle(inode, fd).numbers_are_fresh(),
        fs.with_handle(inode, fd).find_handle(inode, fs.next_handle) == Ok::<HandleData, FsError>(
            HandleData { inode, fd, exported: false },
        ),
{
}

/// Everything else that happens to the tables keeps the numbers fresh too.
pub proof fn law_numbers_stay_fresh(
    fs: FsView,
    alt: InodeAltKey,
    fd: RawFd,
    inode: Inode,
    count: u64,
    handle: Handle,
)
    requires
        fs.wf(),
        fs.numbers_are_fresh(),
    ensures
        key_of_alt(fs.inodes, alt) is Some ==> fs.interned(alt, fd).numbers_are_fresh(),
        fs.with_root(alt, fd).numbers_are_fresh(),
        fs.forgotten(inode, count).numbers_are_fresh(),
        fs.without_handle(handle).numbers_are_fresh(),
        fs.handles.contains_key(handle) ==> fs.with_exported(handle).numbers_are_fresh(),
        forall|handles: Seq<Handle>, inodes: Seq<Inode>| #[trigger]
            destroyed(fs, handles, inodes).numbers_are_fresh(),
{
    lemma_key_of_alt(fs, alt);
}

/// A file system starts with fresh numbers.
pub proof fn law_numbers_start_fresh(
    cfg: Config,
    init_len: usize,
    machine: Machine,
    proc_self_fd: RawFd,
    my_uid: Option<u32>,
    my_gid: Option<u32>,
    cap_fowner: bool,
)
    ensures
        fresh_view(
            cfg,
            init_len,
            machine,
            proc_self_fd,
            my_uid,
            my_gid,
            cap_fowner,
        ).numbers_are_fresh(),
{
}

/// A handle that was closed is gone, and no other handle with it.
pub proof fn law_closed_handle_is_gone(fs: FsView, inode: Inode, handle: Handle)
    requires
        fs.find_handle(inode, handle) is Ok,
    ensures
        fs.without_handle(handle).find_handle(inode, handle) == Err::<HandleData, FsError>(
            FsError::Os(EBADF),
        ),
        forall|i: Inode, other: Handle|
            other != handle ==> #[trigger] fs.without_handle(handle).find_handle(i, other)
                == fs.find_handle(i, other),
{
}

/// A file that is queued to be closed is accounted for, and nothing else changes.
pub proof fn lemma_release_holds(fs: FsView, fd: Option<RawFd>, f: RawFd)
    ensures
        fs.releasing_if(fd).holds(f) <==> fs.holds(f) || fd == Some(f),
{
    let after = fs.releasing_if(fd);
    if let Some(fd) = fd {
        if fs.released.contains(f) {
            let i = choose|i: int| 0 <= i < fs.released.len() && fs.released[i] == f;
            assert(after.released[i] == f);
        }
        assert(after.released[fs.released.len() as int] == fd);
        if after.released.contains(f) {
            let i = choose|i: int| 0 <= i < after.released.len() && after.released[i] == f;
            assert(i < fs.released.len() ==> fs.released[i] == f);
        }
    }
    lemma_same_use(fs, after, f);
}

/// Whether some inode or handle uses a file depends on those tables alone.
proof fn lemma_same_use(a: FsView, b: FsView, f: RawFd)
    requires
        a.inodes == b.inodes,
        a.handles == b.handles,
    ensures
        a.holds(f) && !a.released.contains(f) ==> b.holds(f),
        b.holds(f) && !b.released.contains(f) ==> a.holds(f),
{
}

/// After a lookup just those files are accounted for that were before it, and the one that it
/// opened.
pub proof fn law_lookup_accounts_for_files(fs: FsView, alt: InodeAltKey, fd: RawFd, f: RawFd)
    requires
        fs.wf(),
    ensures
        fs.interned(alt, fd).holds(f) <==> fs.holds(f) || f == fd,
{
    lemma_key_of_alt(fs, alt);
    let after = fs.interned(alt, fd);
    let filed = FsView { released: fs.released, ..after };
    let known = key_of_alt(fs.inodes, alt);
    let gone = match known {
        Some(inode) => Some(fd),
        None => if fs.inodes.contains_key(fs.next_inode) {
            Some(fs.inodes[fs.next_inode].1.fd)
        } else {
            None
        },
    };
    assert(filed.releasing_if(gone) =~= after);
    if exists|i: Inode| #[trigger] fs.inodes.contains_key(i) && fs.inodes[i].1.fd == f {
        let i = choose|i: Inode| #[trigger] fs.inodes.contains_key(i) && fs.inodes[i].1.fd == f;
        assert(known is Some || i != fs.next_inode ==> filed.inodes.contains_key(i)
            && filed.inodes[i].1.fd == f);
    }
    if exists|i: Inode| #[trigger] filed.inodes.contains_key(i) && filed.inodes[i].1.fd == f {
        let i = choose|i: Inode| #[trigger]
            filed.inodes.contains_key(i) && filed.inodes[i].1.fd == f;
        assert(known is Some || i != fs.next_inode ==> fs.inodes.contains_key(i)
            && fs.inodes[i].1.fd == f);
    }
    assert(known is None ==> filed.inodes.contains_key(fs.next_inode));
    lemma_release_holds(filed, gone, f);
}

/// What is accounted for depends on the tables and the queue alone.
pub proof fn lemma_same_tables(a: FsView, b: FsView, fd: RawFd)
    requires
        a.inodes == b.inodes,
        a.handles == b.handles,
        a.released == b.released,
    ensures
        a.holds(fd) == b.holds(fd),
{
}

/// After the root directory was filed just those files are accounted for that were before, and the
/// one that was opened for it, whatever was filed in its place.
pub proof fn law_root_accounts_for_files(fs: FsView, alt: InodeAltKey, fd: RawFd, f: RawFd)
    requires
        fs.wf(),
    ensures
        fs.with_root(alt, fd).holds(f) <==> fs.holds(f) || f == fd,
{
    lemma_key_of_alt(fs, alt);
    let same_file = match key_of_alt(fs.inodes, alt) {
        Some(inode) => Some(fs.inodes[inode].1.fd),
        None => None,
    };
    let same_number = if without_alt(fs.inodes, alt).contains_key(ROOT_ID) {
        Some(fs.inodes[ROOT_ID].1.fd)
    } else {
        None
    };
    let after = fs.with_root(alt, fd);
    let filed = FsView { released: fs.released, ..after };
    assert(filed.releasing_if(same_file).releasing_if(same_number) =~= after);
    if exists|i: Inode| #[trigger] fs.inodes.contains_key(i) && fs.inodes[i].1.fd == f {
        let i = choose|i: Inode| #[trigger] fs.inodes.contains_key(i) && fs.inodes[i].1.fd == f;
        assert(fs.inodes[i].0 != alt && i != ROOT_ID ==> filed.inodes.contains_key(i)
            && filed.inodes[i].1.fd == f);
    }
    if exists|i: Inode| #[trigger] filed.inodes.contains_key(i) && filed.inodes[i].1.fd == f {
        let i = choose|i: Inode| #[trigger]
            filed.inodes.contains_key(i) && filed.inodes[i].1.fd == f;
        assert(i != ROOT_ID ==> fs.inodes.contains_key(i) && fs.inodes[i].1.fd == f);
    }
    assert(filed.inodes.contains_key(ROOT_ID));
    lemma_release_holds(filed, same_file, f);
    lemma_release_holds(filed.releasing_if(same_file), same_number, f);
}

/// Giving back references changes nothing about which files are accounted for.
pub proof fn law_forget_accounts_for_files(fs: FsView, inode: Inode, count: u64, f: RawFd)
    ensures
        fs.forgotten(inode, count).holds(f) <==> fs.holds(f),
{
    let after = fs.forgotten(inode, count);
    if fs.inodes.contains_key(inode) {
        let data = fs.inodes[inode].1;
        let gone = if minus(data.refcount, count) == 0 {
            Some(data.fd)
        } else {
            None
        };
        let filed = FsView { released: fs.released, ..after };
        assert(filed.releasing_if(gone) =~= after);
        if exists|i: Inode| #[trigger] fs.inodes.contains_key(i) && fs.inodes[i].1.fd == f {
            let i = choose|i: Inode| #[trigger] fs.inodes.contains_key(i) && fs.inodes[i].1.fd == f;
            assert(i != inode || gone is None ==> filed.inodes.contains_key(i)
                && filed.inodes[i].1.fd == f);
        }
        if exists|i: Inode| #[trigger] filed.inodes.contains_key(i) && filed.inodes[i].1.fd == f {
            let i = choose|i: Inode| #[trigger]
                filed.inodes.contains_key(i) && filed.inodes[i].1.fd == f;
            assert(fs.inodes.contains_key(i) && fs.inodes[i].1.fd == f);
        }
        lemma_release_holds(filed, gone, f);
    }
}

/// After a file was opened for the client it is accounted for besides those that were; closing one
/// changes nothing about it.
pub proof fn law_handles_account_for_files(
    fs: FsView,
    inode: Inode,
    fd: RawFd,
    handle: Handle,
    f: RawFd,
)
    ensures
        fs.with_handle(inode, fd).holds(f) <==> fs.holds(f) || f == fd,
        fs.handles.contains_key(handle) ==> (fs.without_handle(handle).holds(f) <==> fs.holds(f)),
{
    let after = fs.with_handle(inode, fd);
    let displaced = if fs.handles.contains_key(fs.next_handle) {
        Some(fs.handles[fs.next_handle].fd)
    } else {
        None
    };
    let filed = FsView { released: fs.released, ..after };
    assert(filed.releasing_if(displaced) =~= after);
    if exists|h: Handle| #[trigger] fs.handles.contains_key(h) && fs.handles[h].fd == f {
        let h = choose|h: Handle| #[trigger] fs.handles.contains_key(h) && fs.handles[h].fd == f;
        assert(h != fs.next_handle ==> filed.handles.contains_key(h) && filed.handles[h].fd == f);
    }
    if exists|h: Handle| #[trigger] filed.handles.contains_key(h) && filed.handles[h].fd == f {
        let h = choose|h: Handle| #[trigger]
            filed.handles.contains_key(h) && filed.handles[h].fd == f;
        assert(h != fs.next_handle ==> fs.handles.contains_key(h) && fs.handles[h].fd == f);
    }
    assert(filed.handles.contains_key(fs.next_handle));
    lemma_release_holds(filed, displaced, f);
    if fs.handles.contains_key(handle) {
        let after = fs.without_handle(handle);
        let filed = FsView { released: fs.released, ..after };
        let gone = fs.handles[handle].fd;
        assert(filed.releasing(gone) =~= after);
        if exists|h: Handle| #[trigger] fs.handles.contains_key(h) && fs.handles[h].fd == f {
            let h = choose|h: Handle| #[trigger]
                fs.handles.contains_key(h) && fs.handles[h].fd == f;
            assert(h != handle ==> filed.handles.contains_key(h) && filed.handles[h].fd == f);
        }
        if exists|h: Handle| #[trigger] filed.handles.contains_key(h) && filed.handles[h].fd == f {
            let h = choose|h: Handle| #[trigger]
                filed.handles.contains_key(h) && filed.handles[h].fd == f;
            assert(fs.handles.contains_key(h) && fs.handles[h].fd == f);
        }
        lemma_release_holds(filed, Some(gone), f);
    }
}

/// When the session ends every file that was held is to be closed.
pub proof fn law_destroy_releases_every_file(
    fs: FsView,
    handles: Seq<Handle>,
    inodes: Seq<Inode>,
    f: RawFd,
)
    requires
        enumerates(handles, fs.handles.dom()),
        enumerates(inodes, fs.inodes.dom()),
        fs.holds(f),
    ensures
        destroyed(fs, handles, inodes).released.contains(f),
{
    let after = destroyed(fs, handles, inodes).released;
    let a = fs.released.len();
    if fs.released.contains(f) {
        let i = choose|i: int| 0 <= i < a && fs.released[i] == f;
        assert(after[i] == f);
    } else if exists|h: Handle| #[trigger] fs.handles.contains_key(h) && fs.handles[h].fd == f {
        let h = choose|h: Handle| #[trigger] fs.handles.contains_key(h) && fs.handles[h].fd == f;
        assert(handles.to_set().contains(h));
        let i = choose|i: int| 0 <= i < handles.len() && handles[i] == h;
        assert(after[a + i] == f);
    } else {
        let n = choose|n: Inode| #[trigger] fs.inodes.contains_key(n) && fs.inodes[n].1.fd == f;
        assert(inodes.to_set().contains(n));
        let i = choose|i: int| 0 <= i < inodes.len() && inodes[i] == n;
        assert(after[a + handles.len() + i] == f);
    }
}

/// When the session has ended the client knows nothing any more.
pub proof fn law_ended_session_knows_nothing(
    fs: FsView,
    handles: Seq<Handle>,
    inodes: Seq<Inode>,
    inode: Inode,
    handle: Handle,
)
    ensures
        destroyed(fs, handles, inodes).find_inode(inode) == Err::<InodeData, FsError>(
            FsError::Os(EBADF),
        ),
        destroyed(fs, handles, inodes).find_handle(inode, handle) == Err::<HandleData, FsError>(
            FsError::Os(EBADF),
        ),
{
}

impl FsView {
    /// Whether no file is used twice, nor to be closed while it is used, nor to be closed twice.
    pub open spec fn files_are_apart(self) -> bool {
        &&& forall|i: Inode, j: Inode| #[trigger]
            self.inodes.contains_key(i) && #[trigger] self.inodes.contains_key(j) && i != j
                ==> self.inodes[i].1.fd != self.inodes[j].1.fd
        &&& forall|h: Handle, k: Handle| #[trigger]
            self.handles.contains_key(h) && #[trigger] self.handles.contains_key(k) && h != k
                ==> self.handles[h].fd != self.handles[k].fd
        &&& forall|i: Inode, h: Handle| #[trigger]
            self.inodes.contains_key(i) && #[trigger] self.handles.contains_key(h)
                ==> self.inodes[i].1.fd != self.handles[h].fd
        &&& self.released.no_duplicates()
        &&& forall|i: Inode| #[trigger]
            self.inodes.contains_key(i) ==> !self.released.contains(self.inodes[i].1.fd)
        &&& forall|h: Handle| #[trigger]
            self.handles.contains_key(h) ==> !self.released.contains(self.handles[h].fd)
    }
}

/// Queueing a file that is not accounted for keeps files apart.
pub proof fn lemma_release_keeps_files_apart(fs: FsView, fd: Option<RawFd>)
    requires
        fs.files_are_apart(),
        fd matches Some(fd) ==> !fs.holds(fd),
    ensures
        fs.releasing_if(fd).files_are_apart(),
{
    if let Some(fd) = fd {
        let after = fs.releasing(fd);
        assert forall|f: RawFd| after.released.contains(f) implies f == fd || fs.released.contains(
            f,
        ) by {
            let i = choose|i: int| 0 <= i < after.released.len() && after.released[i] == f;
            assert(i < fs.released.len() ==> fs.released[i] == f);
        }
        assert(after.released.no_duplicates()) by {
            assert forall|i: int, j: int|
                0 <= i < after.released.len() && 0 <= j < after.released.len() && i
                    != j implies after.released[i] != after.released[j] by {
                if i < fs.released.len() {
                    assert(fs.released.contains(fs.released[i]));
                }
                if j < fs.released.len() {
                    assert(fs.released.contains(fs.released[j]));
                }
            }
        }
        assert forall|i: Inode| #[trigger] after.inodes.contains_key(i) implies !after.released.contains(
            after.inodes[i].1.fd,
        ) by {
            assert(fs.inodes.contains_key(i));
        }
        assert forall|h: Handle| #[trigger]
            after.handles.contains_key(h) implies !after.released.contains(
            after.handles[h].fd,
        ) by {
            assert(fs.handles.contains_key(h));
        }
    }
}

/// A lookup keeps files apart, if the file that the host opened for it is not one of them.
pub proof fn law_lookup_keeps_files_apart(fs: FsView, alt: InodeAltKey, fd: RawFd)
    requires
        fs.wf(),
        fs.files_are_apart(),
        !fs.holds(fd),
    ensures
        fs.interned(alt, fd).files_are_apart(),
{
    lemma_key_of_alt(fs, alt);
    let after = fs.interned(alt, fd);
    let filed = FsView { released: fs.released, ..after };
    let gone = match key_of_alt(fs.inodes, alt) {
        Some(inode) => Some(fd),
        None => if fs.inodes.contains_key(fs.next_inode) {
            Some(fs.inodes[fs.next_inode].1.fd)
        } else {
            None
        },
    };
    assert(filed.releasing_if(gone) =~= after);
    assert forall|i: Inode| #[trigger] filed.inodes.contains_key(i) implies (
    fs.inodes.contains_key(i) && filed.inodes[i].1.fd == fs.inodes[i].1.fd) || (i == fs.next_inode
        && key_of_alt(fs.inodes, alt) is None && filed.inodes[i].1.fd == fd) by {}
    assert(filed.files_are_apart());
    lemma_release_keeps_files_apart(filed, gone);
}

/// Filing the root directory keeps files apart, if the file that the host opened is not one of them.
pub proof fn law_root_keeps_files_apart(fs: FsView, alt: InodeAltKey, fd: RawFd)
    requires
        fs.wf(),
        fs.files_are_apart(),
        !fs.holds(fd),
    ensures
        fs.with_root(alt, fd).files_are_apart(),
{
    lemma_key_of_alt(fs, alt);
    let after = fs.with_root(alt, fd);
    let filed = FsView { released: fs.released, ..after };
    let same_file = match key_of_alt(fs.inodes, alt) {
        Some(inode) => Some(fs.inodes[inode].1.fd),
        None => None,
    };
    let same_number = if without_alt(fs.inodes, alt).contains_key(ROOT_ID) {
        Some(fs.inodes[ROOT_ID].1.fd)
    } else {
        None
    };
    assert(filed.releasing_if(same_file).releasing_if(same_number) =~= after);
    assert forall|i: Inode| #[trigger] filed.inodes.contains_key(i) implies (i == ROOT_ID
        && filed.inodes[i].1.fd == fd) || (i != ROOT_ID && fs.inodes.contains_key(i)
        && filed.inodes[i] == fs.inodes[i] && fs.inodes[i].0 != alt) by {}
    assert(filed.files_are_apart());
    lemma_release_keeps_files_apart(filed, same_file);
    let middle = filed.releasing_if(same_file);
    if let Some(number) = same_number {
        assert(!filed.holds(number));
        assert(!middle.holds(number)) by {
            if let Some(file) = same_file {
                assert forall|f: RawFd| middle.released.contains(f) implies f == file
                    || fs.released.contains(f) by {
                    let k = choose|k: int| 0 <= k < middle.released.len() && middle.released[k] == f;
                    assert(k < fs.released.len() ==> fs.released[k] == f);
                }
            }
        }
    }
    lemma_release_keeps_files_apart(middle, same_number);
}

/// Giving back references keeps files apart: a file goes to be closed only when nothing uses it.
pub proof fn law_forget_keeps_files_apart(fs: FsView, inode: Inode, count: u64)
    requires
        fs.files_are_apart(),
    ensures
        fs.forgotten(inode, count).files_are_apart(),
{
    if fs.inodes.contains_key(inode) {
        let after = fs.forgotten(inode, count);
        let data = fs.inodes[inode].1;
        let gone = if minus(data.refcount, count) == 0 {
            Some(data.fd)
        } else {
            None
        };
        let filed = FsView { released: fs.released, ..after };
        assert(filed.releasing_if(gone) =~= after);
        assert forall|i: Inode| #[trigger] filed.inodes.contains_key(i) implies fs.inodes.contains_key(
            i,
        ) && filed.inodes[i].1.fd == fs.inodes[i].1.fd && (gone is Some ==> i != inode) by {}
        assert(filed.files_are_apart());
        lemma_release_keeps_files_apart(filed, gone);
    }
}

/// Opening and closing keeps files apart, if the file that the host opened is not one of them.
pub proof fn law_handles_keep_files_apart(fs: FsView, inode: Inode, fd: RawFd, handle: Handle)
    requires
        fs.files_are_apart(),
    ensures
        !fs.holds(fd) ==> fs.with_handle(inode, fd).files_are_apart(),
        fs.handles.contains_key(handle) ==> fs.without_handle(handle).files_are_apart(),
{
    if !fs.holds(fd) {
        let after = fs.with_handle(inode, fd);
        let gone = if fs.handles.contains_key(fs.next_handle) {
            Some(fs.handles[fs.next_handle].fd)
        } else {
            None
        };
        let filed = FsView { released: fs.released, ..after };
        assert(filed.releasing_if(gone) =~= after);
        assert forall|h: Handle| #[trigger] filed.handles.contains_key(h) implies (h
            == fs.next_handle && filed.handles[h].fd == fd) || (h != fs.next_handle
            && fs.handles.contains_key(h) && filed.handles[h] == fs.handles[h]) by {}
        assert(filed.files_are_apart());
        lemma_release_keeps_files_apart(filed, gone);
    }
    if fs.handles.contains_key(handle) {
        let after = fs.without_handle(handle);
        let gone = fs.handles[handle].fd;
        let filed = FsView { released: fs.released, ..after };
        assert(filed.releasing(gone) =~= after);
        assert forall|h: Handle| #[trigger] filed.handles.contains_key(h) implies h != handle
            && fs.handles.contains_key(h) && filed.handles[h] == fs.handles[h] by {}
        assert(filed.files_are_apart());
        lemma_release_keeps_files_apart(filed, Some(gone));
    }
}

/// When the session ends no file is to be closed twice.
pub proof fn law_destroy_keeps_files_apart(
    fs: FsView,
    handles: Seq<Handle>,
    inodes: Seq<Inode>,
)
    requires
        fs.files_are_apart(),
        enumerates(handles, fs.handles.dom()),
        enumerates(inodes, fs.inodes.dom()),
    ensures
        destroyed(fs, handles, inodes).files_are_apart(),
{
    let all = destroyed(fs, handles, inodes).released;
    let a = fs.released.len() as int;
    let b = a + handles.len();
    assert forall|i: int| 0 <= i < handles.len() implies #[trigger] fs.handles.contains_key(
        handles[i],
    ) by {
        assert(handles.to_set().contains(handles[i]));
    }
    assert forall|i: int| 0 <= i < inodes.len() implies #[trigger] fs.inodes.contains_key(
        inodes[i],
    ) by {
        assert(inodes.to_set().contains(inodes[i]));
    }
    assert forall|i: int, j: int| 0 <= i < j < all.len() implies all[i] != all[j] by {
        if i < a {
            assert(all[i] == fs.released[i]);
            assert(fs.released.contains(fs.released[i]));
        } else if i < b {
            assert(all[i] == fs.handles[handles[i - a]].fd);
            assert(fs.handles.contains_key(handles[i - a]));
        } else {
            assert(all[i] == fs.inodes[inodes[i - b]].1.fd);
            assert(fs.inodes.contains_key(inodes[i - b]));
        }
        if j < a {
            assert(all[j] == fs.released[j]);
        } else if j < b {
            assert(all[j] == fs.handles[handles[j - a]].fd);
            assert(fs.handles.contains_key(handles[j - a]));
        } else {
            assert(all[j] == fs.inodes[inodes[j - b]].1.fd);
            assert(fs.inodes.contains_key(inodes[j - b]));
        }
    }
}

/// A list of references is given back one by one, in its order: a list in two parts is given back as
/// first the one and then the other, a list of one as that one, and an empty list changes nothing.
pub proof fn law_references_are_given_back_one_by_one(
    fs: FsView,
    a: Seq<(Inode, u64)>,
    b: Seq<(Inode, u64)>,
    inode: Inode,
    count: u64,
)
    ensures
        fs.all_forgotten(Seq::empty()) == fs,
        fs.all_forgotten(seq![(inode, count)]) == fs.forgotten(inode, count),
        fs.all_forgotten(a + b) == fs.all_forgotten(a).all_forgotten(b),
    decreases b.len(),
{
    assert(seq![(inode, count)].drop_last() =~= Seq::<(Inode, u64)>::empty());
    assert(fs.all_forgotten(seq![(inode, count)].drop_last()) == fs);
    if b.len() == 0 {
        assert(a + b =~= a);
    } else {
        law_references_are_given_back_one_by_one(fs, a, b.drop_last(), inode, count);
        assert((a + b).drop_last() =~= a + b.drop_last());
    }
}

/// Giving back references changes nothing but the inode that is named: not what it is about, nor any
/// handle, number to be given out or part of the setup.
pub proof fn law_forget_touches_only_its_inode(fs: FsView, inode: Inode, count: u64)
    ensures
        ({
            let after = fs.forgotten(inode, count);
            &&& after.handles == fs.handles
            &&& after.next_inode == fs.next_inode
            &&& after.next_handle == fs.next_handle
            &&& !fs.inodes.contains_key(inode) ==> after == fs
            &&& after.inodes.contains_key(inode) ==> after.inodes[inode].0 == fs.inodes[inode].0
                && after.inodes[inode].1 == (InodeData {
                refcount: after.inodes[inode].1.refcount,
                ..fs.inodes[inode].1
            })
            &&& forall|other: Inode|
                other != inode ==> (#[trigger] after.inodes.contains_key(other)
                    == fs.inodes.contains_key(other)) && after.inodes[other] == fs.inodes[other]
            &&& after == (FsView { inodes: after.inodes, released: after.released, ..fs })
        }),
{
}

/// When a session ends the supplementary groups that were agreed on go with it; the setup stays for the
/// next one, and no number is given out again.
pub proof fn law_ended_session_keeps_its_setup(
    fs: FsView,
    handles: Seq<Handle>,
    inodes: Seq<Inode>,
)
    ensures
        ({
            let after = destroyed(fs, handles, inodes);
            &&& !after.supplementary_group_extension
            &&& after.next_inode == fs.next_inode
            &&& after.next_handle == fs.next_handle
            &&& after.writeback == fs.writeback
            &&& after.announce_submounts == fs.announce_submounts
            &&& after.cfg == fs.cfg
            &&& after.machine == fs.machine
            &&& after.my_uid == fs.my_uid
            &&& after.my_gid == fs.my_gid
            &&& after.cap_fowner == fs.cap_fowner
            &&& after.init_len == fs.init_len
            &&& after.proc_self_fd == fs.proc_self_fd
        }),
{
}

/// A file that is open is found under its handle just where the inode is named that it is a file of, and
/// a place just under its own inode.
pub proof fn law_found_is_what_was_filed(fs: FsView, inode: Inode, handle: Handle)
    ensures
        match fs.find_handle(inode, handle) {
            Ok(data) => fs.handles.contains_key(handle) && data == fs.handles[handle] && data.inode
                == inode,
            Err(e) => e == FsError::Os(EBADF) && (!fs.handles.contains_key(handle)
                || fs.handles[handle].inode != inode),
        },
        match fs.find_inode(inode) {
            Ok(data) => fs.inodes.contains_key(inode) && data == fs.inodes[inode].1,
            Err(e) => e == FsError::Os(EBADF) && !fs.inodes.contains_key(inode),
        },
{
}

} // verus!
