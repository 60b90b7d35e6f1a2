//! In which directories and under which names files are found, made known, moved and removed.

use crate::abi::{
    ATTR_SUBMOUNT, AT_ITSELF, AT_SYMLINK_FOLLOW, EBADF, O_CLOEXEC, O_PATH, PATH_MAX,
    STATX_MASK, S_IFDIR, S_IFMT,
};
use crate::fs::{FsView, InodeData, INIT_INODE};
use crate::lookup::{init_entry, lookup_start, named_start, Lookup, INIT_NAME};
use crate::metadata::ReadOverride;
use crate::model::{
    device_number, stat_of, Entry, FsError, Inode, RawFd, StatVfs, Statx, Timespec,
};
use crate::multikey::{key_of_alt, InodeAltKey};
use crate::ops::{link_start, readlink_start, rename_start, statfs_start, unlink_start, Link};
use crate::override_stat::{override_text, seen, OverrideStat, XATTR_KEY};
use crate::step::{
    bare, call_bytes, carries, fd_text, just_name, proc_prefix, CarriedBytes, Carrying, Path, Reply,
    Step, Syscall, XattrName, XattrTarget, XattrValue, PROC_SELF_FD,
};
use crate::text::{law_digits_start_with_no_zero, law_number_text_round_trip, parsed};
use vstd::prelude::*;

verus! {

/// A rename takes the old name out of the directory that is named first and puts the new name into
/// the one that is named second, also where the two differ: the host is handed the places of both, each
/// before its own name. Its answer is the client's.
pub proof fn law_rename_goes_from_first_to_second(
    fs: FsView,
    olddir: Inode,
    old_place: RawFd,
    oldname: Seq<u8>,
    newdir: Inode,
    new_place: RawFd,
    newname: Seq<u8>,
    flags: u32,
    e: i32,
)
    requires
        fs.has_place(olddir, old_place),
        fs.has_place(newdir, new_place),
    ensures
        ({
            let names = CarriedBytes { name: oldname, other: newname, value: Seq::empty() };
            &&& rename_start(fs, olddir, newdir, flags) matches Step::Call(call, op)
            &&& call matches Syscall::RenameAt2 { old_dir, new_dir, flags: how }
            &&& old_dir == old_place
            &&& new_dir == new_place
            &&& how == flags
            &&& call_bytes(call, names) == (oldname, newname)
            &&& op.next(Reply::Unit) matches Step::Done(Ok(_))
            &&& op.next(Reply::Fail(e)) matches Step::Done(Err(err))
            &&& err == FsError::Os(e)
        }),
{
}

/// A rename is made only where the client knows both directories.
pub proof fn law_rename_needs_both_directories(
    fs: FsView,
    olddir: Inode,
    newdir: Inode,
    flags: u32,
)
    requires
        !fs.inodes.contains_key(olddir) || !fs.inodes.contains_key(newdir),
    ensures
        rename_start(fs, olddir, newdir, flags) matches Step::Done(Err(e)) && e == FsError::Os(
            EBADF,
        ),
{
}

/// A new name is given to the file in the first inode's place, a link to it being followed to the
/// file, in the directory that is the second inode's. The name is then looked up there.
pub proof fn law_link_names_the_first_in_the_second(
    fs: FsView,
    inode: Inode,
    place: RawFd,
    newparent: Inode,
    dir: RawFd,
    newname: Seq<u8>,
    after: FsView,
    e: i32,
)
    requires
        fs.has_place(inode, place),
        fs.has_place(newparent, dir),
    ensures
        ({
            &&& link_start(fs, inode, newparent) matches Step::Call(call, op)
            &&& call matches Syscall::LinkAt { old_dir, path, new_dir, flags }
            &&& old_dir == fs.proc_self_fd
            &&& path == Path::Fd(place)
            &&& new_dir == dir
            &&& flags == AT_SYMLINK_FOLLOW
            &&& call_bytes(call, just_name(newname)) == (fd_text(place), newname)
            &&& op.next(after, Reply::Fail(e)).0 == after
            &&& op.next(after, Reply::Fail(e)).1 matches Step::Done(Err(err))
            &&& err == FsError::Os(e)
            &&& op.next(after, Reply::Unit).0 == after
            &&& match (op.next(after, Reply::Unit).1, lookup_start(after, newparent)) {
                (Step::Call(then, Link::Find { lookup }), Step::Call(first, own)) => lookup == own
                    && then == first,
                (Step::Done(res), Step::Done(own)) => res == own,
                _ => false,
            }
        }),
{
}

/// The lookup of a new name goes on as any lookup does.
pub proof fn law_link_ends_as_a_lookup(lookup: Lookup, fs: FsView, reply: Reply)
    ensures
        ({
            let (after, step) = (Link::Find { lookup }).next(fs, reply);
            let (own_after, own_step) = lookup.next(fs, reply);
            &&& (Link::Find { lookup }).pending() == lookup.pending()
            &&& after == own_after
            &&& match (step, own_step) {
                (Step::Call(_, Link::Find { lookup: then }), Step::Call(_, own)) => then == own,
                (Step::Done(res), Step::Done(own)) => res == own,
                _ => false,
            }
        }),
{
}

/// A name is removed from the directory that is named: as that of a directory where `flags` say so.
/// The host is handed that name. Its answer is the client's.
pub proof fn law_unlink_is_in_the_directory_named(
    fs: FsView,
    parent: Inode,
    dir: RawFd,
    name: Seq<u8>,
    flags: i32,
    e: i32,
)
    requires
        fs.has_place(parent, dir),
    ensures
        ({
            &&& unlink_start(fs, parent, flags) matches Step::Call(call, op)
            &&& call == (Syscall::UnlinkAt { dir, flags })
            &&& call_bytes(call, just_name(name)).0 == name
            &&& op.next(Reply::Unit) matches Step::Done(Ok(_))
            &&& op.next(Reply::Fail(e)) matches Step::Done(Err(err))
            &&& err == FsError::Os(e)
        }),
{
}

/// The text of a link is that of the file in the inode's place, as the host gives it, up to the longest
/// path that there is.
pub proof fn law_link_text_is_of_the_inode(
    fs: FsView,
    inode: Inode,
    place: RawFd,
    text: Vec<u8>,
    e: i32,
)
    requires
        fs.has_place(inode, place),
    ensures
        ({
            &&& readlink_start(fs, inode) matches Step::Call(call, op)
            &&& call == (Syscall::ReadLinkAt { fd: place, size: PATH_MAX })
            &&& op.next(Reply::Bytes(text)) matches Step::Done(Ok(got))
            &&& got == text
            &&& op.next(Reply::Fail(e)) matches Step::Done(Err(err))
            &&& err == FsError::Os(e)
        }),
{
}

/// The state of the file system that the inode's place is in is told as the host tells it.
pub proof fn law_file_system_state_is_of_the_inode(
    fs: FsView,
    inode: Inode,
    place: RawFd,
    out: StatVfs,
    e: i32,
)
    requires
        fs.has_place(inode, place),
    ensures
        ({
            &&& statfs_start(fs, inode) matches Step::Call(call, op)
            &&& call == (Syscall::FstatVfs { fd: place })
            &&& op.next(Reply::StatVfs(out)) matches Step::Done(Ok(got))
            &&& got == out
            &&& op.next(Reply::Fail(e)) matches Step::Done(Err(err))
            &&& err == FsError::Os(e)
        }),
{
}

/// None of these is asked of the host for an inode that the client does not know.
pub proof fn law_unknown_place_is_refused(fs: FsView, inode: Inode, flags: i32)
    requires
        !fs.inodes.contains_key(inode),
    ensures
        unlink_start(fs, inode, flags) matches Step::Done(Err(e)) && e == FsError::Os(EBADF),
        readlink_start(fs, inode) matches Step::Done(Err(e)) && e == FsError::Os(EBADF),
        statfs_start(fs, inode) matches Step::Done(Err(e)) && e == FsError::Os(EBADF),
{
}

/// The text of a file descriptor spells its number, so that two are never mixed up in a path.
pub proof fn law_fd_text_spells_its_number(fd: RawFd, other: RawFd)
    requires
        0 <= fd,
        0 <= other,
    ensures
        parsed(fd_text(fd), 10) == Some(fd as u32),
        fd_text(fd) == fd_text(other) ==> fd == other,
        fd > 0 ==> fd_text(fd)[0] != 48,
        fd > 0 ==> fd_text((-fd) as i32) == seq![45u8] + fd_text(fd),
        (proc_prefix() + fd_text(fd)).skip(14) == fd_text(fd),
{
    law_number_text_round_trip(fd as u32, 10);
    law_number_text_round_trip(other as u32, 10);
    if fd > 0 {
        law_digits_start_with_no_zero(fd as nat, 10);
    }
    assert((proc_prefix() + fd_text(fd)).skip(14) =~= fd_text(fd));
}

/// A lookup opens the name in the place of the directory that is named, as a place in the tree: a link
/// is not followed and child processes do not get it. The file that the host opened is then asked for
/// its attributes, and next for its override. A lookup that the host refuses ends with its reason, the
/// file being closed if it was open, and the client learns of no inode.
pub proof fn law_lookup_asks_the_file_under_the_name(
    fs: FsView,
    parent: Inode,
    dir: RawFd,
    name: Seq<u8>,
    after: FsView,
    fd: RawFd,
    stx: Statx,
    e: i32,
)
    requires
        fs.has_place(parent, dir),
    ensures
        ({
            let closed = FsView { released: after.released.push(fd), ..after };
            &&& lookup_start(fs, parent) matches Step::Call(open, op)
            &&& open matches Syscall::OpenAt { dir: from, path, flags, mode }
            &&& from == dir
            &&& path == Path::Name
            &&& flags == O_PATH | fs.machine.o_nofollow | O_CLOEXEC
            &&& mode == 0
            &&& call_bytes(open, just_name(name)).0 == name
            &&& op.next(after, Reply::Fail(e)).0 == after
            &&& op.next(after, Reply::Fail(e)).1 matches Step::Done(Err(unopened))
            &&& unopened == FsError::Os(e)
            &&& op.next(after, Reply::Fd(fd)).0 == after
            &&& op.next(after, Reply::Fd(fd)).1 matches Step::Call(ask, then)
            &&& ask == (Syscall::Statx { fd, flags: AT_ITSELF, mask: STATX_MASK })
            &&& then.next(after, Reply::Fail(e)).0 == closed
            &&& then.next(after, Reply::Fail(e)).1 matches Step::Done(Err(unknown))
            &&& unknown == FsError::Os(e)
            &&& then.next(after, Reply::Statx(stx)).0 == after
            &&& then.next(after, Reply::Statx(stx)).1 matches Step::Call(kind, last)
            &&& kind == (Syscall::FstatAt { fd, flags: AT_ITSELF })
            &&& last == (Lookup::Override {
                parent: fs.inodes[parent].1,
                fd,
                stx,
                read: ReadOverride::Kind { fd },
            })
        }),
{
}

/// What a lookup knows of the file stays as it is while the override is read.
pub proof fn law_lookup_keeps_what_it_learned(
    parent: InodeData,
    fd: RawFd,
    stx: Statx,
    read: ReadOverride,
    fs: FsView,
    reply: Reply,
)
    requires
        read.is_of(fd),
        read.pending().answered_by(reply),
    ensures
        ({
            let op = Lookup::Override { parent, fd, stx, read };
            let (after, step) = op.next(fs, reply);
            &&& op.pending() == read.pending()
            &&& match (step, read.next(reply)) {
                (Step::Call(_, then), Step::Call(_, reading)) => after == fs && then
                    == (Lookup::Override { parent, fd, stx, read: reading }) && reading.is_of(fd),
                (Step::Done(Err(e)), Step::Done(Err(own))) => e == own && after == (FsView {
                    released: fs.released.push(fd),
                    ..fs
                }),
                (Step::Done(Ok(_)), Step::Done(Ok(_))) => true,
                _ => false,
            }
        }),
{
}

/// What the client is told of a file that was found. Its attributes are those of the host's report
/// through the override; it may keep them, and the name, for the times that the options say. It is
/// told of a mount point just where those are announced and the file is a directory on another device
/// or mount than the directory that it is in.
pub proof fn law_found_file_is_told_as_it_is(
    parent: InodeData,
    fd: RawFd,
    stx: Statx,
    read: ReadOverride,
    fs: FsView,
    reply: Reply,
    over: OverrideStat,
)
    requires
        read.next(reply) matches Step::Done(Ok(got)) && got == over,
    ensures
        ({
            let dev = device_number(stx.stx_dev_major, stx.stx_dev_minor);
            let op = Lookup::Override { parent, fd, stx, read };
            &&& op.next(fs, reply).1 matches Step::Done(Ok(entry))
            &&& entry.generation == 0
            &&& entry.attr_timeout == fs.cfg.attr_timeout
            &&& entry.entry_timeout == fs.cfg.entry_timeout
            &&& entry.attr == seen(stat_of(stx), over, fs.my_uid, fs.my_gid)
            &&& entry.attr_flags == (if fs.announce_submounts && stx.stx_mode as u32 & S_IFMT
                == S_IFDIR && (dev != parent.dev || stx.stx_mnt_id != parent.mnt_id) {
                ATTR_SUBMOUNT
            } else {
                0
            })
        }),
{
}

/// Which inode a file gets that was found. One that is known under the same number, device and mount
/// keeps its inode and its place, has one more reference, and the new place is to be closed. Another
/// gets the next inode with this as its place and one reference. No other inode changes, and nothing
/// else does.
pub proof fn law_found_file_is_made_known(
    parent: InodeData,
    fd: RawFd,
    stx: Statx,
    read: ReadOverride,
    fs: FsView,
    reply: Reply,
)
    requires
        fs.wf(),
        read.next(reply) matches Step::Done(Ok(_)),
    ensures
        ({
            let (after, step) = (Lookup::Override { parent, fd, stx, read }).next(fs, reply);
            &&& step matches Step::Done(Ok(entry))
            &&& is_filed(fs, after, entry.inode, stx, fd)
            &&& forall|other: Inode|
                other != entry.inode ==> (#[trigger] after.inodes.contains_key(other)
                    == fs.inodes.contains_key(other)) && after.inodes[other] == fs.inodes[other]
            &&& after == (FsView {
                inodes: after.inodes,
                next_inode: after.next_inode,
                released: after.released,
                ..fs
            })
        }),
{
    let alt = InodeAltKey {
        ino: stx.stx_ino,
        dev: device_number(stx.stx_dev_major, stx.stx_dev_minor),
        mnt_id: stx.stx_mnt_id,
    };
    assert(alt == crate::lookup::alt_of(stx));
    match key_of_alt(fs.inodes, alt) {
        Some(inode) => {
            assert(fs.inodes.contains_key(inode) && fs.inodes[inode].0 == alt);
        },
        None => {},
    }
}

/// Whether the file of the report `stx`, opened as `fd`, is known as `inode` in the state `after` that
/// followed `fs`.
pub open spec fn is_filed(fs: FsView, after: FsView, inode: Inode, stx: Statx, fd: RawFd) -> bool {
    let dev = device_number(stx.stx_dev_major, stx.stx_dev_minor);
    &&& after.inodes.contains_key(inode)
    &&& after.inodes[inode].0 == (InodeAltKey { ino: stx.stx_ino, dev, mnt_id: stx.stx_mnt_id })
    &&& after.inodes[inode].1.inode == inode
    &&& after.inodes[inode].1.dev == dev
    &&& after.inodes[inode].1.mnt_id == stx.stx_mnt_id
    &&& if fs.inodes.contains_key(inode) && fs.inodes[inode].0 == after.inodes[inode].0 {
        &&& after.inodes[inode].1.fd == fs.inodes[inode].1.fd
        &&& after.inodes[inode].1.refcount == (if fs.inodes[inode].1.refcount == u64::MAX {
            0
        } else {
            fs.inodes[inode].1.refcount + 1
        })
        &&& after.released == fs.released.push(fd)
        &&& after.next_inode == fs.next_inode
    } else {
        &&& inode == fs.next_inode
        &&& after.inodes[inode].1.fd == fd
        &&& after.inodes[inode].1.refcount == 1
        &&& !fs.inodes.contains_key(inode) ==> after.released == fs.released
        &&& after.next_inode == (if inode == u64::MAX {
            0
        } else {
            inode + 1
        })
    }
}

/// A `statx` report is taken over field by field: the device of the file is not taken for the one that
/// it stands for, nor one time for another.
pub proof fn law_report_is_taken_over(stx: Statx)
    ensures
        ({
            let st = stat_of(stx);
            &&& st.st_dev == device_number(stx.stx_dev_major, stx.stx_dev_minor)
            &&& st.st_rdev == device_number(stx.stx_rdev_major, stx.stx_rdev_minor)
            &&& st.st_ino == stx.stx_ino
            &&& st.st_nlink == stx.stx_nlink
            &&& st.st_mode == stx.stx_mode
            &&& st.st_uid == stx.stx_uid
            &&& st.st_gid == stx.stx_gid
            &&& stx.stx_size <= i64::MAX ==> st.st_size == stx.stx_size
            &&& stx.stx_blocks <= i64::MAX ==> st.st_blocks == stx.stx_blocks
            &&& st.st_blksize == stx.stx_blksize
            &&& st.st_atime == stx.stx_atime.tv_sec
            &&& st.st_atime_nsec == stx.stx_atime.tv_nsec
            &&& st.st_mtime == stx.stx_mtime.tv_sec
            &&& st.st_mtime_nsec == stx.stx_mtime.tv_nsec
            &&& st.st_ctime == stx.stx_ctime.tv_sec
            &&& st.st_ctime_nsec == stx.stx_ctime.tv_nsec
        }),
{
}

/// Two devices never have the same number.
pub proof fn law_device_numbers_tell_devices_apart(a: (u32, u32), b: (u32, u32))
    requires
        device_number(a.0, a.1) == device_number(b.0, b.1),
    ensures
        a == b,
{
    let (major, minor) = a;
    let (other_major, other_minor) = b;
    assert(major == other_major && minor == other_minor) by (bit_vector)
        requires
            ((major as u64 & 0xfff) << 8) | ((major as u64 & 0xfffff000) << 32) | (minor as u64
                & 0xff) | ((minor as u64 & 0xffffff00) << 12) == ((other_major as u64 & 0xfff) << 8)
                | ((other_major as u64 & 0xfffff000) << 32) | (other_minor as u64 & 0xff) | ((
            other_minor as u64 & 0xffffff00) << 12),
    ;
}

/// The init program is told of as a plain file of root's that all may run, of the program's length,
/// under its own inode and for the times that the options say.
pub proof fn law_init_is_told_as_a_program(fs: FsView)
    requires
        fs.init_len <= i64::MAX,
    ensures
        ({
            let entry = init_entry(fs);
            &&& entry.inode == INIT_INODE
            &&& entry.generation == 0
            &&& entry.attr_flags == 0
            &&& entry.attr_timeout == fs.cfg.attr_timeout
            &&& entry.entry_timeout == fs.cfg.entry_timeout
            &&& entry.attr.st_ino == INIT_INODE
            &&& entry.attr.st_size == fs.init_len
            &&& entry.attr.st_mode == 0o100755
            &&& entry.attr.st_uid == 0
            &&& entry.attr.st_gid == 0
            &&& entry.attr.st_dev == 0
            &&& entry.attr.st_nlink == 0
            &&& entry.attr.st_rdev == 0
            &&& entry.attr.st_blksize == 0
            &&& entry.attr.st_blocks == 0
            &&& entry.attr.st_atime == 0 && entry.attr.st_atime_nsec == 0
            &&& entry.attr.st_mtime == 0 && entry.attr.st_mtime_nsec == 0
            &&& entry.attr.st_ctime == 0 && entry.attr.st_ctime_nsec == 0
        }),
{
}

/// The init program is found under its name in every directory, known to the client or not, and the
/// host is not asked. Every other name is looked up in its directory.
pub proof fn law_only_the_init_program_is_not_looked_up(fs: FsView, parent: Inode, name: Seq<u8>)
    ensures
        name == seq![105u8, 110, 105, 116, 46, 107, 114, 117, 110] ==> named_start(fs, parent, name)
            == Step::<Lookup, Entry>::Done(Ok(init_entry(fs))),
        name != seq![105u8, 110, 105, 116, 46, 107, 114, 117, 110] ==> named_start(fs, parent, name)
            == lookup_start(fs, parent),
{
    assert(INIT_NAME@ =~= seq![105u8, 110, 105, 116, 46, 107, 114, 117, 110]);
}

/// The byte strings that a call hands to the host. A path is the name that the request carries, or the
/// text of a file descriptor; an attribute is that of the override, with the text of the override as
/// its value, or the one that the request carries, with the value that it carries.
pub proof fn law_calls_hand_over_what_they_name(
    carried: CarriedBytes,
    dir: RawFd,
    path: Path,
    target: XattrTarget,
    over: OverrideStat,
    time: Timespec,
    mode: u32,
    flags: i32,
    size: usize,
)
    ensures
        ({
            let text = match path {
                Path::Name => carried.name,
                Path::Fd(n) => fd_text(n),
            };
            let open = Syscall::OpenAt { dir, path, flags, mode };
            let chmod = Syscall::FchmodAt { dir, path, mode };
            let times = Syscall::UtimensAt { dir, path, atime: time, mtime: time };
            let none = Seq::<u8>::empty();
            &&& call_bytes(open, carried) == (text, none)
            &&& call_bytes(chmod, carried) == (text, none)
            &&& call_bytes(times, carried) == (text, none)
            &&& call_bytes(Syscall::OpenRoot { flags }, carried) == (carried.name, none)
            &&& call_bytes(Syscall::RemoveRootDir, carried) == (carried.name, none)
            &&& call_bytes(Syscall::OpenProcSelfFd { flags }, carried).0.push(47) == proc_prefix()
        }),
        ({
            let own = XattrName::Override;
            let value = XattrValue::Override(over);
            &&& call_bytes(Syscall::GetXattr { target, name: own, size }, carried).0 == XATTR_KEY@
            &&& call_bytes(Syscall::SetXattr { target, name: own, value, flags }, carried) == (
                XATTR_KEY@,
                override_text(over),
            )
        }),
        ({
            let own = XattrName::Guest;
            let value = XattrValue::Guest;
            &&& call_bytes(Syscall::GetXattr { target, name: own, size }, carried).0 == carried.name
            &&& call_bytes(Syscall::RemoveXattr { target, name: own }, carried).0 == carried.name
            &&& call_bytes(Syscall::SetXattr { target, name: own, value, flags }, carried) == (
                carried.name,
                carried.value,
            )
        }),
{
    assert(PROC_SELF_FD@.push(47) =~= proc_prefix());
}

/// A request with its bytes is that request, and carries those bytes in their places: nothing else
/// about it changes.
pub proof fn law_bytes_travel_with_the_request<S, T>(
    step: Step<Carrying<S>, T>,
    bytes: CarriedBytes,
    name: Seq<u8>,
)
    requires
        carries(step, bytes),
    ensures
        match (step, bare(step)) {
            (Step::Call(call, request), Step::Call(own, op)) => {
                &&& own == call
                &&& op == request.op
                &&& request.carried.name@ == bytes.name
                &&& request.carried.other@ == bytes.other
                &&& request.carried.value@ == bytes.value
            },
            (Step::Done(res), Step::Done(own)) => res == own,
            _ => false,
        },
        just_name(name).name == name,
        just_name(name).other.len() == 0,
        just_name(name).value.len() == 0,
{
}

} // verus!
