//! Which attributes of which file the guest reads and changes.

use crate::abi::{
    EBADF, ELOOP, ENODATA, ENOSYS, ERANGE, O_ACCMODE, O_APPEND, O_CLOEXEC, O_NONBLOCK, O_RDONLY,
};
use crate::fs::{FsView, INIT_INODE};
use crate::guest_xattr::{
    bytes_of_hex, guest_name, hex_text, host_name, is_name, law_guest_list_round_trip, shown_all,
    terminated, GUEST_XATTR_PREFIX,
};
use crate::model::{FsError, Inode, RawFd};
use crate::open::{law_open_flags, Opening};
use crate::step::{Path, Reply, Step, Syscall, XattrName, XattrTarget, XattrValue};
use crate::text::{digit_value, fields};
use crate::xattr::{listing, xattr_start, Xattr, XattrAnswer, XattrJob};
use vstd::prelude::*;

verus! {

/// Whether a call is the one that a job asks for, on the attributes that `target` leads to: with the
/// guest's flags for a value that is stored, and with the guest's size for one that is read. Names are
/// first asked for their length.
pub open spec fn does(call: Syscall, job: XattrJob, target: XattrTarget) -> bool {
    match (job, call) {
        (
            XattrJob::Store { flags },
            Syscall::SetXattr { target: of, name, value, flags: how },
        ) => of == target && name == XattrName::Guest && value == XattrValue::Guest && how == flags,
        (XattrJob::Fetch { size }, Syscall::GetXattr { target: of, name, size: most }) => of
            == target && name == XattrName::Guest && most == size,
        (XattrJob::List { .. }, Syscall::ListXattr { target: of, size }) => of == target && size
            == 0,
        (XattrJob::Remove, Syscall::RemoveXattr { target: of, name }) => of == target && name
            == XattrName::Guest,
        _ => false,
    }
}

/// Work on attributes is done on the file in the inode's place, which is opened for reading and without
/// waiting. A link, which cannot be opened so, is reached through its path, and nothing else is: any
/// other refusal of the host ends the request.
pub proof fn law_attributes_are_those_of_the_inode(
    fs: FsView,
    inode: Inode,
    place: RawFd,
    job: XattrJob,
    fd: RawFd,
    e: i32,
)
    requires
        fs.cfg.xattr,
        fs.has_place(inode, place),
        inode != INIT_INODE || !(job is Fetch),
        fs.machine.o_nofollow & (O_CLOEXEC | O_ACCMODE | O_APPEND) == 0,
    ensures
        ({
            let own = O_CLOEXEC | O_ACCMODE | O_APPEND | fs.machine.o_nofollow;
            &&& xattr_start(fs, inode, job) matches Step::Call(open, op)
            &&& open matches Syscall::OpenAt { dir, path, flags, mode }
            &&& dir == fs.proc_self_fd
            &&& path == Path::Fd(place)
            &&& flags & O_ACCMODE == O_RDONLY
            &&& flags & !own == O_NONBLOCK & !own
            &&& mode == 0
            &&& op.next(fs, Reply::Fd(fd)).0 == fs
            &&& op.next(fs, Reply::Fd(fd)).1 matches Step::Call(call, then)
            &&& does(call, job, XattrTarget::Fd(fd))
            &&& then == (Xattr::Act { job, target: XattrTarget::Fd(fd) })
            &&& op.next(fs, Reply::Fail(e)).0 == fs
            &&& match op.next(fs, Reply::Fail(e)).1 {
                Step::Call(call, then) => e == ELOOP && does(call, job, XattrTarget::Link(place))
                    && then == (Xattr::Act { job, target: XattrTarget::Link(place) }),
                Step::Done(res) => e != ELOOP && res == Err::<XattrAnswer, FsError>(FsError::Os(e)),
            }
        }),
{
    law_open_flags(fs.machine, fs.writeback, O_RDONLY | O_NONBLOCK);
    assert(0i32 | 0o4000 == 0o4000 && 0o4000i32 & 3 == 0) by (bit_vector);
}

/// The attributes of the init program cannot be read, and where attributes are not supported none can.
pub proof fn law_attributes_may_be_missing(fs: FsView, inode: Inode, job: XattrJob)
    ensures
        !fs.cfg.xattr ==> (xattr_start(fs, inode, job) matches Step::Done(Err(e)) && e
            == FsError::Os(ENOSYS)),
        fs.cfg.xattr && inode == INIT_INODE && job is Fetch ==> (xattr_start(
            fs,
            inode,
            job,
        ) matches Step::Done(Err(e)) && e == FsError::Os(ENODATA)),
{
}

/// The state once a file that was opened to reach attributes is to be closed.
pub open spec fn left(fs: FsView, target: XattrTarget) -> FsView {
    match target {
        XattrTarget::Fd(fd) => FsView { released: fs.released.push(fd), ..fs },
        _ => fs,
    }
}

/// What the guest is answered. A value that is stored or removed is answered by nothing, one that is
/// read by the bytes of the host, or by their number where no size is given; a refusal of the host is
/// the guest's. A file that was opened for it is then to be closed, and nothing else has changed.
pub proof fn law_attribute_is_answered_by_the_host(
    job: XattrJob,
    target: XattrTarget,
    fs: FsView,
    n: u64,
    bytes: Vec<u8>,
    e: i32,
)
    requires
        n <= u32::MAX,
    ensures
        ({
            let op = Xattr::Act { job, target };
            &&& does(op.pending(), job, target)
            &&& op.next(fs, Reply::Fail(e)) == (
                left(fs, target),
                Step::<Xattr, XattrAnswer>::Done(Err(FsError::Os(e))),
            )
            &&& job is Store || job is Remove ==> op.next(fs, Reply::Unit) == (
                left(fs, target),
                Step::<Xattr, XattrAnswer>::Done(Ok(XattrAnswer::Unit)),
            )
            &&& job is Fetch ==> op.next(fs, Reply::Num(n)) == (
                left(fs, target),
                Step::<Xattr, XattrAnswer>::Done(Ok(XattrAnswer::Count(n as u32))),
            )
            &&& job is Fetch ==> op.next(fs, Reply::Bytes(bytes)) == (
                left(fs, target),
                Step::<Xattr, XattrAnswer>::Done(Ok(XattrAnswer::Bytes(bytes@))),
            )
        }),
{
}

/// Whether an answer gives the guest these names: whole where they fit the size that it gave, their
/// length where it gave none, and an error where they do not fit.
pub open spec fn gives_names(res: Result<XattrAnswer, FsError>, size: u32, names: Seq<u8>) -> bool {
    if size == 0 {
        res == Ok::<XattrAnswer, FsError>(XattrAnswer::Count(names.len() as u32))
    } else if names.len() <= size {
        res == Ok::<XattrAnswer, FsError>(XattrAnswer::Bytes(names))
    } else {
        res == Err::<XattrAnswer, FsError>(FsError::Os(ERANGE))
    }
}

/// The names of attributes are read from the host in full, whatever size the guest gave, and the guest
/// is given those that are its own.
pub proof fn law_names_are_read_in_full(
    size: u32,
    target: XattrTarget,
    fs: FsView,
    n: u64,
    list: Vec<u8>,
    e: i32,
)
    requires
        n <= usize::MAX,
    ensures
        ({
            let op = Xattr::Act { job: XattrJob::List { size }, target };
            let read = Xattr::ActList { size, target, host_size: n as usize };
            let (after, step) = op.next(fs, Reply::Num(n));
            let (end, done) = read.next(fs, Reply::Bytes(list));
            &&& match step {
                Step::Call(call, then) => n != 0 && after == fs && then == read && (
                call matches Syscall::ListXattr { target: of, size: most } && of == target && most
                    == n),
                Step::Done(res) => n == 0 && after == left(fs, target) && gives_names(
                    res,
                    size,
                    Seq::empty(),
                ),
            }
            &&& end == left(fs, target)
            &&& done matches Step::Done(res)
            &&& gives_names(res, size, shown_all(fields(list@, 0)))
            &&& read.next(fs, Reply::Fail(e)) == (
                left(fs, target),
                Step::<Xattr, XattrAnswer>::Done(Err(FsError::Os(e))),
            )
        }),
{
    if n == 0 {
        law_guest_list_round_trip(Seq::empty());
        let none = Seq::<Seq<u8>>::empty();
        assert(none.map_values(|name: Seq<u8>| host_name(name)) =~= none);
    }
}

/// A guest that has set attributes is given just their names, as it gave them and in the order of the
/// host's list, where the host lists those under which they are kept.
pub proof fn law_guest_is_given_its_own_names(size: u32, names: Seq<Seq<u8>>)
    requires
        forall|i: int| 0 <= i < names.len() ==> is_name(#[trigger] names[i]),
    ensures
        gives_names(
            listing(size, terminated(names.map_values(|n: Seq<u8>| host_name(n)))),
            size,
            terminated(names),
        ),
{
    law_guest_list_round_trip(names);
}

/// A name of the host stands for a name of the guest just where it starts with the prefix and what
/// follows is two hexadecimal digits for each byte of that name, none of them zero, and at least one.
pub proof fn law_guest_name_is_spelled_on_the_host(host: Seq<u8>, name: Seq<u8>)
    ensures
        guest_name(host) == Some(name) <==> {
            &&& name.len() > 0
            &&& host.len() == 28 + 2 * name.len()
            &&& forall|i: int| 0 <= i < 28 ==> host[i] == GUEST_XATTR_PREFIX@[i]
            &&& forall|i: int|
                #![trigger name[i]]
                0 <= i < name.len() ==> {
                    &&& name[i] != 0
                    &&& digit_value(host[28 + 2 * i]) < 16
                    &&& digit_value(host[29 + 2 * i]) < 16
                    &&& name[i] == 16 * digit_value(host[28 + 2 * i]) + digit_value(
                        host[29 + 2 * i],
                    )
                }
        },
{
    let encoded = host.skip(28);
    let spelled = {
        &&& name.len() > 0
        &&& host.len() == 28 + 2 * name.len()
        &&& forall|i: int| 0 <= i < 28 ==> host[i] == GUEST_XATTR_PREFIX@[i]
        &&& forall|i: int|
            #![trigger name[i]]
            0 <= i < name.len() ==> {
                &&& name[i] != 0
                &&& digit_value(host[28 + 2 * i]) < 16
                &&& digit_value(host[29 + 2 * i]) < 16
                &&& name[i] == 16 * digit_value(host[28 + 2 * i]) + digit_value(host[29 + 2 * i])
            }
    };
    if spelled {
        assert(host.subrange(0, 28) =~= GUEST_XATTR_PREFIX@);
        assert forall|k: int| 0 <= k < encoded.len() implies digit_value(#[trigger] encoded[k])
            < 16 by {
            let i = k / 2;
            assert(name[i] != 0);
            assert(k == 2 * i || k == 2 * i + 1);
        }
        assert(bytes_of_hex(encoded) =~= name) by {
            assert forall|i: int| 0 <= i < name.len() implies bytes_of_hex(encoded)[i] == name[i] by {
                assert(encoded[2 * i] == host[28 + 2 * i]);
                assert(encoded[2 * i + 1] == host[29 + 2 * i]);
            }
        }
        assert forall|i: int| 0 <= i < name.len() implies name[i] != 0 by {}
    }
    if guest_name(host) == Some(name) {
        assert forall|i: int| 0 <= i < 28 implies host[i] == GUEST_XATTR_PREFIX@[i] by {
            assert(host.subrange(0, 28)[i] == GUEST_XATTR_PREFIX@[i]);
        }
        assert(name == bytes_of_hex(encoded));
        assert forall|i: int|
            #![trigger name[i]]
            0 <= i < name.len() implies name[i] != 0 && digit_value(host[28 + 2 * i]) < 16
            && digit_value(host[29 + 2 * i]) < 16 && name[i] == 16 * digit_value(host[28 + 2 * i])
            + digit_value(host[29 + 2 * i]) by {
            assert(encoded[2 * i] == host[28 + 2 * i]);
            assert(encoded[2 * i + 1] == host[29 + 2 * i]);
            assert(name.contains(name[i]));
            assert(digit_value(encoded[2 * i]) < 16);
            assert(digit_value(encoded[2 * i + 1]) < 16);
        }
    }
}

/// The name on the host is written in the digits of ten and the small letters from `a` to `f`, two for
/// each byte, the higher half of the byte first.
pub proof fn law_host_name_is_in_small_digits(name: Seq<u8>)
    ensures
        host_name(name).len() == 28 + 2 * name.len(),
        forall|i: int| 0 <= i < 28 ==> host_name(name)[i] == GUEST_XATTR_PREFIX@[i],
        forall|i: int|
            28 <= i < host_name(name).len() ==> 48 <= #[trigger] host_name(name)[i] <= 57 || 97
                <= host_name(name)[i] <= 102,
        forall|i: int|
            #![trigger name[i]]
            0 <= i < name.len() ==> {
                &&& digit_value(host_name(name)[28 + 2 * i]) == name[i] / 16
                &&& digit_value(host_name(name)[29 + 2 * i]) == name[i] % 16
            },
{
    let host = host_name(name);
    assert forall|i: int| 28 <= i < host.len() implies 48 <= #[trigger] host[i] <= 57 || 97
        <= host[i] <= 102 by {
        assert(host[i] == hex_text(name)[i - 28]);
    }
    assert forall|i: int| #![trigger name[i]] 0 <= i < name.len() implies digit_value(
        host[28 + 2 * i],
    ) == name[i] / 16 && digit_value(host[29 + 2 * i]) == name[i] % 16 by {
        assert((2 * i) / 2 == i && (2 * i) % 2 == 0);
        assert((2 * i + 1) / 2 == i && (2 * i + 1) % 2 == 1);
        assert(host[28 + 2 * i] == hex_text(name)[2 * i]);
        assert(host[29 + 2 * i] == hex_text(name)[2 * i + 1]);
    }
}

/// Of an inode that the client does not know no attributes are reached, nor of one that it no longer
/// knows when its file turns out to be a link.
pub proof fn law_no_attributes_without_an_inode(
    fs: FsView,
    inode: Inode,
    job: XattrJob,
    opening: Opening,
)
    requires
        fs.cfg.xattr,
        inode != INIT_INODE,
        !fs.inodes.contains_key(inode),
    ensures
        xattr_start(fs, inode, job) matches Step::Done(Err(e)) && e == FsError::Os(EBADF),
        (Xattr::Open { inode, job, opening }).next(fs, Reply::Fail(ELOOP)) == (
            fs,
            Step::<Xattr, XattrAnswer>::Done(Err(FsError::Os(EBADF))),
        ),
{
}

} // verus!
