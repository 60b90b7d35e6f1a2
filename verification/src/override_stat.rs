//! The owner and mode that a guest gave to a file, kept in an extended attribute of the host.

use crate::abi::{
    EBADF, EINVAL, ENODATA, ENOTSUP, EOPNOTSUPP, EPERM, S_IFLNK, S_IFMT, S_ISGID, S_ISUID,
};
use crate::model::{FsError, Stat};
use crate::text::{
    digit_value, digits, fields, find_field_end, item_to_value, law_digits_start_with_no_zero,
    law_number_text_round_trip, lemma_digits_spell_number, lemma_fields_cons, lemma_fields_single,
    number, parsed, push_number, unsigned,
};
use vstd::prelude::*;

verus! {

/// The name of the attribute: `user.containers.override_stat`.
pub const XATTR_KEY: [u8; 29] = [
    117, 115, 101, 114, 46, 99, 111, 110, 116, 97, 105, 110, 101, 114, 115, 46, 111, 118, 101, 114,
    114, 105, 100, 101, 95, 115, 116, 97, 116,
];

/// The most that is read of the attribute's value.
pub const OVERRIDE_SIZE: usize = 32;

/// No owner has this number or one above it: they mean that the owner stays as it is.
pub const UID_MAX: u32 = 0xfffffffe;

/// A user, a group and a mode; what is `None` is not overridden.
pub type OverrideStat = (Option<u32>, Option<u32>, Option<u32>);

/// A number in decimal, or `x` for none.
pub open spec fn id_text(id: Option<u32>) -> Seq<u8> {
    match id {
        Some(id) => digits(id as nat, 10),
        None => seq![120],
    }
}

/// A mode in octal after a zero, or `x` for none.
pub open spec fn mode_text(mode: Option<u32>) -> Seq<u8> {
    match mode {
        Some(mode) => seq![48u8] + digits(mode as nat, 8),
        None => seq![120],
    }
}

/// The value of the attribute: user, group and mode between colons.
pub open spec fn override_text(value: OverrideStat) -> Seq<u8> {
    id_text(value.0).push(58) + (id_text(value.1).push(58) + mode_text(value.2))
}

/// What the text of the attribute says: its first three fields, those that are numbers.
pub open spec fn override_of_text(text: Seq<u8>) -> OverrideStat {
    let items = fields(text, 58);
    (
        parsed(items[0], 10),
        if items.len() > 1 {
            parsed(items[1], 10)
        } else {
            None
        },
        if items.len() > 2 {
            parsed(items[2], 8)
        } else {
            None
        },
    )
}

/// Reads the value of the attribute.
pub fn get_xattr_common(buf: &[u8]) -> (value: (Option<u32>, Option<u32>, Option<u32>))
    ensures
        value == override_of_text(buf@),
{
    assert(buf@.skip(0) =~= buf@);
    let first: usize = find_field_end(buf, 0, 58);
    let uid = item_to_value(vstd::slice::slice_subrange(buf, 0, first), 10);
    assert(buf@.subrange(0, first as int) =~= buf@.take(first as int));
    if first == buf.len() {
        assert(buf@.take(first as int) =~= buf@);
        return (uid, None, None);
    }
    let ghost rest = buf@.skip(first + 1);
    assert(fields(buf@, 58) == seq![buf@.take(first as int)] + fields(rest, 58));
    let second: usize = find_field_end(buf, first + 1, 58);
    let gid = item_to_value(vstd::slice::slice_subrange(buf, first + 1, second), 10);
    assert(buf@.subrange(first + 1, second as int) =~= rest.take(second - first - 1));
    if second == buf.len() {
        assert(rest.take(second - first - 1) =~= rest);
        assert(fields(rest, 58) == seq![rest]);
        return (uid, gid, None);
    }
    let ghost last = rest.skip(second - first);
    assert(buf@.skip(second + 1) =~= last);
    assert(fields(rest, 58) == seq![rest.take(second - first - 1)] + fields(last, 58));
    let third: usize = find_field_end(buf, second + 1, 58);
    let mode = item_to_value(vstd::slice::slice_subrange(buf, second + 1, third), 8);
    assert(buf@.subrange(second + 1, third as int) =~= last.take(third - second - 1));
    assert(third == buf.len() ==> last.take(third - second - 1) =~= last);
    assert(fields(last, 58)[0] == last.take(third - second - 1));
    (uid, gid, mode)
}

fn push_id(out: &mut Vec<u8>, id: Option<u32>)
    ensures
        final(out)@ == old(out)@ + id_text(id),
{
    match id {
        Some(id) => push_number(out, id, 10),
        None => {
            out.push(120);
            assert(out@ =~= old(out)@ + id_text(id));
        },
    }
}

/// Writes the value of the attribute.
pub fn override_xattr_value(value: OverrideStat) -> (text: Vec<u8>)
    ensures
        text@ == override_text(value),
{
    let mut text: Vec<u8> = Vec::new();
    push_id(&mut text, value.0);
    text.push(58);
    push_id(&mut text, value.1);
    text.push(58);
    match value.2 {
        Some(mode) => {
            text.push(48);
            push_number(&mut text, mode, 8);
        },
        None => {
            text.push(120);
        },
    }
    assert(text@ =~= override_text(value));
    text
}

/// What is written for an override is read back as that override, whatever it leaves out.
pub proof fn law_override_text_round_trip(value: OverrideStat)
    ensures
        override_of_text(override_text(value)) == value,
{
    lemma_id_text(value.0);
    lemma_id_text(value.1);
    lemma_mode_text(value.2);
    lemma_fields_cons(
        id_text(value.0),
        58,
        id_text(value.1).push(58) + mode_text(value.2),
    );
    lemma_fields_cons(id_text(value.1), 58, mode_text(value.2));
    lemma_fields_single(mode_text(value.2), 58);
}

proof fn lemma_id_text(id: Option<u32>)
    ensures
        forall|i: int| 0 <= i < id_text(id).len() ==> #[trigger] id_text(id)[i] != 58,
        parsed(id_text(id), 10) == id,
{
    match id {
        Some(n) => {
            lemma_digits_spell_number(n as nat, 10);
            law_number_text_round_trip(n, 10);
        },
        None => {
            assert(unsigned(id_text(id))[0] == 120);
        },
    }
}

proof fn lemma_mode_text(mode: Option<u32>)
    ensures
        forall|i: int| 0 <= i < mode_text(mode).len() ==> #[trigger] mode_text(mode)[i] != 58,
        parsed(mode_text(mode), 8) == mode,
{
    match mode {
        Some(n) => {
            lemma_digits_spell_number(n as nat, 8);
            crate::text::lemma_leading_zero(digits(n as nat, 8), 8);
            let text = mode_text(mode);
            assert forall|i: int| 0 <= i < text.len() implies #[trigger] text[i] != 58
                && crate::text::digit_value(text[i]) < 8 by {
                if i > 0 {
                    assert(text[i] == digits(n as nat, 8)[i - 1]);
                }
            }
        },
        None => {
            assert(unsigned(mode_text(mode))[0] == 120);
        },
    }
}

pub open spec fn is_missing_code(code: i32) -> bool {
    code == ENODATA || code == ENOTSUP || code == EOPNOTSUPP || code == EBADF
}

/// Whether the host says that a file has no such attribute, or cannot have one.
pub fn is_missing_override_xattr_error(err: &FsError) -> (missing: bool)
    ensures
        missing == (err.code() matches Some(code) && is_missing_code(code)),
{
    match err.raw_os_error() {
        Some(code) => code == ENODATA || code == ENOTSUP || code == EOPNOTSUPP || code == EBADF,
        None => false,
    }
}

pub open spec fn is_backend_code(code: i32) -> bool {
    code == EINVAL || code == EPERM || code == ENOTSUP || code == EOPNOTSUPP
}

/// Whether the host could not change a mode itself, so that it is kept in the attribute.
pub fn should_store_override_stat_for_setattr_error(err: &FsError) -> (store: bool)
    ensures
        store == (err.code() matches Some(code) && is_backend_code(code)),
{
    match err.raw_os_error() {
        Some(code) => code == EINVAL || code == EPERM || code == ENOTSUP || code == EOPNOTSUPP,
        None => false,
    }
}

/// Whether both numbers of an owner name someone.
pub fn is_valid_owner(owner: Option<(u32, u32)>) -> (valid: bool)
    ensures
        valid == (owner matches Some(owner) && owner.0 < UID_MAX && owner.1 < UID_MAX),
{
    if let Some(owner) = owner {
        owner.0 < UID_MAX && owner.1 < UID_MAX
    } else {
        false
    }
}

/// A new number where it names someone, the old one where it does not.
pub open spec fn merged_id(id: u32, old_id: Option<u32>) -> Option<u32> {
    if id < UID_MAX {
        Some(id)
    } else {
        old_id
    }
}

/// The override after an update: what the update leaves open stays as it was.
pub open spec fn merged(
    owner: Option<(u32, u32)>,
    mode: Option<u32>,
    before: OverrideStat,
) -> OverrideStat {
    (
        match owner {
            Some(owner) => merged_id(owner.0, before.0),
            None => before.0,
        },
        match owner {
            Some(owner) => merged_id(owner.1, before.1),
            None => before.1,
        },
        if mode is Some {
            mode
        } else {
            before.2
        },
    )
}

/// Whether an update says all there is to say, so that what was there does not matter.
pub open spec fn is_complete(owner: Option<(u32, u32)>, mode: Option<u32>) -> bool {
    mode is Some && (owner matches Some(owner) && owner.0 < UID_MAX && owner.1 < UID_MAX)
}

/// Applies an update to what was there before.
pub fn merge_override(
    owner: Option<(u32, u32)>,
    mode: Option<u32>,
    before: OverrideStat,
) -> (after: OverrideStat)
    ensures
        after == merged(owner, mode, before),
{
    let (uid, gid) = match owner {
        Some((uid, gid)) => {
            let uid = if uid < UID_MAX {
                Some(uid)
            } else {
                before.0
            };
            let gid = if gid < UID_MAX {
                Some(gid)
            } else {
                before.1
            };
            (uid, gid)
        },
        None => (before.0, before.1),
    };
    let mode = if mode.is_some() {
        mode
    } else {
        before.2
    };
    (uid, gid, mode)
}

/// A number as the guest sees it: the override, or the user of this process as root.
pub open spec fn seen_id(id: u32, over: Option<u32>, host_id: Option<u32>) -> u32 {
    match over {
        Some(over) => over,
        None => if host_id == Some(id) {
            0
        } else {
            id
        },
    }
}

/// A mode as the guest sees it: the override, with the file's own type where it names none.
pub open spec fn seen_mode(mode: u32, over: Option<u32>) -> u32 {
    match over {
        Some(over) => if over & S_IFMT == 0 {
            (mode & S_IFMT) | over
        } else {
            over
        },
        None => mode,
    }
}

/// Attributes as the guest sees them.
pub open spec fn seen(
    st: Stat,
    over: OverrideStat,
    host_uid: Option<u32>,
    host_gid: Option<u32>,
) -> Stat {
    Stat {
        st_uid: seen_id(st.st_uid, over.0, host_uid),
        st_gid: seen_id(st.st_gid, over.1, host_gid),
        st_mode: seen_mode(st.st_mode, over.2),
        ..st
    }
}

/// Turns the attributes on the host into those that the guest sees.
pub fn apply_override_stat(
    st: Stat,
    uid: Option<u32>,
    gid: Option<u32>,
    mode: Option<u32>,
    host_uid: Option<u32>,
    host_gid: Option<u32>,
) -> (attr: Stat)
    ensures
        attr == seen(st, (uid, gid, mode), host_uid, host_gid),
{
    let mut st = st;
    if let Some(uid) = uid {
        st.st_uid = uid;
    } else if let Some(host_uid) = host_uid {
        if host_uid == st.st_uid {
            st.st_uid = 0;
        }
    }
    if let Some(gid) = gid {
        st.st_gid = gid;
    } else if let Some(host_gid) = host_gid {
        if host_gid == st.st_gid {
            st.st_gid = 0;
        }
    }
    if let Some(mode) = mode {
        if mode & S_IFMT == 0 {
            st.st_mode = (st.st_mode & S_IFMT) | mode;
        } else {
            st.st_mode = mode;
        }
    }
    st
}

pub open spec fn is_symlink_mode(mode: u32) -> bool {
    mode & S_IFMT == S_IFLNK
}

/// Whether attributes are those of a symbolic link, which can hold no override.
pub fn is_symlink(st: &Stat) -> (link: bool)
    ensures
        link == is_symlink_mode(st.st_mode),
{
    st.st_mode & S_IFMT == S_IFLNK
}

/// `mode` without the bits that run a file as its owner or group.
pub open spec fn without_setid(mode: u32) -> u32 {
    mode & !(S_ISUID | S_ISGID)
}

/// Removes the set-user-id and set-group-id bits.
pub fn clear_suid_sgid(mode: u32) -> (cleared: u32)
    ensures
        cleared == without_setid(mode),
{
    mode & !(S_ISUID | S_ISGID)
}

/// Clearing the set-id bits leaves none of them, keeps every other bit, and doing it again changes
/// nothing.
pub proof fn law_only_setid_bits_are_cleared(mode: u32)
    ensures
        without_setid(mode) & S_ISUID == 0,
        without_setid(mode) & S_ISGID == 0,
        without_setid(mode) | (mode & (S_ISUID | S_ISGID)) == mode,
        without_setid(mode) & S_IFMT == mode & S_IFMT,
        without_setid(without_setid(mode)) == without_setid(mode),
{
    assert((mode & !(0o4000u32 | 0o2000u32)) & 0o4000u32 == 0 && (mode & !(0o4000u32 | 0o2000u32))
        & 0o2000u32 == 0 && (mode & !(0o4000u32 | 0o2000u32)) | (mode & (0o4000u32 | 0o2000u32))
        == mode && (mode & !(0o4000u32 | 0o2000u32)) & 0o170000u32 == mode & 0o170000u32 && (mode
        & !(0o4000u32 | 0o2000u32)) & !(0o4000u32 | 0o2000u32) == mode & !(0o4000u32 | 0o2000u32))
        by (bit_vector);
}

/// An override never changes what kind of file the guest sees, unless it names a kind itself; and
/// the permissions it names are the ones that are seen.
pub proof fn law_override_keeps_file_type(
    st: Stat,
    over: OverrideStat,
    host_uid: Option<u32>,
    host_gid: Option<u32>,
)
    requires
        over.2 matches Some(mode) ==> mode & S_IFMT == 0,
    ensures
        seen(st, over, host_uid, host_gid).st_mode & S_IFMT == st.st_mode & S_IFMT,
        over.2 matches Some(mode) ==> seen(st, over, host_uid, host_gid).st_mode & 0o7777 == mode
            & 0o7777,
{
    if let Some(over) = over.2 {
        let mode = st.st_mode;
        assert(((mode & 0o170000u32) | over) & 0o170000u32 == mode & 0o170000u32) by (bit_vector)
            requires
                over & 0o170000u32 == 0,
        ;
        assert(((mode & 0o170000u32) | over) & 0o7777u32 == over & 0o7777u32) by (bit_vector);
    }
}

/// Without an override the files of this process belong to the guest's root, and every other file
/// is seen as it is.
pub proof fn law_no_override_maps_only_the_host_owner(
    st: Stat,
    host_uid: Option<u32>,
    host_gid: Option<u32>,
)
    ensures
        ({
            let got = seen(st, (None, None, None), host_uid, host_gid);
            &&& got.st_mode == st.st_mode
            &&& host_uid == Some(st.st_uid) ==> got.st_uid == 0
            &&& host_uid != Some(st.st_uid) ==> got.st_uid == st.st_uid
            &&& host_gid == Some(st.st_gid) ==> got.st_gid == 0
            &&& host_gid != Some(st.st_gid) ==> got.st_gid == st.st_gid
        }),
{
}

/// A new mode alone keeps the owner, a new owner alone keeps the mode, and a complete update keeps
/// nothing.
pub proof fn law_update_keeps_what_it_leaves_open(
    owner: (u32, u32),
    mode: u32,
    before: OverrideStat,
)
    ensures
        merged(None, Some(mode), before) == (before.0, before.1, Some(mode)),
        merged(Some(owner), None, before).2 == before.2,
        owner.0 >= UID_MAX ==> merged(Some(owner), Some(mode), before).0 == before.0,
        owner.1 >= UID_MAX ==> merged(Some(owner), Some(mode), before).1 == before.1,
        is_complete(Some(owner), Some(mode)) ==> merged(Some(owner), Some(mode), before) == (
            Some(owner.0),
            Some(owner.1),
            Some(mode),
        ),
{
}

/// The text of an override is its first three fields between colons, whatever they are: user and group
/// in decimal and the mode in octal, each left out where it is no number. What follows them does not
/// matter.
pub proof fn law_override_text_is_three_fields(
    uid: Seq<u8>,
    gid: Seq<u8>,
    mode: Seq<u8>,
    more: Seq<u8>,
)
    requires
        !uid.contains(58),
        !gid.contains(58),
        !mode.contains(58),
    ensures
        override_of_text(uid) == (parsed(uid, 10), None::<u32>, None::<u32>),
        override_of_text(uid.push(58) + gid) == (parsed(uid, 10), parsed(gid, 10), None::<u32>),
        override_of_text(uid.push(58) + (gid.push(58) + mode)) == (
            parsed(uid, 10),
            parsed(gid, 10),
            parsed(mode, 8),
        ),
        override_of_text(uid.push(58) + (gid.push(58) + (mode.push(58) + more))) == (
            parsed(uid, 10),
            parsed(gid, 10),
            parsed(mode, 8),
        ),
{
    assert forall|i: int| 0 <= i < uid.len() implies uid[i] != 58 by {}
    assert forall|i: int| 0 <= i < gid.len() implies gid[i] != 58 by {}
    assert forall|i: int| 0 <= i < mode.len() implies mode[i] != 58 by {}
    lemma_fields_single(uid, 58);
    lemma_fields_single(gid, 58);
    lemma_fields_single(mode, 58);
    lemma_fields_cons(uid, 58, gid);
    lemma_fields_cons(gid, 58, mode);
    lemma_fields_cons(uid, 58, gid.push(58) + mode);
    lemma_fields_cons(mode, 58, more);
    lemma_fields_cons(gid, 58, mode.push(58) + more);
    lemma_fields_cons(uid, 58, gid.push(58) + (mode.push(58) + more));
}

/// How an override is written: the user and the group in decimal, the mode in octal after a zero, none
/// with another zero in front, and an `x` for what is left out.
pub proof fn law_override_text_form(value: OverrideStat)
    ensures
        ({
            let uid = id_text(value.0);
            let gid = id_text(value.1);
            let mode = mode_text(value.2);
            &&& override_text(value) == uid.push(58) + (gid.push(58) + mode)
            &&& is_written(uid, value.0)
            &&& is_written(gid, value.1)
            &&& value.2 is None ==> mode == seq![120u8]
            &&& value.2 matches Some(n) ==> {
                &&& mode.len() > 1
                &&& mode[0] == 48
                &&& number(mode.skip(1), 8) == n
                &&& n > 0 ==> mode[1] != 48
                &&& forall|i: int| 0 <= i < mode.len() ==> 48 <= #[trigger] mode[i] <= 55
            }
        }),
{
    lemma_is_written(value.0);
    lemma_is_written(value.1);
    if let Some(n) = value.2 {
        let mode = mode_text(value.2);
        lemma_digits_spell_number(n as nat, 8);
        assert(mode.skip(1) =~= digits(n as nat, 8));
        if n > 0 {
            law_digits_start_with_no_zero(n as nat, 8);
        }
        assert forall|i: int| 0 <= i < mode.len() implies 48 <= #[trigger] mode[i] <= 55 by {
            if i > 0 {
                assert(mode[i] == digits(n as nat, 8)[i - 1]);
                assert(digit_value(digits(n as nat, 8)[i - 1]) < 8);
            }
        }
    }
}

/// Whether a text is that of a number in decimal, with no zero in front of it, or an `x` for none.
pub open spec fn is_written(text: Seq<u8>, id: Option<u32>) -> bool {
    match id {
        None => text == seq![120u8],
        Some(n) => {
            &&& text.len() > 0
            &&& number(text, 10) == n
            &&& n > 0 ==> text[0] != 48
            &&& forall|i: int| 0 <= i < text.len() ==> 48 <= #[trigger] text[i] <= 57
        },
    }
}

proof fn lemma_is_written(id: Option<u32>)
    ensures
        is_written(id_text(id), id),
{
    if let Some(n) = id {
        lemma_digits_spell_number(n as nat, 10);
        if n > 0 {
            law_digits_start_with_no_zero(n as nat, 10);
        }
    }
}

} // verus!
