//! What the guest's users may do, by the owner and mode that the guest sees.

use crate::abi::{EACCES, S_ISGID};
use crate::model::{Context, FsError, Stat};
use vstd::prelude::*;

verus! {

/// The read, write and execute bits of a request.
pub const ACCESS_BITS: u32 = 7;

/// To change what a directory holds: `W_OK | X_OK`.
pub const CREATE_ACCESS: u32 = 3;

/// The three bits of `st` that apply to the caller: those of the owner for the owner, else those of
/// the group for its members, else those of the others.
pub open spec fn permission_bits(ctx: Context, st: Stat, gids: Seq<u32>) -> u32 {
    if st.st_uid == ctx.uid {
        (st.st_mode >> 6) & 7
    } else if st.st_gid == ctx.gid || gids.contains(st.st_gid) {
        (st.st_mode >> 3) & 7
    } else {
        st.st_mode & 7
    }
}

/// Whether the caller may do what `mask` asks. Root may read and write anything, and execute what
/// anyone may execute.
pub open spec fn grants(ctx: Context, st: Stat, mask: u32, gids: Seq<u32>) -> bool {
    let wanted = mask & ACCESS_BITS;
    if wanted == 0 {
        true
    } else if ctx.uid == 0 {
        wanted & 1 == 0 || st.st_mode & 0o111 != 0
    } else {
        permission_bits(ctx, st, gids) & wanted == wanted
    }
}

fn is_member(gids: &[u32], gid: u32) -> (member: bool)
    ensures
        member == gids@.contains(gid),
{
    let mut i: usize = 0;
    while i < gids.len()
        invariant
            i <= gids@.len(),
            forall|k: int| 0 <= k < i ==> gids@[k] != gid,
        decreases gids.len() - i,
    {
        if gids[i] == gid {
            return true;
        }
        i = i + 1;
    }
    false
}

/// Checks whether the caller may do what `mask` asks.
pub fn check_stat_access(
    ctx: &Context,
    st: &Stat,
    mask: u32,
    supplementary_gids: &[u32],
) -> (res: Result<(), FsError>)
    ensures
        res == (if grants(*ctx, *st, mask, supplementary_gids@) {
            Ok(())
        } else {
            Err(FsError::Os(EACCES))
        }),
{
    let mode: u32 = mask & ACCESS_BITS;
    if mode == 0 {
        return Ok(());
    }
    if ctx.uid == 0 {
        if mode & 1 != 0 && st.st_mode & 0o111 == 0 {
            return Err(FsError::from_raw_os_error(EACCES));
        }
        return Ok(());
    }
    let permission_bits: u32 = if st.st_uid == ctx.uid {
        (st.st_mode >> 6) & 0o7
    } else if st.st_gid == ctx.gid || is_member(supplementary_gids, st.st_gid) {
        (st.st_mode >> 3) & 0o7
    } else {
        st.st_mode & 0o7
    };
    if permission_bits & mode != mode {
        return Err(FsError::from_raw_os_error(EACCES));
    }
    Ok(())
}

/// Whether new files in a directory belong to its group.
pub open spec fn inherits(parent: Stat) -> bool {
    parent.st_mode & S_ISGID != 0
}

/// The group of a new file: that of a set-group-id directory, else that of its maker.
pub open spec fn create_gid(ctx: Context, parent: Stat) -> u32 {
    if inherits(parent) {
        parent.st_gid
    } else {
        ctx.gid
    }
}

/// The group that a file gets which `ctx` creates under `parent_attr`.
pub fn guest_create_gid(ctx: &Context, parent_attr: &Stat) -> (gid: u32)
    ensures
        gid == create_gid(*ctx, *parent_attr),
{
    if parent_attr.st_mode & S_ISGID != 0 {
        parent_attr.st_gid
    } else {
        ctx.gid
    }
}

/// The owner is judged by the owner's bits alone, whatever groups the owner is in.
pub proof fn law_owner_is_not_judged_as_group(
    ctx: Context,
    st: Stat,
    mask: u32,
    gids: Seq<u32>,
    other: Seq<u32>,
)
    requires
        st.st_uid == ctx.uid,
    ensures
        grants(ctx, st, mask, gids) == grants(ctx, st, mask, other),
        ctx.uid != 0 && mask & ACCESS_BITS != 0 && (st.st_mode >> 6) & 7 == 0 ==> !grants(
            ctx,
            st,
            mask,
            gids,
        ),
{
    let wanted = mask & ACCESS_BITS;
    assert(0u32 & wanted == 0) by (bit_vector);
}

/// A supplementary group counts exactly as the caller's own group does.
pub proof fn law_supplementary_group_counts_as_group(
    ctx: Context,
    st: Stat,
    mask: u32,
    gids: Seq<u32>,
)
    requires
        gids.contains(st.st_gid),
    ensures
        grants(ctx, st, mask, gids) == grants(
            Context { gid: st.st_gid, ..ctx },
            st,
            mask,
            Seq::empty(),
        ),
{
}

/// Who may do something may do any part of it.
pub proof fn law_less_is_granted_where_more_is(
    ctx: Context,
    st: Stat,
    more: u32,
    less: u32,
    gids: Seq<u32>,
)
    requires
        less & more == less,
        grants(ctx, st, more, gids),
    ensures
        grants(ctx, st, less, gids),
{
    let bits = permission_bits(ctx, st, gids);
    assert((more & 7 == 0 ==> less & 7 == 0) && ((more & 7) & 1 == 0 ==> (less & 7) & 1 == 0) && (
    bits & (more & 7) == more & 7 ==> bits & (less & 7) == less & 7)) by (bit_vector)
        requires
            less & more == less,
    ;
}

/// Root is refused only the execution of what nobody may execute.
pub proof fn law_root_is_refused_only_execution(ctx: Context, st: Stat, mask: u32, gids: Seq<u32>)
    requires
        ctx.uid == 0,
    ensures
        !grants(ctx, st, mask, gids) <==> mask & 1 != 0 && st.st_mode & 0o111 == 0,
{
    assert((mask & 7) & 1 == mask & 1 && (mask & 7 == 0 ==> mask & 1 == 0)) by (bit_vector);
}

} // verus!
