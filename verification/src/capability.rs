//! Effective capabilities of this process, and dropping one for a while.

use crate::abi::EINVAL;
use crate::model::{einval, FsError};
use crate::step::{HostCap, Reply, Syscall};
use caps::errors::CapsError;
use caps::Capability;
use vstd::prelude::*;

verus! {

/// A capability of Linux, as `caps` numbers them.
#[verifier::external_type_specification]
#[verifier::external_body]
pub struct ExCapability(caps::Capability);

/// What `caps` reports when a call to the kernel failed.
#[verifier::external_type_specification]
#[verifier::external_body]
pub struct ExCapsError(caps::errors::CapsError);

/// A capability to ask for: one of those that decide how the file system works, or any other.
#[derive(Clone, Copy, Debug)]
pub enum EffectiveCap {
    Host(HostCap),
    Other(Capability),
}

/// What the kernel said when it was asked whether this thread has a capability.
#[derive(Debug)]
pub struct Held {
    pub asked: EffectiveCap,
    pub said: Result<bool, CapsError>,
}

/// What the kernel said when it was told to change a capability of this thread.
#[derive(Debug)]
pub struct Changed {
    pub cap: Capability,
    pub said: Result<(), CapsError>,
}

/// Calls `caps::has_cap` on the effective set of this thread. Claimed of the answer is only which
/// capability it is about; what it says is up to the kernel.
#[verifier::external_body]
fn has_effective(asked: EffectiveCap) -> (answer: Held)
    ensures
        answer.asked == asked,
{
    let cap = match asked {
        EffectiveCap::Host(HostCap::Setuid) => Capability::CAP_SETUID,
        EffectiveCap::Host(HostCap::Setgid) => Capability::CAP_SETGID,
        EffectiveCap::Host(HostCap::Fowner) => Capability::CAP_FOWNER,
        EffectiveCap::Other(cap) => cap,
    };
    Held { asked, said: caps::has_cap(None, caps::CapSet::Effective, cap) }
}

/// What a request is told of the kernel's answer: a capability counts as held only where the kernel
/// says so.
pub open spec fn told(answer: Held) -> Reply {
    Reply::Held(answer.said matches Ok(held) && held)
}

/// Tells a request what the kernel said.
pub fn tell(answer: Held) -> (reply: Reply)
    ensures
        reply == told(answer),
{
    match answer.said {
        Ok(held) => Reply::Held(held),
        Err(_) => Reply::Held(false),
    }
}

/// Performs the call that asks whether this thread has a capability. What the kernel says is up to
/// it.
pub fn ask_host(cap: HostCap) -> (reply: Reply)
    ensures
        (Syscall::HasCap { cap }).answered_by(reply),
        exists|answer: Held|
            answer.asked == EffectiveCap::Host(cap) && reply == #[trigger] told(answer),
{
    let answer = has_effective(EffectiveCap::Host(cap));
    let ghost said = answer;
    let reply = tell(answer);
    assert(reply == told(said));
    reply
}

/// Calls `caps::drop` on the effective set of this thread. Claimed of the answer is only which
/// capability it is about; what it says is up to the kernel.
#[verifier::external_body]
fn drop_effective(cap: Capability) -> (answer: Changed)
    ensures
        answer.cap == cap,
{
    Changed { cap, said: caps::drop(None, caps::CapSet::Effective, cap) }
}

/// Calls `caps::raise` on the effective set of this thread. Claimed of the answer is only which
/// capability it is about, and that the call does not unwind: it makes its requests of the kernel and
/// hands back their errors. What it says is up to the kernel.
#[verifier::external_body]
fn raise_effective(cap: Capability) -> (answer: Changed)
    ensures
        answer.cap == cap,
    opens_invariants none
    no_unwind
{
    Changed { cap, said: caps::raise(None, caps::CapSet::Effective, cap) }
}

/// A capability that could not be restored, and why.
#[derive(Debug)]
pub struct NotRestored {
    pub cap: Capability,
    pub error: CapsError,
}

/// A capability that was dropped and is restored when this is let go.
#[must_use]
#[derive(Debug)]
pub struct ScopedCaps {
    cap: Capability,
    /// Whether it is still to be restored.
    due: bool,
}

impl Drop for ScopedCaps {
    /// Raises the capability again, unless that was done. Where the kernel refuses it stays dropped;
    /// `restore` tells of that.
    fn drop(&mut self)
        opens_invariants none
        no_unwind
    {
        let _raised = self.give_back();
    }
}

impl ScopedCaps {
    /// The capability to restore.
    pub closed spec fn dropped(&self) -> Capability {
        self.cap
    }

    /// Whether the capability is still to be restored.
    pub closed spec fn is_due(&self) -> bool {
        self.due
    }

    /// Raises the capability again, if that is still to be done. Whether it succeeds is up to the
    /// kernel.
    fn give_back(&mut self) -> (raised: Option<Changed>)
        ensures
            final(self).dropped() == old(self).dropped(),
            !final(self).is_due(),
            match raised {
                Some(raised) => old(self).is_due() && raised.cap == old(self).dropped(),
                None => !old(self).is_due(),
            },
        opens_invariants none
        no_unwind
    {
        if self.due {
            self.due = false;
            Some(raise_effective(self.cap))
        } else {
            None
        }
    }

    /// The guard for `cap`, from what the kernel said of it: whether it was held and, if it was,
    /// whether it was dropped. There is none for a capability that was not held, and no answer is
    /// an error.
    pub fn from_answers(cap: Capability, held: Held, dropped: Option<Changed>) -> (guard: Result<
        Option<ScopedCaps>,
        FsError,
    >)
        requires
            held.asked == EffectiveCap::Other(cap),
            dropped matches Some(dropped) ==> dropped.cap == cap,
            (held.said matches Ok(held) && held) ==> dropped is Some,
        ensures
            match guard {
                Ok(Some(guard)) => guard.dropped() == cap && guard.is_due() && (held.said matches Ok(
                    held,
                ) && held) && (dropped matches Some(dropped) && dropped.said is Ok),
                Ok(None) => held.said matches Ok(held) && !held,
                Err(e) => e == FsError::Os(EINVAL) && (held.said is Err || ((held.said matches Ok(
                    held,
                ) && held) && (dropped matches Some(dropped) && dropped.said is Err))),
            },
    {
        match held.said {
            Ok(true) => match dropped {
                Some(dropped) => match dropped.said {
                    Ok(()) => Ok(Some(ScopedCaps { cap, due: true })),
                    Err(_) => Err(einval()),
                },
                None => vstd::pervasive::unreached(),
            },
            Ok(false) => Ok(None),
            Err(_) => Err(einval()),
        }
    }

    fn new(cap: Capability) -> (guard: Result<Option<ScopedCaps>, FsError>)
        ensures
            match guard {
                Ok(Some(guard)) => guard.dropped() == cap && guard.is_due(),
                Ok(None) => true,
                Err(e) => e == FsError::Os(EINVAL),
            },
    {
        let held = has_effective(EffectiveCap::Other(cap));
        let dropped = match held.said {
            Ok(true) => Some(drop_effective(cap)),
            _ => None,
        };
        ScopedCaps::from_answers(cap, held, dropped)
    }

    /// What is told of a capability, from what the kernel said when it was told to raise it again:
    /// where it refused, the capability and the reason.
    pub fn restored(raised: Changed) -> (res: Result<(), NotRestored>)
        ensures
            match raised.said {
                Ok(_) => res is Ok,
                Err(error) => res matches Err(e) && e.cap == raised.cap && e.error == error,
            },
    {
        match raised.said {
            Ok(()) => Ok(()),
            Err(error) => Err(NotRestored { cap: raised.cap, error }),
        }
    }

    /// Raises the capability again, if that is still to be done. Whether that succeeds is up to the
    /// kernel; where it does not, the capability that is missing is told.
    pub fn restore(self) -> (res: Result<(), NotRestored>)
        ensures
            res matches Err(e) ==> self.is_due() && e.cap == self.dropped(),
    {
        let mut guard = self;
        match guard.give_back() {
            Some(raised) => ScopedCaps::restored(raised),
            None => Ok(()),
        }
    }
}

/// Drops a capability from the effective set of this thread, if it is there.
pub fn drop_effective_cap(cap: Capability) -> (guard: Result<Option<ScopedCaps>, FsError>)
    ensures
        match guard {
            Ok(Some(guard)) => guard.dropped() == cap && guard.is_due(),
            Ok(None) => true,
            Err(e) => e == FsError::Os(EINVAL),
        },
{
    ScopedCaps::new(cap)
}

/// A request is told that a capability is held just where the kernel says that it is: neither a no nor
/// an error counts as a yes.
pub proof fn law_only_a_yes_counts_as_held(answer: Held)
    ensures
        told(answer) matches Reply::Held(held) && (held <==> answer.said == Ok::<bool, CapsError>(
            true,
        )),
{
}

} // verus!
