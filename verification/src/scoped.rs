//! Requests that may run without the capability to keep set-id bits, and give it back before they
//! end.

use crate::create::{Create, Created};
use crate::fs::{FsView, PassthroughFs};
use crate::io::Write;
use crate::model::{FsError, Handle, RawFd};
use crate::open::Open;
use crate::step::{bare, carries, carry, Carrying, Reply, Step, Syscall};
use vstd::prelude::*;

verus! {

/// A request, together with whether it dropped the capability.
#[derive(Debug)]
pub enum Scoped<S, T> {
    /// The request goes on; `dropped` says whether the capability is to be raised again.
    Running { op: S, dropped: bool },
    /// All is done but for the capability, which is raised again.
    Restoring { res: Result<T, FsError> },
}

/// The capability is gone once the host says that it was held when it was dropped.
pub open spec fn is_dropped(dropped: bool, reply: Reply) -> bool {
    dropped || reply == Reply::Held(true)
}

/// Where a request stands that may have dropped the capability: one that dropped it does not end
/// before it is raised again.
pub open spec fn scoped<S, T>(step: Step<S, T>, dropped: bool) -> Step<Scoped<S, T>, T> {
    match step {
        Step::Call(call, op) => Step::Call(call, Scoped::Running { op, dropped }),
        Step::Done(res) => if dropped {
            Step::Call(Syscall::RaiseFsetid, Scoped::Restoring { res })
        } else {
            Step::Done(res)
        },
    }
}

pub(crate) fn scope<S, T>(step: Step<S, T>, dropped: bool) -> (request: Step<Scoped<S, T>, T>)
    ensures
        request == scoped(step, dropped),
{
    match step {
        Step::Call(call, op) => Step::Call(call, Scoped::Running { op, dropped }),
        Step::Done(res) => if dropped {
            Step::Call(Syscall::RaiseFsetid, Scoped::Restoring { res })
        } else {
            Step::Done(res)
        },
    }
}

fn drops(dropped: bool, reply: &Reply) -> (gone: bool)
    ensures
        gone == is_dropped(dropped, *reply),
{
    match reply {
        Reply::Held(held) => dropped || *held,
        _ => dropped,
    }
}

impl<S, T> Scoped<S, T> {
    /// Whether the capability is missing while the request waits here.
    pub open spec fn lacks(self) -> bool {
        match self {
            Scoped::Running { dropped, .. } => dropped,
            Scoped::Restoring { .. } => true,
        }
    }
}

impl Scoped<Open, (Option<Handle>, u32)> {
    pub open spec fn pending(self) -> Syscall {
        match self {
            Scoped::Running { op, .. } => op.pending(),
            Scoped::Restoring { .. } => Syscall::RaiseFsetid,
        }
    }

    pub open spec fn next(self, fs: FsView, reply: Reply) -> (
        FsView,
        Step<Scoped<Open, (Option<Handle>, u32)>, (Option<Handle>, u32)>,
    ) {
        match self {
            Scoped::Running { op, dropped } => {
                let (after, step) = op.next(fs, reply);
                (after, scoped(step, is_dropped(dropped, reply)))
            },
            Scoped::Restoring { res } => (fs, Step::Done(res)),
        }
    }

    pub fn resume(self, fs: &mut PassthroughFs, reply: Reply) -> (step: Step<
        Scoped<Open, (Option<Handle>, u32)>,
        (Option<Handle>, u32),
    >)
        requires
            old(fs).wf(),
            self.pending().answered_by(reply),
        ensures
            final(fs).wf(),
            (final(fs)@, step) == self.next(old(fs)@, reply),
    {
        match self {
            Scoped::Running { op, dropped } => {
                let dropped = drops(dropped, &reply);
                scope(op.resume(fs, reply), dropped)
            },
            Scoped::Restoring { res } => Step::Done(res),
        }
    }
}

impl Scoped<Write, usize> {
    pub open spec fn pending(self) -> Syscall {
        match self {
            Scoped::Running { op, .. } => op.pending(),
            Scoped::Restoring { .. } => Syscall::RaiseFsetid,
        }
    }

    pub open spec fn next(self, fs: FsView, reply: Reply) -> Step<Scoped<Write, usize>, usize> {
        match self {
            Scoped::Running { op, dropped } => scoped(
                op.next(fs, reply),
                is_dropped(dropped, reply),
            ),
            Scoped::Restoring { res } => Step::Done(res),
        }
    }

    pub fn resume(self, fs: &PassthroughFs, reply: Reply) -> (step: Step<
        Scoped<Write, usize>,
        usize,
    >)
        requires
            self.pending().answered_by(reply),
        ensures
            step == self.next(fs@, reply),
    {
        match self {
            Scoped::Running { op, dropped } => {
                let dropped = drops(dropped, &reply);
                scope(op.resume(fs, reply), dropped)
            },
            Scoped::Restoring { res } => Step::Done(res),
        }
    }
}

impl Scoped<Create, Created> {
    /// Whether this request has the file `fd` open.
    pub open spec fn holds(self, fd: RawFd) -> bool {
        self matches Scoped::Running { op, .. } && op.holds(fd)
    }

    pub open spec fn pending(self) -> Syscall {
        match self {
            Scoped::Running { op, .. } => op.pending(),
            Scoped::Restoring { .. } => Syscall::RaiseFsetid,
        }
    }

    pub open spec fn next(self, fs: FsView, reply: Reply) -> (
        FsView,
        Step<Scoped<Create, Created>, Created>,
    ) {
        match self {
            Scoped::Running { op, dropped } => {
                let (after, step) = op.next(fs, reply);
                (after, scoped(step, is_dropped(dropped, reply)))
            },
            Scoped::Restoring { res } => (fs, Step::Done(res)),
        }
    }

    pub fn resume(self, fs: &mut PassthroughFs, reply: Reply) -> (step: Step<
        Scoped<Create, Created>,
        Created,
    >)
        requires
            old(fs).wf(),
            self.pending().answered_by(reply),
        ensures
            final(fs).wf(),
            (final(fs)@, step) == self.next(old(fs)@, reply),
    {
        match self {
            Scoped::Running { op, dropped } => {
                let dropped = drops(dropped, &reply);
                scope(op.resume(fs, reply), dropped)
            },
            Scoped::Restoring { res } => Step::Done(res),
        }
    }
}

impl Carrying<Scoped<Create, Created>> {
    pub fn resume(self, fs: &mut PassthroughFs, reply: Reply) -> (step: Step<
        Carrying<Scoped<Create, Created>>,
        Created,
    >)
        requires
            old(fs).wf(),
            self.op.pending().answered_by(reply),
        ensures
            final(fs).wf(),
            (final(fs)@, bare(step)) == self.op.next(old(fs)@, reply),
            carries(step, self.carried@),
    {
        carry(self.op.resume(fs, reply), self.carried)
    }
}

/// Whether the capability is missing after these calls of a request and the host's replies to them:
/// it was dropped, the host had it, and it was not raised since.
pub open spec fn is_missing(history: Seq<(Syscall, Reply)>) -> bool
    decreases history.len(),
{
    if history.len() == 0 {
        false
    } else {
        let (call, reply) = history.last();
        match call {
            Syscall::DropFsetid => reply == Reply::Held(true) || is_missing(history.drop_last()),
            Syscall::RaiseFsetid => false,
            _ => is_missing(history.drop_last()),
        }
    }
}

/// The calls of a request with one more.
pub open spec fn and_then(history: Seq<(Syscall, Reply)>, call: Syscall, reply: Reply) -> Seq<
    (Syscall, Reply),
> {
    history.push((call, reply))
}

proof fn lemma_one_more_call(history: Seq<(Syscall, Reply)>, call: Syscall, reply: Reply)
    requires
        call.answered_by(reply),
        !(call is HasCap),
    ensures
        call == Syscall::RaiseFsetid ==> !is_missing(and_then(history, call, reply)),
        call != Syscall::RaiseFsetid ==> is_missing(and_then(history, call, reply)) == is_dropped(
            is_missing(history),
            reply,
        ),
{
    assert(history.push((call, reply)).drop_last() =~= history);
}

/// A request that drops the capability to keep set-id bits starts with it.
pub proof fn law_requests_start_with_the_capability<S, T>(step: Step<S, T>)
    ensures
        !is_missing(Seq::empty()),
        scoped(step, false) matches Step::Call(_, op) ==> !op.lacks(),
{
}

/// An open that dropped the capability to keep set-id bits ends only through the call that raises it
/// again, whether it succeeds or fails: while it waits it lacks the capability exactly where its calls
/// took it away, and when it is done the capability is there.
pub proof fn law_open_gives_the_capability_back(
    history: Seq<(Syscall, Reply)>,
    op: Scoped<Open, (Option<Handle>, u32)>,
    fs: FsView,
    reply: Reply,
)
    requires
        op.pending().answered_by(reply),
        is_missing(history) == op.lacks(),
    ensures
        ({
            let history = and_then(history, op.pending(), reply);
            match op.next(fs, reply).1 {
                Step::Call(call, then) => call == then.pending() && is_missing(history)
                    == then.lacks(),
                Step::Done(_) => !is_missing(history),
            }
        }),
{
    lemma_one_more_call(history, op.pending(), reply);
}

/// So with a write.
pub proof fn law_write_gives_the_capability_back(
    history: Seq<(Syscall, Reply)>,
    op: Scoped<Write, usize>,
    fs: FsView,
    reply: Reply,
)
    requires
        op.pending().answered_by(reply),
        is_missing(history) == op.lacks(),
    ensures
        ({
            let history = and_then(history, op.pending(), reply);
            match op.next(fs, reply) {
                Step::Call(call, then) => call == then.pending() && is_missing(history)
                    == then.lacks(),
                Step::Done(_) => !is_missing(history),
            }
        }),
{
    lemma_one_more_call(history, op.pending(), reply);
}

proof fn lemma_create_raises_nothing(op: Create)
    ensures
        op.pending() != Syscall::RaiseFsetid,
        !(op.pending() is HasCap),
{
}

proof fn lemma_create_waits(op: Create, fs: FsView, reply: Reply)
    requires
        op.pending().answered_by(reply),
    ensures
        op.next(fs, reply).1 matches Step::Call(call, then) ==> call == then.pending(),
{
}

/// So with the making of a file.
pub proof fn law_create_gives_the_capability_back(
    history: Seq<(Syscall, Reply)>,
    op: Scoped<Create, Created>,
    fs: FsView,
    reply: Reply,
)
    requires
        op.pending().answered_by(reply),
        is_missing(history) == op.lacks(),
    ensures
        ({
            let history = and_then(history, op.pending(), reply);
            match op.next(fs, reply).1 {
                Step::Call(call, then) => call == then.pending() && is_missing(history)
                    == then.lacks(),
                Step::Done(_) => !is_missing(history),
            }
        }),
{
    if let Scoped::Running { op: inner, .. } = op {
        lemma_create_raises_nothing(inner);
        lemma_create_waits(inner, fs, reply);
    }
    lemma_one_more_call(history, op.pending(), reply);
}

/// A request is passed on as it is. While it goes on its calls are its own; its result is its own too,
/// at once where it holds the capability, and else once that is raised again.
pub proof fn law_scope_passes_the_request_on<S, T>(step: Step<S, T>, dropped: bool)
    ensures
        match (step, scoped(step, dropped)) {
            (Step::Call(call, op), Step::Call(made, Scoped::Running { op: own, dropped: lacks })) => {
                made == call && own == op && lacks == dropped
            },
            (Step::Done(res), Step::Call(made, Scoped::Restoring { res: own })) => dropped && made
                == Syscall::RaiseFsetid && own == res,
            (Step::Done(res), Step::Done(own)) => !dropped && own == res,
            _ => false,
        },
{
}

/// A running request takes the replies of the host as it does without its scope, and lacks the
/// capability from the reply on that says that it was held when it was dropped.
pub proof fn law_running_request_takes_its_replies(
    open: Open,
    write: Write,
    create: Create,
    dropped: bool,
    fs: FsView,
    reply: Reply,
)
    ensures
        ({
            let lacks = dropped || reply == Reply::Held(true);
            let running = Scoped::<Open, (Option<Handle>, u32)>::Running { op: open, dropped };
            &&& running.pending() == open.pending()
            &&& running.next(fs, reply) == (
                open.next(fs, reply).0,
                scoped(open.next(fs, reply).1, lacks),
            )
        }),
        ({
            let lacks = dropped || reply == Reply::Held(true);
            let running = Scoped::<Write, usize>::Running { op: write, dropped };
            &&& running.pending() == write.pending()
            &&& running.next(fs, reply) == scoped(write.next(fs, reply), lacks)
        }),
        ({
            let lacks = dropped || reply == Reply::Held(true);
            let running = Scoped::<Create, Created>::Running { op: create, dropped };
            &&& running.pending() == create.pending()
            &&& running.next(fs, reply) == (
                create.next(fs, reply).0,
                scoped(create.next(fs, reply).1, lacks),
            )
        }),
{
}

/// Dropping and raising the capability changes nothing else: a request changes the file system as it
/// does without that, raising the capability changes neither the file system nor the result, and no
/// file is left open by it.
pub proof fn law_scope_changes_nothing_else(
    open: Scoped<Open, (Option<Handle>, u32)>,
    write: Scoped<Write, usize>,
    create: Scoped<Create, Created>,
    fs: FsView,
    reply: Reply,
    f: RawFd,
)
    ensures
        match open {
            Scoped::Running { op, .. } => open.next(fs, reply).0 == op.next(fs, reply).0,
            Scoped::Restoring { res } => open.next(fs, reply).0 == fs && (open.next(
                fs,
                reply,
            ).1 matches Step::Done(end) && end == res),
        },
        match write {
            Scoped::Running { .. } => true,
            Scoped::Restoring { res } => write.next(fs, reply) matches Step::Done(end) && end
                == res,
        },
        match create {
            Scoped::Running { op, .. } => {
                let (after, step) = op.next(fs, reply);
                let (scoped_after, scoped_step) = create.next(fs, reply);
                &&& scoped_after == after
                &&& (scoped_step matches Step::Call(_, then) && then.holds(f)) == (
                step matches Step::Call(_, then) && then.holds(f))
            },
            Scoped::Restoring { res } => create.next(fs, reply).0 == fs && (create.next(
                fs,
                reply,
            ).1 matches Step::Done(end) && end == res),
        },
{
}

} // verus!
