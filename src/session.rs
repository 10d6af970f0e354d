//! The acquire/release discipline of a pseudo-console session.
//!
//! Spawning a session is a fixed series of steps, each of which may acquire
//! OS handles. The calls themselves are made outside the library; the
//! `SpawnPlan` here decides, one action at a time, which step to run next,
//! which handle to release, and when the attempt is over. It hands the
//! caller's own pipe ends to the console as soon as the console exists,
//! releases the process attribute list whether or not the process was
//! created, and unwinds a failed attempt by releasing, newest first, every
//! handle still held. `SessionGuard` then releases a live session's handles
//! exactly once, console first.

use vstd::multiset::Multiset;
use vstd::prelude::*;

verus! {

broadcast use vstd::seq_lib::group_to_multiset_ensures;

/// A handle that a spawn attempt or a session can own.
#[derive(Clone, Copy, Debug, PartialEq, Eq, Structural)]
pub enum Handle {
    /// The end of the input pipe that the console reads.
    InputRead,
    /// The caller's end of the input pipe.
    InputWrite,
    /// The caller's end of the output pipe.
    OutputRead,
    /// The end of the output pipe that the console writes.
    OutputWrite,
    /// The pseudo-console device.
    Console,
    /// The memory of the process attribute list.
    AttrMemory,
    /// The initialized process attribute list.
    AttrList,
    /// The child process.
    Process,
    /// The child's main thread.
    Thread,
}

/// The steps of a spawn, in order.
#[derive(Clone, Copy, Debug, PartialEq, Eq, Structural)]
pub enum SpawnStep {
    /// Create the input pipe.
    InputPipe,
    /// Create the output pipe.
    OutputPipe,
    /// Create the pseudo-console on the console's pipe ends.
    CreateConsole,
    /// Query the attribute list's size and allocate its memory.
    AllocAttrList,
    /// Initialize the attribute list in that memory.
    InitAttrList,
    /// Attach the console to the attribute list.
    AttachConsole,
    /// Create the child process with the attribute list.
    CreateProcess,
}

/// What the caller must do next for a spawn attempt.
#[derive(Clone, Copy, Debug, PartialEq, Eq, Structural)]
pub enum SpawnAction {
    /// Run this step, then report whether it succeeded.
    Run(SpawnStep),
    /// Release this handle, then report it released.
    Release(Handle),
    /// The session is ready: it owns `session_handles()`.
    Finish,
    /// The attempt failed and everything it acquired is released.
    Abort,
}

/// Number of steps in a spawn.
pub const SPAWN_STEPS: usize = 7;

pub open spec fn step_at(i: nat) -> SpawnStep {
    if i == 0 {
        SpawnStep::InputPipe
    } else if i == 1 {
        SpawnStep::OutputPipe
    } else if i == 2 {
        SpawnStep::CreateConsole
    } else if i == 3 {
        SpawnStep::AllocAttrList
    } else if i == 4 {
        SpawnStep::InitAttrList
    } else if i == 5 {
        SpawnStep::AttachConsole
    } else {
        SpawnStep::CreateProcess
    }
}

/// The handles a step acquires when it succeeds.
pub open spec fn acquires(s: SpawnStep) -> Seq<Handle> {
    match s {
        SpawnStep::InputPipe => seq![Handle::InputRead, Handle::InputWrite],
        SpawnStep::OutputPipe => seq![Handle::OutputRead, Handle::OutputWrite],
        SpawnStep::CreateConsole => seq![Handle::Console],
        SpawnStep::AllocAttrList => seq![Handle::AttrMemory],
        SpawnStep::InitAttrList => seq![Handle::AttrList],
        SpawnStep::AttachConsole => seq![],
        SpawnStep::CreateProcess => seq![Handle::Process, Handle::Thread],
    }
}

/// The handles released right after a step succeeds, in release order:
/// the console's pipe ends once the console owns them, and the attribute
/// list once the process exists.
pub open spec fn released_after(s: SpawnStep) -> Seq<Handle> {
    match s {
        SpawnStep::CreateConsole => seq![Handle::InputRead, Handle::OutputWrite],
        SpawnStep::CreateProcess => seq![Handle::AttrList, Handle::AttrMemory],
        _ => seq![],
    }
}

/// Every handle acquired by the first `n` steps, in order.
pub open spec fn acquired_through(n: nat) -> Seq<Handle>
    decreases n,
{
    if n == 0 {
        seq![]
    } else {
        acquired_through((n - 1) as nat) + acquires(step_at((n - 1) as nat))
    }
}

/// The handles held once the first `n` steps have succeeded, in the order
/// they were acquired.
pub open spec fn held_after(n: nat) -> Seq<Handle> {
    if n == 0 {
        seq![]
    } else if n == 1 {
        seq![Handle::InputRead, Handle::InputWrite]
    } else if n == 2 {
        seq![Handle::InputRead, Handle::InputWrite, Handle::OutputRead, Handle::OutputWrite]
    } else if n == 3 {
        seq![Handle::InputWrite, Handle::OutputRead, Handle::Console]
    } else if n == 4 {
        seq![Handle::InputWrite, Handle::OutputRead, Handle::Console, Handle::AttrMemory]
    } else if n <= 6 {
        seq![
            Handle::InputWrite,
            Handle::OutputRead,
            Handle::Console,
            Handle::AttrMemory,
            Handle::AttrList,
        ]
    } else {
        session_handles()
    }
}

/// What a live session owns.
pub open spec fn session_handles() -> Seq<Handle> {
    seq![Handle::InputWrite, Handle::OutputRead, Handle::Console, Handle::Process, Handle::Thread]
}

/// The order in which a session's handles are released: the console first,
/// which ends the output stream, then the pipe ends, then the process and
/// thread.
pub open spec fn teardown_seq() -> Seq<Handle> {
    seq![Handle::Console, Handle::InputWrite, Handle::OutputRead, Handle::Process, Handle::Thread]
}

/// The executable steps of a spawn, by position.
fn step_of(i: usize) -> (s: SpawnStep)
    requires
        i < SPAWN_STEPS,
    ensures
        s == step_at(i as nat),
{
    if i == 0 {
        SpawnStep::InputPipe
    } else if i == 1 {
        SpawnStep::OutputPipe
    } else if i == 2 {
        SpawnStep::CreateConsole
    } else if i == 3 {
        SpawnStep::AllocAttrList
    } else if i == 4 {
        SpawnStep::InitAttrList
    } else if i == 5 {
        SpawnStep::AttachConsole
    } else {
        SpawnStep::CreateProcess
    }
}

/// `released_after(s)`, last to be released first.
fn released_after_stack(s: SpawnStep) -> (v: Vec<Handle>)
    ensures
        v@ == released_after(s).reverse(),
{
    let v = match s {
        SpawnStep::CreateConsole => vec![Handle::OutputWrite, Handle::InputRead],
        SpawnStep::CreateProcess => vec![Handle::AttrMemory, Handle::AttrList],
        _ => vec![],
    };
    assert(v@ =~= released_after(s).reverse());
    v
}

/// `held_after(n)`, in acquisition order.
fn held_after_vec(n: usize) -> (v: Vec<Handle>)
    requires
        n <= SPAWN_STEPS,
    ensures
        v@ == held_after(n as nat),
{
    let v = if n == 0 {
        vec![]
    } else if n == 1 {
        vec![Handle::InputRead, Handle::InputWrite]
    } else if n == 2 {
        vec![Handle::InputRead, Handle::InputWrite, Handle::OutputRead, Handle::OutputWrite]
    } else if n == 3 {
        vec![Handle::InputWrite, Handle::OutputRead, Handle::Console]
    } else if n == 4 {
        vec![Handle::InputWrite, Handle::OutputRead, Handle::Console, Handle::AttrMemory]
    } else if n <= 6 {
        vec![
            Handle::InputWrite,
            Handle::OutputRead,
            Handle::Console,
            Handle::AttrMemory,
            Handle::AttrList,
        ]
    } else {
        vec![Handle::InputWrite, Handle::OutputRead, Handle::Console, Handle::Process, Handle::Thread]
    };
    assert(v@ =~= held_after(n as nat));
    v
}

/// The decisions of one spawn attempt.
pub struct SpawnPlan {
    done: usize,
    failed: bool,
    /// Handles to release before anything else, the last one first.
    pending: Vec<Handle>,
    released: Ghost<Seq<Handle>>,
}

impl SpawnPlan {
    /// Steps that have succeeded.
    pub closed spec fn steps_done(&self) -> nat {
        self.done as nat
    }

    /// Has a step failed?
    pub closed spec fn has_failed(&self) -> bool {
        self.failed
    }

    /// Handles still to release before the next step or the end, in the
    /// order they will be released.
    pub closed spec fn release_queue(&self) -> Seq<Handle> {
        self.pending@.reverse()
    }

    /// Every handle released so far, in order.
    pub closed spec fn released_log(&self) -> Seq<Handle> {
        self.released@
    }

    /// Handles held and not queued for release.
    pub open spec fn held(&self) -> Seq<Handle> {
        if self.has_failed() {
            seq![]
        } else {
            held_after(self.steps_done())
        }
    }

    pub closed spec fn wf(&self) -> bool {
        &&& self.done <= SPAWN_STEPS
        &&& self.failed ==> self.done < SPAWN_STEPS
        &&& acquired_through(self.done as nat).to_multiset() == self.released@.to_multiset().add(
            self.pending@.to_multiset(),
        ).add(self.held().to_multiset())
    }

    /// What the caller must do next.
    pub open spec fn next_spec(&self) -> SpawnAction {
        if self.release_queue().len() > 0 {
            SpawnAction::Release(self.release_queue()[0])
        } else if self.has_failed() {
            SpawnAction::Abort
        } else if self.steps_done() >= SPAWN_STEPS {
            SpawnAction::Finish
        } else {
            SpawnAction::Run(step_at(self.steps_done()))
        }
    }

    /// A fresh attempt: nothing run, nothing held.
    pub fn new() -> (p: SpawnPlan)
        ensures
            p.wf(),
            p.steps_done() == 0,
            !p.has_failed(),
            p.release_queue() == Seq::<Handle>::empty(),
            p.released_log() == Seq::<Handle>::empty(),
            p.next_spec() == SpawnAction::Run(SpawnStep::InputPipe),
    {
        let p = SpawnPlan { done: 0, failed: false, pending: Vec::new(), released: Ghost(Seq::empty()) };
        assert(p.release_queue() =~= Seq::<Handle>::empty());
        assert(acquired_through(0).to_multiset() =~= p.released@.to_multiset().add(
            p.pending@.to_multiset(),
        ).add(p.held().to_multiset()));
        p
    }

    /// What the caller must do next.
    pub fn next_action(&self) -> (a: SpawnAction)
        requires
            self.wf(),
        ensures
            a == self.next_spec(),
    {
        let n = self.pending.len();
        if n > 0 {
            proof {
                assert(self.release_queue()[0] == self.pending@[n - 1]);
            }
            SpawnAction::Release(self.pending[n - 1])
        } else if self.failed {
            SpawnAction::Abort
        } else if self.done >= SPAWN_STEPS {
            SpawnAction::Finish
        } else {
            SpawnAction::Run(step_of(self.done))
        }
    }

    /// Records the outcome of the step that `next_action` asked for. On
    /// success the step's handles are held, and the handles it makes
    /// redundant are queued for release; on failure every handle held is
    /// queued for release, newest first.
    pub fn record_step(&mut self, succeeded: bool)
        requires
            old(self).wf(),
            old(self).next_spec() is Run,
        ensures
            final(self).wf(),
            final(self).released_log() == old(self).released_log(),
            succeeded ==> {
                &&& final(self).steps_done() == old(self).steps_done() + 1
                &&& !final(self).has_failed()
                &&& final(self).release_queue() == released_after(step_at(old(self).steps_done()))
            },
            !succeeded ==> {
                &&& final(self).steps_done() == old(self).steps_done()
                &&& final(self).has_failed()
                &&& final(self).release_queue() == held_after(old(self).steps_done()).reverse()
            },
    {
        let ghost pre = *self;
        assert(self.pending@ =~= self.pending@.reverse().reverse());
        if succeeded {
            let step = step_of(self.done);
            proof {
                lemma_step_balance(self.done as nat);
                released_after(step).lemma_reverse_to_multiset();
            }
            self.pending = released_after_stack(step);
            self.done = self.done + 1;
            proof {
                let a = acquires(step).to_multiset();
                let r = released_after(step).to_multiset();
                let rl = self.released@.to_multiset();
                let h0 = held_after(pre.done as nat).to_multiset();
                let h1 = held_after(self.done as nat).to_multiset();
                assert(pre.pending@.to_multiset() =~= Multiset::empty());
                assert(self.pending@.to_multiset() == r);
                assert(acquired_through(self.done as nat).to_multiset() =~= rl.add(r).add(h1)) by {
                    assert(acquired_through(pre.done as nat).to_multiset() =~= rl.add(h0));
                    assert(rl.add(h0).add(a) =~= rl.add(h0.add(a)));
                    assert(rl.add(h1.add(r)) =~= rl.add(r).add(h1));
                }
                assert(self.release_queue() =~= released_after(step));
            }
        } else {
            let v = held_after_vec(self.done);
            self.pending = v;
            self.failed = true;
            proof {
                let rl = self.released@.to_multiset();
                assert(pre.pending@.to_multiset() =~= Multiset::empty());
                assert(self.held().to_multiset() =~= Multiset::empty());
                assert(acquired_through(self.done as nat).to_multiset() =~= rl.add(
                    self.pending@.to_multiset(),
                ).add(self.held().to_multiset()));
            }
        }
    }

    /// Records that the handle `next_action` named has been released.
    pub fn record_release(&mut self)
        requires
            old(self).wf(),
            old(self).next_spec() is Release,
        ensures
            final(self).wf(),
            final(self).steps_done() == old(self).steps_done(),
            final(self).has_failed() == old(self).has_failed(),
            final(self).release_queue() == old(self).release_queue().drop_first(),
            final(self).released_log() == old(self).released_log().push(
                old(self).release_queue()[0],
            ),
    {
        let ghost pre = *self;
        let h = self.pending.pop().unwrap();
        self.released = Ghost(self.released@.push(h));
        proof {
            assert(pre.pending@ =~= self.pending@.push(h));
            assert(pre.pending@.to_multiset() =~= self.pending@.to_multiset().insert(h));
            assert(self.released@.to_multiset() =~= pre.released@.to_multiset().insert(h));
            assert(acquired_through(self.done as nat).to_multiset() =~= self.released@.to_multiset().add(
                self.pending@.to_multiset(),
            ).add(self.held().to_multiset()));
            assert(self.release_queue() =~= pre.release_queue().drop_first());
        }
    }
}

/// The first `n` steps acquire each handle at most once.
proof fn lemma_acquired_distinct(n: nat)
    requires
        n <= SPAWN_STEPS,
    ensures
        acquired_through(n).no_duplicates(),
{
    reveal_with_fuel(acquired_through, 8);
    let all = seq![
        Handle::InputRead,
        Handle::InputWrite,
        Handle::OutputRead,
        Handle::OutputWrite,
        Handle::Console,
        Handle::AttrMemory,
        Handle::AttrList,
        Handle::Process,
        Handle::Thread,
    ];
    let len: int = if n == 0 {
        0
    } else if n == 1 {
        2
    } else if n == 2 {
        4
    } else if n == 3 {
        5
    } else if n == 4 {
        6
    } else if n <= 6 {
        7
    } else {
        9
    };
    assert(acquired_through(n) =~= all.subrange(0, len));
}

/// A spawn attempt that failed at step `k` (`k - 1` steps done), once it
/// has been unwound, has issued exactly as many releases as the steps before
/// `k` made acquisitions, of the same handles: nothing acquired is left
/// unreleased, and no handle is released twice.
pub proof fn lemma_failed_spawn_releases_all(plan: &SpawnPlan)
    requires
        plan.wf(),
        plan.next_spec() == SpawnAction::Abort,
    ensures
        plan.has_failed(),
        plan.released_log().to_multiset() == acquired_through(plan.steps_done()).to_multiset(),
        plan.released_log().len() == acquired_through(plan.steps_done()).len(),
        forall|h: Handle| #[trigger] plan.released_log().to_multiset().count(h) <= 1,
{
    let acq = acquired_through(plan.steps_done());
    assert(plan.pending@.len() == 0);
    assert(plan.pending@.to_multiset() =~= Multiset::empty());
    assert(plan.held().to_multiset() =~= Multiset::empty());
    assert(acq.to_multiset() =~= plan.released@.to_multiset());
    assert(acq.to_multiset().len() == acq.len());
    assert(plan.released@.to_multiset().len() == plan.released@.len());
    lemma_acquired_distinct(plan.steps_done());
    acq.lemma_multiset_has_no_duplicates();
    assert forall|h: Handle| #[trigger] plan.released_log().to_multiset().count(h) <= 1 by {
        if acq.to_multiset().contains(h) {
        }
    }
}

/// A spawn attempt that finished has released everything it acquired
/// except what the session now owns, each handle once.
pub proof fn lemma_finished_spawn_keeps_session(plan: &SpawnPlan)
    requires
        plan.wf(),
        plan.next_spec() == SpawnAction::Finish,
    ensures
        plan.held() == session_handles(),
        plan.released_log().to_multiset().add(session_handles().to_multiset())
            == acquired_through(SPAWN_STEPS as nat).to_multiset(),
{
    assert(plan.pending@.len() == 0);
    assert(plan.pending@.to_multiset() =~= Multiset::empty());
    assert(acquired_through(SPAWN_STEPS as nat).to_multiset() =~= plan.released@.to_multiset().add(
        session_handles().to_multiset(),
    ));
}

/// The release of a live session's handles, which happens once.
pub struct SessionGuard {
    live: bool,
}

impl SessionGuard {
    pub closed spec fn is_live(&self) -> bool {
        self.live
    }

    /// A guard for a session that has just been spawned.
    pub fn new() -> (g: SessionGuard)
        ensures
            g.is_live(),
    {
        SessionGuard { live: true }
    }

    /// The handles to release, in order: the whole session the first time,
    /// nothing after that.
    pub fn teardown(&mut self) -> (order: Vec<Handle>)
        ensures
            !final(self).is_live(),
            old(self).is_live() ==> order@ == teardown_seq(),
            !old(self).is_live() ==> order@.len() == 0,
    {
        if self.live {
            self.live = false;
            let order = vec![
                Handle::Console,
                Handle::InputWrite,
                Handle::OutputRead,
                Handle::Process,
                Handle::Thread,
            ];
            assert(order@ =~= teardown_seq());
            order
        } else {
            Vec::new()
        }
    }
}

/// The teardown order releases exactly the handles a session owns, each
/// once, console first.
pub proof fn lemma_teardown_releases_session()
    ensures
        teardown_seq().to_multiset() == session_handles().to_multiset(),
        teardown_seq()[0] == Handle::Console,
{
    let e = Seq::<Handle>::empty();
    assert(teardown_seq() =~= e.push(Handle::Console).push(Handle::InputWrite).push(Handle::OutputRead).push(Handle::Process).push(Handle::Thread));
    assert(session_handles() =~= e.push(Handle::InputWrite).push(Handle::OutputRead).push(Handle::Console).push(Handle::Process).push(Handle::Thread));
    assert(teardown_seq().to_multiset() =~= session_handles().to_multiset());
}

/// One step's bookkeeping: what a step acquires joins what was held, and
/// what is released after it leaves.
proof fn lemma_step_balance(n: nat)
    requires
        n < SPAWN_STEPS,
    ensures
        acquired_through(n + 1).to_multiset() == acquired_through(n).to_multiset().add(
            acquires(step_at(n)).to_multiset(),
        ),
        held_after(n).to_multiset().add(acquires(step_at(n)).to_multiset()) == held_after(
            n + 1,
        ).to_multiset().add(released_after(step_at(n)).to_multiset()),
{
    vstd::seq_lib::lemma_multiset_commutative(acquired_through(n), acquires(step_at(n)));
    let h0 = held_after(n);
    let h1 = held_after(n + 1);
    let a = acquires(step_at(n));
    let r = released_after(step_at(n));
    vstd::seq_lib::lemma_multiset_commutative(h0, a);
    vstd::seq_lib::lemma_multiset_commutative(h1, r);
    if n == 2 {
        assert(h0 + a =~= seq![Handle::InputRead, Handle::InputWrite, Handle::OutputRead, Handle::OutputWrite, Handle::Console]);
        assert(h1 + r =~= seq![Handle::InputWrite, Handle::OutputRead, Handle::Console, Handle::InputRead, Handle::OutputWrite]);
        lemma_permuted_five(h0 + a, h1 + r);
    } else if n == 6 {
        assert(h0 + a =~= seq![Handle::InputWrite, Handle::OutputRead, Handle::Console, Handle::AttrMemory, Handle::AttrList, Handle::Process, Handle::Thread]);
        assert(h1 + r =~= seq![Handle::InputWrite, Handle::OutputRead, Handle::Console, Handle::Process, Handle::Thread, Handle::AttrList, Handle::AttrMemory]);
        lemma_permuted_seven(h0 + a, h1 + r);
    } else {
        assert(h0 + a =~= h1 + r);
    }
}

proof fn lemma_permuted_five(x: Seq<Handle>, y: Seq<Handle>)
    requires
        x == seq![Handle::InputRead, Handle::InputWrite, Handle::OutputRead, Handle::OutputWrite, Handle::Console],
        y == seq![Handle::InputWrite, Handle::OutputRead, Handle::Console, Handle::InputRead, Handle::OutputWrite],
    ensures
        x.to_multiset() == y.to_multiset(),
{
    let e = Seq::<Handle>::empty();
    assert(x =~= e.push(Handle::InputRead).push(Handle::InputWrite).push(Handle::OutputRead).push(Handle::OutputWrite).push(Handle::Console));
    assert(y =~= e.push(Handle::InputWrite).push(Handle::OutputRead).push(Handle::Console).push(Handle::InputRead).push(Handle::OutputWrite));
    assert(x.to_multiset() =~= y.to_multiset());
}

proof fn lemma_permuted_seven(x: Seq<Handle>, y: Seq<Handle>)
    requires
        x == seq![Handle::InputWrite, Handle::OutputRead, Handle::Console, Handle::AttrMemory, Handle::AttrList, Handle::Process, Handle::Thread],
        y == seq![Handle::InputWrite, Handle::OutputRead, Handle::Console, Handle::Process, Handle::Thread, Handle::AttrList, Handle::AttrMemory],
    ensures
        x.to_multiset() == y.to_multiset(),
{
    let e = Seq::<Handle>::empty();
    assert(x =~= e.push(Handle::InputWrite).push(Handle::OutputRead).push(Handle::Console).push(Handle::AttrMemory).push(Handle::AttrList).push(Handle::Process).push(Handle::Thread));
    assert(y =~= e.push(Handle::InputWrite).push(Handle::OutputRead).push(Handle::Console).push(Handle::Process).push(Handle::Thread).push(Handle::AttrList).push(Handle::AttrMemory));
    assert(x.to_multiset() =~= y.to_multiset());
}

} // verus!
