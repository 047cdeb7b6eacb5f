//! The scheduler: owner of the thread table, the FIFO ready queue, the
//! currently running thread and the idle fallback. Voluntary yields and the
//! timer preemption hook converge on one rotate-and-switch algorithm,
//! specified by the `rotated` function on the scheduler's abstract model:
//! pop the front of the ready queue (or fall back to the idle thread),
//! re-enqueue the preempted thread unless it is the idle thread, and hand
//! the pair of threads to the platform's context-switch routine. Thread
//! exit runs the same selection, but drops the exiting block and releases
//! its stack instead of re-enqueuing it.

use vstd::prelude::*;
use std::collections::HashMap;
use crate::memory::{FrameAllocator, PageMapper};
use crate::stack::{frames_of_range, page_at, page_in_range, StackAllocator, StackRegion};
use crate::thread::{SavedContext, Thread, ThreadId, ThreadState};

verus! {

broadcast use vstd::std_specs::hash::group_hash_axioms;

/// The order the platform's context-switch routine must carry out: save the
/// context of `from`, restore the context of `to`. A thread resumed for the
/// first time starts in a manufactured trampoline that calls its entry
/// point and, should that entry ever return — entry points are contracted
/// never to — forces a clean thread exit rather than undefined behaviour.
#[derive(Debug, Clone, Copy, PartialEq, Eq, Structural)]
pub struct ContextSwitch {
    /// The thread being suspended (or discarded, on exit).
    pub from: ThreadId,
    /// The thread to resume.
    pub to: ThreadId,
}

/// Abstract state of the scheduler: the thread table as a map from raw
/// identifier to control block, the ready queue as the sequence of queued
/// identifiers in scheduling order, the running thread and the idle thread.
#[verifier::ext_equal]
pub ghost struct SchedulerModel {
    /// Registered threads, keyed by raw identifier.
    pub table: Map<u64, Thread>,
    /// Identifiers eligible to run, front first; strict FIFO.
    pub queue: Seq<u64>,
    /// The one thread whose state is Running.
    pub current: u64,
    /// The idle fallback, once registered.
    pub idle: Option<u64>,
}

impl SchedulerModel {
    /// The scheduler's invariant: the running thread is registered and is
    /// the only one not Ready; table entries carry their own identifier and
    /// a well-formed stack; the queue holds distinct registered identifiers,
    /// never the running thread; and the idle thread, once set, is
    /// registered and never sits in the queue.
    pub open spec fn wf(&self) -> bool {
        &&& self.table.dom().contains(self.current)
        &&& self.table[self.current].state == ThreadState::Running
        &&& forall|id: u64| self.table.dom().contains(id) && id != self.current
            ==> (#[trigger] self.table[id]).state == ThreadState::Ready
        &&& forall|id: u64| #[trigger] self.table.dom().contains(id)
            ==> self.table[id].id.0 == id && self.table[id].wf()
        &&& forall|i: int| 0 <= i < self.queue.len()
            ==> self.table.dom().contains(#[trigger] self.queue[i])
        &&& forall|i: int| 0 <= i < self.queue.len() ==> #[trigger] self.queue[i] != self.current
        &&& forall|i: int, j: int| #![trigger self.queue[i], self.queue[j]]
            0 <= i < j < self.queue.len() ==> self.queue[i] != self.queue[j]
        &&& self.idle is Some ==> self.table.dom().contains(self.idle->0)
            && forall|i: int| 0 <= i < self.queue.len() ==> #[trigger] self.queue[i] != self.idle->0
    }
}

/// The thread rotate-and-switch selects: the front of the ready queue, or
/// the idle thread when nothing is ready.
pub open spec fn next_choice(m: SchedulerModel) -> u64 {
    if m.queue.len() > 0 {
        m.queue[0]
    } else {
        m.idle->0
    }
}

/// The scheduler state after one rotate-and-switch: if the selected thread
/// is already running, nothing changes; otherwise the preempted thread
/// becomes Ready and goes to the back of the queue — unless it is the idle
/// thread, which is never enqueued — and the selected thread becomes
/// Running and current.
pub open spec fn rotated(m: SchedulerModel) -> SchedulerModel {
    let next = next_choice(m);
    if next == m.current {
        m
    } else {
        let popped = if m.queue.len() > 0 {
            m.queue.drop_first()
        } else {
            m.queue
        };
        let requeued = if m.idle == Some(m.current) {
            popped
        } else {
            popped.push(m.current)
        };
        let demoted = Thread { state: ThreadState::Ready, ..m.table[m.current] };
        let promoted = Thread { state: ThreadState::Running, ..m.table[next] };
        SchedulerModel {
            table: m.table.insert(m.current, demoted).insert(next, promoted),
            queue: requeued,
            current: next,
            idle: m.idle,
        }
    }
}

/// The switch a rotation orders from the platform: none when the selected
/// thread is already running, otherwise current to selected.
pub open spec fn rotate_switch(m: SchedulerModel) -> Option<ContextSwitch> {
    let next = next_choice(m);
    if next == m.current {
        None
    } else {
        Some(ContextSwitch { from: ThreadId(m.current), to: ThreadId(next) })
    }
}

/// The scheduler state after the running thread exits: its block leaves the
/// table, it is never re-enqueued, and the selected thread (front of the
/// queue, or the idle thread) becomes Running and current.
pub open spec fn exited(m: SchedulerModel) -> SchedulerModel {
    let next = next_choice(m);
    let promoted = Thread { state: ThreadState::Running, ..m.table[next] };
    SchedulerModel {
        table: m.table.remove(m.current).insert(next, promoted),
        queue: if m.queue.len() > 0 {
            m.queue.drop_first()
        } else {
            m.queue
        },
        current: next,
        idle: m.idle,
    }
}

/// Law: rotate-and-switch is sound in its selection. The thread it picks
/// is registered — so never a Terminated one, which the table no longer
/// holds — and is Ready, or is the idle thread; and while other threads
/// are ready, the running thread is never picked again (no needless
/// self-switch). The picked thread is Running and current afterwards.
pub proof fn lemma_selection_sound(m: SchedulerModel)
    requires
        m.wf(),
        m.idle is Some,
    ensures
        ({
            let next = next_choice(m);
            &&& m.table.dom().contains(next)
            &&& m.table[next].state != ThreadState::Terminated
            &&& m.table[next].state == ThreadState::Ready || next == m.idle->0
            &&& m.queue.len() > 0 ==> next != m.current && m.table[next].state == ThreadState::Ready
            &&& rotated(m).current == next
            &&& rotated(m).table[next].state == ThreadState::Running
        }),
{
}

/// Rotation preserves the scheduler invariant.
pub proof fn lemma_rotated_wf(m: SchedulerModel)
    requires
        m.wf(),
        m.idle is Some,
    ensures
        rotated(m).wf(),
{
    let next = next_choice(m);
    if next != m.current {
        let r = rotated(m);
        assert forall|i: int| 0 <= i < r.queue.len()
            implies r.table.dom().contains(#[trigger] r.queue[i]) by {
            if m.queue.len() > 0 && i < m.queue.len() - 1 {
                assert(r.queue[i] == m.queue[i + 1]);
            }
        }
        assert forall|i: int| 0 <= i < r.queue.len() implies #[trigger] r.queue[i] != r.current by {
            if m.queue.len() > 0 && i < m.queue.len() - 1 {
                assert(r.queue[i] == m.queue[i + 1]);
            }
        }
        assert forall|i: int, j: int| #![trigger r.queue[i], r.queue[j]]
            0 <= i < j < r.queue.len() implies r.queue[i] != r.queue[j] by {
            if m.queue.len() > 0 {
                if j < m.queue.len() - 1 {
                    assert(r.queue[i] == m.queue[i + 1]);
                    assert(r.queue[j] == m.queue[j + 1]);
                } else if m.idle != Some(m.current) && j == m.queue.len() - 1 {
                    assert(r.queue[i] == m.queue[i + 1]);
                    assert(r.queue[j] == m.current);
                }
            }
        }
    }
}

/// Law: the idle fallback. With nothing in the ready queue, rotation hands
/// the processor to the idle thread — switching to it, or staying on it if
/// it is already running.
pub proof fn lemma_idle_fallback(m: SchedulerModel)
    requires
        m.wf(),
        m.idle is Some,
        m.queue.len() == 0,
    ensures
        rotated(m).current == m.idle->0,
        rotated(m).wf(),
{
    lemma_rotated_wf(m);
}

/// Law: strict FIFO round robin. With the idle thread running and threads
/// `a`, `b`, `c` ready in that order, none yielding early, successive
/// rotations hand the processor to `a`, then `b`, then `c`, and the fourth
/// rotation returns the scheduler to the state after the first — so the
/// visit order is cyclic: a, b, c, a, b, c, and so on forever.
pub proof fn lemma_round_robin(m: SchedulerModel, a: u64, b: u64, c: u64)
    requires
        m.wf(),
        m.idle == Some(m.current),
        m.queue =~= seq![a, b, c],
    ensures
        rotated(m).current == a,
        rotated(rotated(m)).current == b,
        rotated(rotated(rotated(m))).current == c,
        rotated(rotated(rotated(rotated(m)))) == rotated(m),
{
    let m1 = rotated(m);
    lemma_rotated_wf(m);
    assert(m1.queue =~= seq![b, c]);
    let m2 = rotated(m1);
    lemma_rotated_wf(m1);
    assert(m2.queue =~= seq![c, a]);
    let m3 = rotated(m2);
    lemma_rotated_wf(m2);
    assert(m3.queue =~= seq![a, b]);
    let m4 = rotated(m3);
    assert(m4.queue =~= seq![b, c]);
    assert(m4.table =~= m1.table);
    assert(m4 =~= m1);
}

/// The scheduler singleton: thread table, FIFO ready queue, running thread
/// and idle fallback. All access is serialized by the platform's global
/// access gate; nothing here is reentrant.
pub struct Scheduler {
    table: HashMap<u64, Thread>,
    ready_queue: Vec<ThreadId>,
    current: ThreadId,
    idle: Option<ThreadId>,
}

impl View for Scheduler {
    type V = SchedulerModel;

    closed spec fn view(&self) -> SchedulerModel {
        SchedulerModel {
            table: self.table@,
            queue: self.ready_queue@.map_values(|t: ThreadId| t.0),
            current: self.current.0,
            idle: match self.idle {
                Some(t) => Some(t.0),
                None => None,
            },
        }
    }
}

impl Scheduler {
    /// The scheduler invariant, on the abstract model.
    pub open spec fn wf(&self) -> bool {
        self@.wf()
    }

    /// A scheduler whose only thread is the boot context, running, with an
    /// empty ready queue and no idle thread yet.
    pub fn new(boot: Thread) -> (r: Self)
        requires
            boot.state == ThreadState::Running,
            boot.wf(),
        ensures
            r@.table =~= Map::<u64, Thread>::empty().insert(boot.id.0, boot),
            r@.queue =~= Seq::<u64>::empty(),
            r@.current == boot.id.0,
            r@.idle is None,
            r.wf(),
    {
        let mut table: HashMap<u64, Thread> = HashMap::new();
        let id = boot.id;
        table.insert(id.0, boot);
        let r = Scheduler { table, ready_queue: Vec::new(), current: id, idle: None };
        proof {
            assert(r@.queue =~= Seq::<u64>::empty());
            assert(r@.table =~= Map::<u64, Thread>::empty().insert(boot.id.0, boot));
        }
        r
    }

    /// Registers a new thread: into the table, and to the back of the ready
    /// queue. A duplicate identifier is a programming error and is ruled
    /// out by the precondition.
    pub fn add_new_thread(&mut self, thread: Thread)
        requires
            old(self).wf(),
            thread.wf(),
            thread.state == ThreadState::Ready,
            !old(self)@.table.dom().contains(thread.id.0),
        ensures
            final(self)@.table == old(self)@.table.insert(thread.id.0, thread),
            final(self)@.queue == old(self)@.queue.push(thread.id.0),
            final(self)@.current == old(self)@.current,
            final(self)@.idle == old(self)@.idle,
            final(self).wf(),
    {
        self.table.insert(thread.id.0, thread);
        self.ready_queue.push(thread.id);
        proof {
            assert(self@.queue =~= old(self)@.queue.push(thread.id.0));
            assert forall|i: int| 0 <= i < self@.queue.len()
                implies self@.table.dom().contains(#[trigger] self@.queue[i]) by {
                if i < old(self)@.queue.len() {
                    assert(self@.queue[i] == old(self)@.queue[i]);
                }
            }
        }
    }

    /// Records the idle thread, registering it in the table. Must be called
    /// exactly once, before the first yield or preemption; the precondition
    /// rules out a second call.
    pub fn set_idle_thread(&mut self, thread: Thread)
        requires
            old(self).wf(),
            thread.wf(),
            thread.state == ThreadState::Ready,
            old(self)@.idle is None,
            !old(self)@.table.dom().contains(thread.id.0),
        ensures
            final(self)@.table == old(self)@.table.insert(thread.id.0, thread),
            final(self)@.queue == old(self)@.queue,
            final(self)@.current == old(self)@.current,
            final(self)@.idle == Some(thread.id.0),
            final(self).wf(),
    {
        self.table.insert(thread.id.0, thread);
        self.idle = Some(thread.id);
        proof {
            assert(self@.queue == old(self)@.queue);
            assert forall|i: int| 0 <= i < self@.queue.len()
                implies #[trigger] self@.queue[i] != thread.id.0 by {
                assert(self@.queue[i] == old(self)@.queue[i]);
                assert(old(self)@.table.dom().contains(old(self)@.queue[i]));
            }
        }
    }

    /// The identifier of the running thread. Read-only.
    pub fn current_thread_id(&self) -> (r: ThreadId)
        ensures
            r.0 == self@.current,
    {
        self.current
    }

    /// The identifier of the idle thread, once set.
    pub fn idle_thread_id(&self) -> (r: Option<ThreadId>)
        ensures
            r is Some <==> self@.idle is Some,
            r is Some ==> (r->0).0 == self@.idle->0,
    {
        self.idle
    }

    /// How many threads the table holds.
    pub fn thread_count(&self) -> (n: usize)
        ensures
            n == self@.table.len(),
    {
        self.table.len()
    }

    /// Whether a thread with this identifier is registered.
    pub fn contains_thread(&self, id: ThreadId) -> (r: bool)
        ensures
            r == self@.table.dom().contains(id.0),
    {
        self.table.contains_key(&id.0)
    }

    /// The scheduling state of a registered thread.
    pub fn thread_state(&self, id: ThreadId) -> (r: ThreadState)
        requires
            self@.table.dom().contains(id.0),
        ensures
            r == self@.table[id.0].state,
    {
        self.table.get(&id.0).unwrap().state
    }

    /// The stack region of a registered thread.
    pub fn thread_stack(&self, id: ThreadId) -> (r: StackRegion)
        requires
            self@.table.dom().contains(id.0),
        ensures
            r == self@.table[id.0].stack,
    {
        self.table.get(&id.0).unwrap().stack
    }

    /// How many threads wait in the ready queue.
    pub fn ready_count(&self) -> (n: usize)
        ensures
            n == self@.queue.len(),
    {
        self.ready_queue.len()
    }

    /// The identifier at position `i` of the ready queue, front first.
    pub fn ready_at(&self, i: usize) -> (r: ThreadId)
        requires
            i < self@.queue.len(),
        ensures
            r.0 == self@.queue[i as int],
    {
        self.ready_queue[i]
    }

    /// The saved context of a registered thread, for the context-switch
    /// routine to restore.
    pub fn saved_context_of(&self, id: ThreadId) -> (r: SavedContext)
        requires
            self@.table.dom().contains(id.0),
        ensures
            r == self@.table[id.0].saved_context,
    {
        self.table.get(&id.0).unwrap().saved_context
    }

    /// Stores the context the context-switch routine saved for a suspended
    /// thread. Only the platform's save half calls this; nothing else of
    /// the block changes.
    pub fn set_saved_context(&mut self, id: ThreadId, ctx: SavedContext)
        requires
            old(self).wf(),
            old(self)@.table.dom().contains(id.0),
        ensures
            final(self)@.table == old(self)@.table.insert(
                id.0,
                Thread { saved_context: ctx, ..old(self)@.table[id.0] },
            ),
            final(self)@.queue == old(self)@.queue,
            final(self)@.current == old(self)@.current,
            final(self)@.idle == old(self)@.idle,
            final(self).wf(),
    {
        let tcb = *self.table.get(&id.0).unwrap();
        self.table.insert(id.0, Thread { saved_context: ctx, ..tcb });
        proof {
            assert(self@.table.dom() =~= old(self)@.table.dom());
            lemma_wf_transfer(old(self)@, self@);
        }
    }

    /// One rotate-and-switch of the scheduling algorithm, shared verbatim
    /// by the voluntary and the preempted path.
    fn rotate(&mut self) -> (r: Option<ContextSwitch>)
        requires
            old(self).wf(),
            old(self)@.idle is Some,
        ensures
            final(self)@ == rotated(old(self)@),
            r == rotate_switch(old(self)@),
            final(self).wf(),
    {
        proof {
            lemma_rotated_wf(old(self)@);
        }
        let next: ThreadId = if self.ready_queue.len() > 0 {
            let n = self.ready_queue.remove(0);
            proof {
                assert(self@.queue =~= old(self)@.queue.drop_first());
            }
            n
        } else {
            self.idle.unwrap()
        };
        if next.0 == self.current.0 {
            // Only possible with an empty queue and the idle thread
            // running: nothing to switch.
            proof {
                assert(self@ =~= rotated(old(self)@));
            }
            return None;
        }
        let cur = self.current;
        let cur_tcb = *self.table.get(&cur.0).unwrap();
        self.table.insert(cur.0, Thread { state: ThreadState::Ready, ..cur_tcb });
        let requeue = match self.idle {
            Some(idle) => idle.0 != cur.0,
            None => true,
        };
        if requeue {
            self.ready_queue.push(cur);
        }
        let next_tcb = *self.table.get(&next.0).unwrap();
        self.table.insert(next.0, Thread { state: ThreadState::Running, ..next_tcb });
        self.current = next;
        proof {
            if old(self)@.queue.len() > 0 {
                if old(self)@.idle == Some(old(self)@.current) {
                    assert(self@.queue =~= rotated(old(self)@).queue);
                } else {
                    assert(self@.queue =~= old(self)@.queue.drop_first().push(cur.0));
                }
            } else {
                assert(self@.queue =~= rotated(old(self)@).queue);
            }
            assert(self@ =~= rotated(old(self)@));
        }
        Some(ContextSwitch { from: cur, to: next })
    }

    /// The preemption path: called on every timer tick, after the platform
    /// acknowledged the interrupt controller. One rotate-and-switch.
    pub fn tick(&mut self) -> (r: Option<ContextSwitch>)
        requires
            old(self).wf(),
            old(self)@.idle is Some,
        ensures
            final(self)@ == rotated(old(self)@),
            r == rotate_switch(old(self)@),
            final(self).wf(),
    {
        self.rotate()
    }

    /// The voluntary path: a running thread gives its slice up. One
    /// rotate-and-switch, identical to the preempted path.
    pub fn yield_now(&mut self) -> (r: Option<ContextSwitch>)
        requires
            old(self).wf(),
            old(self)@.idle is Some,
        ensures
            final(self)@ == rotated(old(self)@),
            r == rotate_switch(old(self)@),
            final(self).wf(),
    {
        self.rotate()
    }

    /// The running thread exits: its block is marked Terminated and leaves
    /// the table, its stack is unmapped and its frames return to the pool,
    /// and the next thread (front of the queue, or the idle thread) is
    /// switched to. The exiting side of the returned switch is discarded,
    /// never resumed; the terminated block is returned for the platform to
    /// dispose of. The idle thread never exits.
    pub fn exit_thread(
        &mut self,
        mapper: &mut PageMapper,
        frames: &mut FrameAllocator,
    ) -> (r: (Thread, ContextSwitch))
        requires
            old(self).wf(),
            old(self)@.idle is Some,
            old(self)@.idle != Some(old(self)@.current),
            forall|j: int| 0 <= j < old(self)@.table[old(self)@.current].stack.page_count
                ==> old(mapper)@.dom().contains(
                    #[trigger] page_at(old(self)@.table[old(self)@.current].stack.base_page, j),
                ),
        ensures
            ({
                let exiting = old(self)@.table[old(self)@.current];
                let region = exiting.stack;
                &&& final(self)@ == exited(old(self)@)
                &&& final(self).wf()
                &&& r.0 == Thread { state: ThreadState::Terminated, ..exiting }
                &&& r.1 == ContextSwitch {
                    from: ThreadId(old(self)@.current),
                    to: ThreadId(next_choice(old(self)@)),
                }
                &&& final(mapper)@ =~= old(mapper)@.remove_keys(
                    Set::new(|p: u64| page_in_range(region.base_page, region.page_count, p)))
                &&& final(frames)@ == old(frames)@
                    + frames_of_range(old(mapper)@, region.base_page, region.page_count)
            }),
    {
        let cur = self.current;
        let removed = self.table.remove(&cur.0).unwrap();
        StackAllocator::release(removed.stack, mapper, frames);
        let next: ThreadId = if self.ready_queue.len() > 0 {
            let n = self.ready_queue.remove(0);
            proof {
                assert(self@.queue =~= old(self)@.queue.drop_first());
            }
            n
        } else {
            self.idle.unwrap()
        };
        let next_tcb = *self.table.get(&next.0).unwrap();
        self.table.insert(next.0, Thread { state: ThreadState::Running, ..next_tcb });
        self.current = next;
        proof {
            assert(self@ =~= exited(old(self)@));
            lemma_exited_wf(old(self)@);
        }
        (Thread { state: ThreadState::Terminated, ..removed }, ContextSwitch { from: cur, to: next })
    }
}

/// Exit preserves the scheduler invariant, provided the idle thread is set
/// and is not the one exiting.
pub proof fn lemma_exited_wf(m: SchedulerModel)
    requires
        m.wf(),
        m.idle is Some,
        m.idle != Some(m.current),
    ensures
        exited(m).wf(),
{
    let r = exited(m);
    assert forall|i: int| 0 <= i < r.queue.len()
        implies r.table.dom().contains(#[trigger] r.queue[i]) && r.queue[i] != r.current by {
        if m.queue.len() > 0 {
            assert(r.queue[i] == m.queue[i + 1]);
        }
    }
    assert forall|i: int, j: int| #![trigger r.queue[i], r.queue[j]]
        0 <= i < j < r.queue.len() implies r.queue[i] != r.queue[j] by {
        if m.queue.len() > 0 {
            assert(r.queue[i] == m.queue[i + 1]);
            assert(r.queue[j] == m.queue[j + 1]);
        }
    }
}

/// The scheduler invariant does not depend on saved contexts or entry
/// values: it transfers between two models that agree on the queue, the
/// running thread, the idle thread, the set of registered identifiers, and
/// each block's identity, state and stack.
proof fn lemma_wf_transfer(m0: SchedulerModel, m1: SchedulerModel)
    requires
        m0.wf(),
        m1.queue == m0.queue,
        m1.current == m0.current,
        m1.idle == m0.idle,
        m1.table.dom() =~= m0.table.dom(),
        forall|id: u64| #[trigger] m0.table.dom().contains(id)
            ==> m1.table[id].id == m0.table[id].id
                && m1.table[id].state == m0.table[id].state
                && m1.table[id].stack == m0.table[id].stack,
    ensures
        m1.wf(),
{
    assert forall|i: int| 0 <= i < m1.queue.len()
        implies m1.table.dom().contains(#[trigger] m1.queue[i]) && m1.queue[i] != m1.current by {
        assert(m1.queue[i] == m0.queue[i]);
        assert(m0.table.dom().contains(m0.queue[i]));
        assert(m0.queue[i] != m0.current);
    }
    assert forall|i: int, j: int| #![trigger m1.queue[i], m1.queue[j]]
        0 <= i < j < m1.queue.len() implies m1.queue[i] != m1.queue[j] by {
        assert(m1.queue[i] == m0.queue[i]);
        assert(m1.queue[j] == m0.queue[j]);
    }
    if m1.idle is Some {
        assert forall|i: int| 0 <= i < m1.queue.len()
            implies #[trigger] m1.queue[i] != m1.idle->0 by {
            assert(m1.queue[i] == m0.queue[i]);
            assert(m0.queue[i] != m0.idle->0);
        }
    }
    assert forall|id: u64| m1.table.dom().contains(id) && id != m1.current
        implies (#[trigger] m1.table[id]).state == ThreadState::Ready by {
        assert(m0.table.dom().contains(id));
    }
    assert forall|id: u64| #[trigger] m1.table.dom().contains(id)
        implies m1.table[id].id.0 == id && m1.table[id].wf() by {
        assert(m0.table.dom().contains(id));
    }
}

} // verus!
