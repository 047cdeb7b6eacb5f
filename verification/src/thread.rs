//! The thread control block and its lifecycle. A thread is created Ready,
//! owning a freshly mapped, guarded stack and an initial saved context that
//! makes its first resume begin at its entry point with the stack pointer
//! at the top of its region. Thread identifiers are handed out by a
//! monotonic counter and are never reused while the kernel runs.

use vstd::prelude::*;
use crate::memory::{FrameAllocator, PageMapper, PAGE_SIZE};
use crate::stack::{
    alloc_conflicts, alloc_fits, alloc_out_of_frames, page_at, page_in_range, AllocationError,
    StackAllocator, StackRegion, VIRT_PAGE_LIMIT,
};

verus! {

/// Unique identifier of a thread, assigned at creation in increasing order
/// and never reused while the kernel runs.
#[derive(Debug, Clone, Copy, PartialEq, Eq, Hash, Structural)]
pub struct ThreadId(pub u64);

impl ThreadId {
    /// The identifier as its raw integer.
    pub fn as_u64(&self) -> (r: u64)
        ensures
            r == self.0,
    {
        self.0
    }
}

/// Hands out thread identifiers: each call returns the next integer, so
/// every identifier is assigned at most once and later threads always get
/// strictly larger ones.
pub struct ThreadIdCounter {
    /// The identifier the next creation will receive.
    pub next: u64,
}

impl ThreadIdCounter {
    /// A counter whose first identifier is 0.
    pub fn new() -> (r: Self)
        ensures
            r.next == 0,
    {
        ThreadIdCounter { next: 0 }
    }

    /// Takes the next identifier.
    pub fn fresh(&mut self) -> (r: ThreadId)
        requires
            old(self).next < u64::MAX,
        ensures
            r.0 == old(self).next,
            final(self).next == old(self).next + 1,
    {
        let id = ThreadId(self.next);
        self.next = self.next + 1;
        id
    }
}

/// Scheduling state of a thread.
///
/// `Blocked` is reserved for a future blocking extension: no operation of
/// this core transitions into or out of it.
#[derive(Debug, Clone, Copy, PartialEq, Eq, Structural)]
pub enum ThreadState {
    /// Eligible to run; in the ready queue or the idle fallback.
    Ready,
    /// Currently executing; exactly one thread is in this state.
    Running,
    /// Reserved; never entered by this core.
    Blocked,
    /// Exited; the control block is dropped from the thread table.
    Terminated,
}

/// What a thread starts executing on its first resume. The platform layer
/// owns the actual code and closure storage; this core records the value it
/// writes into the initial context: either the address of a bare top-level
/// function, or the handle of a boxed closure that is invoked exactly once.
#[derive(Debug, Clone, Copy, PartialEq, Eq, Structural)]
pub enum ThreadEntry {
    /// A bare top-level function, by address.
    Function { address: u64 },
    /// A boxed closure owned by the platform layer, by handle.
    Closure { handle: u64 },
}

/// Snapshot of a suspended thread's stack pointer (standing for the stack
/// pointer and the callee-preserved registers saved beside it). Meaningless
/// while the thread is Running; rewritten by the context-switch routine at
/// every suspension.
#[derive(Debug, Clone, Copy, PartialEq, Eq, Structural)]
pub struct SavedContext {
    /// Stack pointer at the last suspension point.
    pub stack_pointer: u64,
}

/// A thread control block: identity, scheduling state, exclusively owned
/// stack, saved execution context, and entry point.
#[derive(Debug, Clone, Copy, PartialEq, Eq, Structural)]
pub struct Thread {
    /// Unique identity, fixed at creation.
    pub id: ThreadId,
    /// Scheduling state.
    pub state: ThreadState,
    /// The guarded stack region this block exclusively owns.
    pub stack: StackRegion,
    /// Saved stack pointer of the last suspension.
    pub saved_context: SavedContext,
    /// What the thread runs when first resumed.
    pub entry: ThreadEntry,
}

impl Thread {
    /// The control block's stack region is well formed.
    pub open spec fn wf(&self) -> bool {
        self.stack.wf()
    }

    /// A control block for the boot context: the flow of control that set
    /// the kernel up and is running before any switch happens. It entered
    /// execution on the boot stack, outside this core's stack allocator, so
    /// its region is empty and its entry value is never consumed.
    pub fn bootstrap(id: ThreadId) -> (r: Thread)
        ensures
            r.id == id,
            r.state == ThreadState::Running,
            r.stack == (StackRegion { base_page: 1, page_count: 0 }),
            r.wf(),
    {
        Thread {
            id,
            state: ThreadState::Running,
            stack: StackRegion { base_page: 1, page_count: 0 },
            saved_context: SavedContext { stack_pointer: 0 },
            entry: ThreadEntry::Function { address: 0 },
        }
    }

    /// Creates a thread that will start at the bare function at
    /// `entry_address`, on a fresh guarded stack of `page_count` pages.
    ///
    /// Succeeds iff the stack allocation does (enough free frames, no
    /// collision with an existing mapping); on failure nothing is changed
    /// and no identifier is consumed. The new block is Ready, its initial
    /// stack pointer is the top of its region, and its identifier is the
    /// counter's next value.
    pub fn create(
        entry_address: u64,
        page_count: u32,
        ids: &mut ThreadIdCounter,
        stacks: &mut StackAllocator,
        mapper: &mut PageMapper,
        frames: &mut FrameAllocator,
    ) -> (r: Result<Thread, AllocationError>)
        requires
            old(ids).next < u64::MAX,
            old(stacks).wf(),
            1 <= page_count,
            old(stacks).next_page + page_count + 1 <= VIRT_PAGE_LIMIT,
        ensures
            created_thread(
                r,
                ThreadEntry::Function { address: entry_address },
                page_count,
                *old(ids),
                *final(ids),
                *old(stacks),
                *final(stacks),
                old(mapper)@,
                final(mapper)@,
                old(frames)@,
                final(frames)@,
            ),
    {
        let region = match stacks.allocate(page_count, mapper, frames) {
            Err(e) => {
                return Err(e);
            },
            Ok(region) => region,
        };
        let id = ids.fresh();
        let top = region.top();
        Ok(
            Thread {
                id,
                state: ThreadState::Ready,
                stack: region,
                saved_context: SavedContext { stack_pointer: top },
                entry: ThreadEntry::Function { address: entry_address },
            },
        )
    }

    /// Creates a thread that will start by invoking, exactly once, the
    /// boxed closure the platform layer holds under `closure_handle`.
    /// Identical to `create` in every other respect.
    pub fn create_from_closure(
        closure_handle: u64,
        page_count: u32,
        ids: &mut ThreadIdCounter,
        stacks: &mut StackAllocator,
        mapper: &mut PageMapper,
        frames: &mut FrameAllocator,
    ) -> (r: Result<Thread, AllocationError>)
        requires
            old(ids).next < u64::MAX,
            old(stacks).wf(),
            1 <= page_count,
            old(stacks).next_page + page_count + 1 <= VIRT_PAGE_LIMIT,
        ensures
            created_thread(
                r,
                ThreadEntry::Closure { handle: closure_handle },
                page_count,
                *old(ids),
                *final(ids),
                *old(stacks),
                *final(stacks),
                old(mapper)@,
                final(mapper)@,
                old(frames)@,
                final(frames)@,
            ),
    {
        let region = match stacks.allocate(page_count, mapper, frames) {
            Err(e) => {
                return Err(e);
            },
            Ok(region) => region,
        };
        let id = ids.fresh();
        let top = region.top();
        Ok(
            Thread {
                id,
                state: ThreadState::Ready,
                stack: region,
                saved_context: SavedContext { stack_pointer: top },
                entry: ThreadEntry::Closure { handle: closure_handle },
            },
        )
    }
}

/// Everything thread creation guarantees, relating the result `r` and the
/// states of the identifier counter, stack allocator, page mapper and frame
/// allocator before and after the call.
pub open spec fn created_thread(
    r: Result<Thread, AllocationError>,
    entry: ThreadEntry,
    page_count: u32,
    ids0: ThreadIdCounter,
    ids1: ThreadIdCounter,
    stacks0: StackAllocator,
    stacks1: StackAllocator,
    m0: Map<u64, u64>,
    m1: Map<u64, u64>,
    f0: Seq<u64>,
    f1: Seq<u64>,
) -> bool {
    let base = (stacks0.next_page + 1) as u64;
    let n = f0.len() as int;
    &&& (r is Ok <==> alloc_fits(m0, f0, base, page_count))
    &&& (r == Err::<Thread, AllocationError>(AllocationError::OutOfFrames)
        <==> alloc_out_of_frames(m0, f0, base, page_count))
    &&& (r == Err::<Thread, AllocationError>(AllocationError::MappingConflict)
        <==> alloc_conflicts(m0, f0, base, page_count))
    &&& r is Err ==> m1 == m0 && f1 == f0 && ids1 == ids0 && stacks1 == stacks0
    &&& r is Ok ==> {
        let t = r->Ok_0;
        &&& t.id.0 == ids0.next
        &&& ids1.next == ids0.next + 1
        &&& t.state == ThreadState::Ready
        &&& t.entry == entry
        &&& t.stack.base_page == base
        &&& t.stack.page_count == page_count
        &&& t.wf()
        &&& t.saved_context.stack_pointer == (base + page_count) * PAGE_SIZE
        &&& stacks1.next_page == base + page_count
        &&& stacks1.wf()
        &&& f1 == f0.take(n - page_count)
        &&& m1.dom() =~= m0.dom().union(
            Set::new(|p: u64| page_in_range(base, page_count, p)))
        &&& (forall|j: int| 0 <= j < page_count
            ==> m1[#[trigger] page_at(base, j)] == f0[n - 1 - j])
        &&& (forall|p: u64| !page_in_range(base, page_count, p) && m0.dom().contains(p)
            ==> m1[p] == m0[p])
    }
}

} // verus!
