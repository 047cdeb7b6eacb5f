//! Per-thread execution stacks: a guarded virtual range backed by freshly
//! allocated physical frames. Allocation reserves one extra, permanently
//! unmapped guard page immediately below the stack to catch overflow, maps
//! each stack page to its own frame, and rolls every partial mapping back
//! if the frame pool runs dry or the chosen range collides with an existing
//! mapping. Release returns a stack's pages and frames exactly.

use vstd::prelude::*;
use crate::memory::{FrameAllocator, PageMapper, PAGE_SIZE};

verus! {

/// One more than the highest virtual page number stacks may occupy; keeps
/// every stack address below the canonical 48-bit boundary.
pub const VIRT_PAGE_LIMIT: u64 = 0x8_0000_0000;

/// Failure of stack allocation, the one recoverable error of this core.
#[derive(Debug, Clone, Copy, PartialEq, Eq, Structural)]
pub enum AllocationError {
    /// The frame allocator ran out of physical frames.
    OutOfFrames,
    /// The chosen virtual range was already mapped in part.
    MappingConflict,
}

/// A thread's execution stack: `page_count` virtual pages starting at page
/// number `base_page`, with the page below left unmapped as overflow guard.
#[derive(Debug, Clone, Copy, PartialEq, Eq, Structural)]
pub struct StackRegion {
    /// Virtual page number of the lowest stack page.
    pub base_page: u64,
    /// Number of mapped pages; a size parameter only, never a priority.
    pub page_count: u32,
}

/// Whether virtual page `p` lies inside the range of `count` pages starting
/// at `base_page`.
pub open spec fn page_in_range(base_page: u64, count: u32, p: u64) -> bool {
    base_page <= p < base_page + count
}

/// Virtual page number `j` pages above `base_page`.
pub open spec fn page_at(base_page: u64, j: int) -> u64 {
    (base_page + j) as u64
}

/// The frames backing pages `base_page..base_page + count` under mapping
/// `m`, listed from the highest page down — the order release returns them.
pub open spec fn frames_of_range(m: Map<u64, u64>, base_page: u64, count: u32) -> Seq<u64> {
    Seq::new(count as nat, |i: int| m[(base_page + count - 1 - i) as u64])
}

/// Allocation of `count` pages at `base_page` succeeds: enough frames are
/// free and no page of the range is already mapped.
pub open spec fn alloc_fits(m: Map<u64, u64>, f: Seq<u64>, base_page: u64, count: u32) -> bool {
    count <= f.len() && (forall|j: int| 0 <= j < count
        ==> !m.dom().contains(#[trigger] page_at(base_page, j)))
}

/// Allocation fails for want of frames: the pool runs dry before any page
/// of the range conflicts.
pub open spec fn alloc_out_of_frames(m: Map<u64, u64>, f: Seq<u64>, base_page: u64, count: u32) -> bool {
    f.len() < count && (forall|j: int| 0 <= j < f.len()
        ==> !m.dom().contains(#[trigger] page_at(base_page, j)))
}

/// Allocation fails on a collision: some page of the range is already
/// mapped and is reached before the pool runs dry.
pub open spec fn alloc_conflicts(m: Map<u64, u64>, f: Seq<u64>, base_page: u64, count: u32) -> bool {
    exists|j: int| 0 <= j < count && j < f.len()
        && m.dom().contains(#[trigger] page_at(base_page, j))
}

impl StackRegion {
    /// A region that is placed above its guard page and whose top address
    /// stays below the virtual limit.
    pub open spec fn wf(&self) -> bool {
        1 <= self.base_page && self.base_page + self.page_count <= VIRT_PAGE_LIMIT
    }

    /// Lowest address of the stack, the byte just above the guard page.
    pub fn base(&self) -> (r: u64)
        requires
            self.wf(),
        ensures
            r == self.base_page * PAGE_SIZE,
    {
        self.base_page * PAGE_SIZE
    }

    /// One past the highest stack address; the initial stack pointer of a
    /// thread running on this stack.
    pub fn top(&self) -> (r: u64)
        requires
            self.wf(),
        ensures
            r == (self.base_page + self.page_count) * PAGE_SIZE,
    {
        (self.base_page + self.page_count as u64) * PAGE_SIZE
    }

    /// Page number of the unmapped guard page immediately below the stack.
    pub fn guard_page(&self) -> (r: u64)
        requires
            self.wf(),
        ensures
            r == self.base_page - 1,
    {
        self.base_page - 1
    }

    /// Whether virtual page `p` is one of this stack's mapped pages.
    pub fn contains_page(&self, p: u64) -> (r: bool)
        requires
            self.wf(),
        ensures
            r == page_in_range(self.base_page, self.page_count, p),
    {
        self.base_page <= p && p < self.base_page + self.page_count as u64
    }
}

/// Carves guarded stack regions out of a growing virtual range. Ranges are
/// never reused, so a freed stack's pages — and its guard — stay unmapped
/// unless some other part of the kernel maps them.
pub struct StackAllocator {
    /// Next virtual page number to reserve; grows monotonically.
    pub next_page: u64,
}

impl StackAllocator {
    /// The cursor has not run past the virtual limit.
    pub open spec fn wf(&self) -> bool {
        1 <= self.next_page <= VIRT_PAGE_LIMIT
    }

    /// An allocator that will place its first guard page at `start_page`.
    pub fn new(start_page: u64) -> (r: Self)
        requires
            1 <= start_page <= VIRT_PAGE_LIMIT,
        ensures
            r.next_page == start_page,
            r.wf(),
    {
        StackAllocator { next_page: start_page }
    }

    /// Reserves `page_count + 1` fresh virtual pages — the lowest stays
    /// unmapped as the guard — takes `page_count` frames from `frames`, and
    /// maps each stack page to its own frame.
    ///
    /// At least one page is required: the initial saved context a new
    /// thread starts from must have a stack to sit on.
    ///
    /// Succeeds iff enough frames are free and the whole range is unmapped;
    /// fails with `OutOfFrames` when the pool runs dry first, and with
    /// `MappingConflict` when an already-mapped page of the range is hit
    /// first. Either failure rolls all partial work back: the mapper and
    /// the frame pool are returned exactly as they were.
    #[verifier::loop_isolation(false)]
    pub fn allocate(
        &mut self,
        page_count: u32,
        mapper: &mut PageMapper,
        frames: &mut FrameAllocator,
    ) -> (r: Result<StackRegion, AllocationError>)
        requires
            old(self).wf(),
            1 <= page_count,
            old(self).next_page + page_count + 1 <= VIRT_PAGE_LIMIT,
        ensures
            ({
                let base = (old(self).next_page + 1) as u64;
                let n = old(frames)@.len() as int;
                &&& (r is Ok <==> alloc_fits(old(mapper)@, old(frames)@, base, page_count))
                &&& (r == Err::<StackRegion, AllocationError>(AllocationError::OutOfFrames)
                    <==> alloc_out_of_frames(old(mapper)@, old(frames)@, base, page_count))
                &&& (r == Err::<StackRegion, AllocationError>(AllocationError::MappingConflict)
                    <==> alloc_conflicts(old(mapper)@, old(frames)@, base, page_count))
                &&& r is Err ==> final(mapper)@ == old(mapper)@
                        && final(frames)@ == old(frames)@
                        && *final(self) == *old(self)
                &&& r is Ok ==> {
                    let region = r->Ok_0;
                    &&& region.base_page == base
                    &&& region.page_count == page_count
                    &&& region.wf()
                    &&& final(self).next_page == base + page_count
                    &&& final(self).wf()
                    &&& final(frames)@ == old(frames)@.take(n - page_count)
                    &&& final(mapper)@.dom() =~= old(mapper)@.dom().union(
                            Set::new(|p: u64| page_in_range(base, page_count, p)))
                    &&& forall|j: int| 0 <= j < page_count
                            ==> final(mapper)@[#[trigger] page_at(base, j)] == old(frames)@[n - 1 - j]
                    &&& forall|p: u64| !page_in_range(base, page_count, p)
                            && old(mapper)@.dom().contains(p)
                            ==> final(mapper)@[p] == old(mapper)@[p]
                }
            }),
    {
        let ghost m0 = old(mapper)@;
        let ghost f0 = old(frames)@;
        let ghost n = old(frames)@.len() as int;
        let base: u64 = self.next_page + 1;
        let mut i: u32 = 0;
        while i < page_count
            invariant
                0 <= i <= page_count,
                i <= n,
                self == old(self),
                frames@ =~= f0.take(n - i),
                forall|j: int| 0 <= j < i ==> !m0.dom().contains(#[trigger] page_at(base, j)),
                forall|j: int| 0 <= j < i ==> mapper@.dom().contains(#[trigger] page_at(base, j))
                    && mapper@[page_at(base, j)] == f0[n - 1 - j],
                forall|p: u64| !page_in_range(base, i as u32, p)
                    ==> mapper@.dom().contains(p) == m0.dom().contains(p),
                forall|p: u64| !page_in_range(base, i as u32, p) && m0.dom().contains(p)
                    ==> mapper@[p] == m0[p],
            decreases page_count - i,
        {
            match frames.allocate_frame() {
                None => {
                    // The pool ran dry after `i` pages: undo them all.
                    proof {
                        assert(f0.take(n - i).len() == 0);
                        assert(i == n);
                    }
                    let ghost m_mid = mapper@;
                    Self::unmap_range(base, i, mapper, frames);
                    proof {
                        lemma_rollback_restores(m0, f0, m_mid, mapper@, frames@, base, n, i);
                    }
                    return Err(AllocationError::OutOfFrames);
                }
                Some(frame) => {
                    proof {
                        assert(page_at(base, i as int) == base + i as u64);
                    }
                    match mapper.map(base + i as u64, frame) {
                        Err(_) => {
                            // Page `base + i` was already mapped: put the
                            // frame back and undo the pages mapped so far.
                            proof {
                                assert(m0.dom().contains(page_at(base, i as int)));
                            }
                            frames.free_frame(frame);
                            proof {
                                assert(frames@ =~= f0.take(n - i));
                            }
                            let ghost m_mid = mapper@;
                            Self::unmap_range(base, i, mapper, frames);
                            proof {
                                lemma_rollback_restores(m0, f0, m_mid, mapper@, frames@, base, n, i);
                            }
                            return Err(AllocationError::MappingConflict);
                        }
                        Ok(()) => {
                            i = i + 1;
                            proof {
                                assert(frames@ =~= f0.take(n - i));
                            }
                        }
                    }
                }
            }
        }
        proof {
            assert forall|p: u64| page_in_range(base, page_count, p)
                implies mapper@.dom().contains(p) by {
                assert(page_at(base, p - base) == p);
            }
            assert(mapper@.dom() =~= m0.dom().union(
                Set::new(|p: u64| page_in_range(base, page_count, p))));
        }
        self.next_page = base + page_count as u64;
        let region = StackRegion { base_page: base, page_count };
        Ok(region)
    }

    /// Unmaps the whole region of a stack whose thread has exited and
    /// returns its frames to the pool, highest page first. Must be called
    /// exactly once per region — single ownership by one thread control
    /// block enforces this.
    pub fn release(region: StackRegion, mapper: &mut PageMapper, frames: &mut FrameAllocator)
        requires
            region.wf(),
            forall|j: int| 0 <= j < region.page_count
                ==> old(mapper)@.dom().contains(#[trigger] page_at(region.base_page, j)),
        ensures
            final(mapper)@ =~= old(mapper)@.remove_keys(
                Set::new(|p: u64| page_in_range(region.base_page, region.page_count, p))),
            final(frames)@ == old(frames)@
                + frames_of_range(old(mapper)@, region.base_page, region.page_count),
    {
        Self::unmap_range(region.base_page, region.page_count, mapper, frames);
    }

    /// Unmaps pages `base..base + count`, pushing each page's frame back to
    /// the pool from the highest page down.
    #[verifier::loop_isolation(false)]
    fn unmap_range(base: u64, count: u32, mapper: &mut PageMapper, frames: &mut FrameAllocator)
        requires
            base + count <= VIRT_PAGE_LIMIT,
            forall|j: int| 0 <= j < count
                ==> old(mapper)@.dom().contains(#[trigger] page_at(base, j)),
        ensures
            final(mapper)@ =~= old(mapper)@.remove_keys(
                Set::new(|p: u64| page_in_range(base, count, p))),
            final(frames)@ == old(frames)@ + frames_of_range(old(mapper)@, base, count),
    {
        let ghost m0 = old(mapper)@;
        let ghost f0 = old(frames)@;
        let mut i: u32 = count;
        while i > 0
            invariant
                0 <= i <= count,
                forall|j: int| 0 <= j < i ==> mapper@.dom().contains(#[trigger] page_at(base, j))
                    && mapper@[page_at(base, j)] == m0[page_at(base, j)],
                forall|j: int| i <= j < count ==> !mapper@.dom().contains(#[trigger] page_at(base, j)),
                forall|p: u64| !page_in_range(base, count, p)
                    ==> mapper@.dom().contains(p) == m0.dom().contains(p),
                forall|p: u64| !page_in_range(base, count, p) && m0.dom().contains(p)
                    ==> mapper@[p] == m0[p],
                frames@ =~= f0 + frames_of_range(m0, base, count).take(count - i),
            decreases i,
        {
            i = i - 1;
            proof {
                assert(page_at(base, i as int) == base + i as u64);
                assert(mapper@.dom().contains(page_at(base, i as int)));
                assert(frames_of_range(m0, base, count)[count - 1 - i]
                    == m0[page_at(base, i as int)]);
            }
            match mapper.unmap(base + i as u64) {
                Ok(frame) => {
                    frames.free_frame(frame);
                    proof {
                        assert(frames@ =~= f0 + frames_of_range(m0, base, count).take(count - i));
                    }
                }
                Err(_) => {
                    // Unreachable: every page of the range ahead of the
                    // cursor is still mapped.
                    proof {
                        assert(false);
                    }
                }
            }
        }
        proof {
            assert forall|p: u64| page_in_range(base, count, p)
                implies !mapper@.dom().contains(p) by {
                assert(page_at(base, p - base) == p);
            }
            assert(mapper@ =~= m0.remove_keys(Set::new(|p: u64| page_in_range(base, count, p))));
            assert(frames@ == f0 + frames_of_range(m0, base, count)) by {
                assert(frames_of_range(m0, base, count).take(count as int)
                    =~= frames_of_range(m0, base, count));
            }
        }
    }
}

/// Law: a thread's full stack lifecycle leaves no trace on the memory
/// capabilities. If allocating a region out of mapping state `m0` and frame
/// pool `f0` produced `(m1, f1)` — the region's pages mapped to the frames
/// taken off the pool's tail — and releasing that same region from `(m1,
/// f1)` produced `(m2, f2)`, then the pages unmapped at release equal in
/// count and address range the pages mapped at allocation, and mapping and
/// pool are restored to the letter: no leak, and no frame freed twice.
pub proof fn lemma_stack_lifecycle_restores_memory(
    m0: Map<u64, u64>,
    f0: Seq<u64>,
    m1: Map<u64, u64>,
    f1: Seq<u64>,
    m2: Map<u64, u64>,
    f2: Seq<u64>,
    region: StackRegion,
)
    requires
        region.wf(),
        alloc_fits(m0, f0, region.base_page, region.page_count),
        // what allocation ensures on success:
        m1.dom() =~= m0.dom().union(
            Set::new(|p: u64| page_in_range(region.base_page, region.page_count, p))),
        forall|j: int| 0 <= j < region.page_count
            ==> m1[#[trigger] page_at(region.base_page, j)] == f0[f0.len() - 1 - j],
        forall|p: u64| !page_in_range(region.base_page, region.page_count, p)
            && m0.dom().contains(p) ==> m1[p] == m0[p],
        f1 == f0.take(f0.len() - region.page_count),
        // what release ensures:
        m2 =~= m1.remove_keys(
            Set::new(|p: u64| page_in_range(region.base_page, region.page_count, p))),
        f2 == f1 + frames_of_range(m1, region.base_page, region.page_count),
    ensures
        m2 == m0,
        f2 == f0,
        f2.len() == f0.len(),
{
    let base = region.base_page;
    let count = region.page_count;
    assert forall|j: int| 0 <= j < count
        implies m1.dom().contains(#[trigger] page_at(base, j)) by {
        assert(page_in_range(base, count, page_at(base, j)));
    }
    assert forall|p: u64| !page_in_range(base, count, p)
        implies m1.dom().contains(p) == m0.dom().contains(p) by {
        assert(m1.dom().contains(p) == m0.dom().union(
            Set::new(|q: u64| page_in_range(base, count, q))).contains(p));
    }
    lemma_rollback_restores(m0, f0, m1, m2, f2, base, f0.len() as int, count);
}

/// After `i` pages starting at `base` were mapped to the last `i` frames of
/// pool `f0` (state `m_mid`), unmapping that range restores the mapper to
/// `m0` and the pool to `f0` exactly.
proof fn lemma_rollback_restores(
    m0: Map<u64, u64>,
    f0: Seq<u64>,
    m_mid: Map<u64, u64>,
    m_end: Map<u64, u64>,
    f_end: Seq<u64>,
    base: u64,
    n: int,
    i: u32,
)
    requires
        n == f0.len(),
        i <= n,
        base + i <= VIRT_PAGE_LIMIT,
        forall|j: int| 0 <= j < i ==> !m0.dom().contains(#[trigger] page_at(base, j)),
        forall|j: int| 0 <= j < i ==> m_mid.dom().contains(#[trigger] page_at(base, j))
            && m_mid[page_at(base, j)] == f0[n - 1 - j],
        forall|p: u64| !page_in_range(base, i, p)
            ==> m_mid.dom().contains(p) == m0.dom().contains(p),
        forall|p: u64| !page_in_range(base, i, p) && m0.dom().contains(p)
            ==> m_mid[p] == m0[p],
        m_end =~= m_mid.remove_keys(Set::new(|p: u64| page_in_range(base, i, p))),
        f_end == f0.take(n - i) + frames_of_range(m_mid, base, i),
    ensures
        m_end == m0,
        f_end == f0,
{
    assert forall|p: u64| page_in_range(base, i, p)
        implies !m_end.dom().contains(p) && !m0.dom().contains(p) by {
        assert(page_at(base, p - base) == p);
    }
    assert(m_end =~= m0);
    assert(f_end =~= f0) by {
        assert forall|k: int| 0 <= k < f0.len() implies f_end[k] == f0[k] by {
            if k >= n - i {
                let j = k - (n - i);
                let t = i - 1 - j;
                assert(m_mid.dom().contains(page_at(base, t)));
                assert(m_mid[page_at(base, t)] == f0[n - 1 - t]);
                assert(frames_of_range(m_mid, base, i)[j] == m_mid[(base + i - 1 - j) as u64]);
                assert((base + i - 1 - j) as u64 == page_at(base, t));
            }
        }
    }
}

} // verus!
