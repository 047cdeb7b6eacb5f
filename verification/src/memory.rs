//! Models of the two memory capabilities this core consumes: the physical
//! frame allocator and the page mapper. Both are kept as plain values —
//! frame base addresses and virtual page numbers — so that stack allocation
//! and reclamation can be specified and proved exactly. The platform layer
//! mirrors every operation onto the real page tables.

use vstd::prelude::*;
use std::collections::HashMap;

verus! {

broadcast use vstd::std_specs::hash::group_hash_axioms;

/// Size in bytes of one page / one physical frame.
pub const PAGE_SIZE: u64 = 4096;

/// Failure of `PageMapper::map`.
#[derive(Debug, Clone, Copy, PartialEq, Eq, Structural)]
pub enum MapError {
    /// The virtual page is already mapped to some frame.
    AlreadyMapped,
}

/// Failure of `PageMapper::unmap`.
#[derive(Debug, Clone, Copy, PartialEq, Eq, Structural)]
pub enum UnmapError {
    /// The virtual page is not currently mapped.
    NotMapped,
}

/// The physical frame allocator capability: hands out 4 KiB frames by their
/// base address and takes them back when a stack is reclaimed.
///
/// The pool of free frames is a stack: `allocate_frame` pops its last
/// element, `free_frame` pushes one.
pub struct FrameAllocator {
    free: Vec<u64>,
}

impl View for FrameAllocator {
    type V = Seq<u64>;

    closed spec fn view(&self) -> Seq<u64> {
        self.free@
    }
}

impl FrameAllocator {
    /// An allocator with no free frames at all.
    pub fn new() -> (r: Self)
        ensures
            r@ =~= Seq::<u64>::empty(),
    {
        FrameAllocator { free: Vec::new() }
    }

    /// An allocator whose free pool is exactly `frames`.
    pub fn with_frames(frames: Vec<u64>) -> (r: Self)
        ensures
            r@ == frames@,
    {
        FrameAllocator { free: frames }
    }

    /// Takes one frame out of the free pool, if any is left.
    pub fn allocate_frame(&mut self) -> (r: Option<u64>)
        ensures
            old(self)@.len() == 0 ==> r is None && final(self)@ == old(self)@,
            old(self)@.len() > 0 ==> r == Some(old(self)@.last())
                && final(self)@ == old(self)@.drop_last(),
    {
        self.free.pop()
    }

    /// Returns one frame to the free pool.
    pub fn free_frame(&mut self, frame: u64)
        ensures
            final(self)@ == old(self)@.push(frame),
    {
        self.free.push(frame);
    }

    /// How many frames are currently free.
    pub fn free_count(&self) -> (n: usize)
        ensures
            n == self@.len(),
    {
        self.free.len()
    }
}

/// The page mapper capability: the kernel's view of which virtual pages are
/// mapped, as a table from virtual page number to the base address of the
/// physical frame backing it.
pub struct PageMapper {
    mappings: HashMap<u64, u64>,
}

impl View for PageMapper {
    type V = Map<u64, u64>;

    closed spec fn view(&self) -> Map<u64, u64> {
        self.mappings@
    }
}

impl PageMapper {
    /// A mapper with no pages mapped.
    pub fn new() -> (r: Self)
        ensures
            r@ =~= Map::<u64, u64>::empty(),
    {
        PageMapper { mappings: HashMap::new() }
    }

    /// Maps the virtual page `page` to the physical frame at `frame`.
    /// Fails, changing nothing, iff `page` is already mapped.
    pub fn map(&mut self, page: u64, frame: u64) -> (r: Result<(), MapError>)
        ensures
            old(self)@.dom().contains(page) ==> r == Err::<(), MapError>(MapError::AlreadyMapped)
                && final(self)@ == old(self)@,
            !old(self)@.dom().contains(page) ==> r == Ok::<(), MapError>(())
                && final(self)@ == old(self)@.insert(page, frame),
    {
        if self.mappings.contains_key(&page) {
            Err(MapError::AlreadyMapped)
        } else {
            self.mappings.insert(page, frame);
            Ok(())
        }
    }

    /// Unmaps the virtual page `page`, returning the frame that backed it.
    /// Fails, changing nothing, iff `page` is not mapped.
    pub fn unmap(&mut self, page: u64) -> (r: Result<u64, UnmapError>)
        ensures
            old(self)@.dom().contains(page) ==> r == Ok::<u64, UnmapError>(old(self)@[page])
                && final(self)@ == old(self)@.remove(page),
            !old(self)@.dom().contains(page) ==> r == Err::<u64, UnmapError>(UnmapError::NotMapped)
                && final(self)@ == old(self)@,
    {
        match self.mappings.remove(&page) {
            Some(frame) => Ok(frame),
            None => Err(UnmapError::NotMapped),
        }
    }

    /// Whether the virtual page `page` is currently mapped.
    pub fn is_mapped(&self, page: u64) -> (r: bool)
        ensures
            r == self@.dom().contains(page),
    {
        self.mappings.contains_key(&page)
    }

    /// The frame backing a mapped page.
    pub fn frame_of(&self, page: u64) -> (r: u64)
        requires
            self@.dom().contains(page),
        ensures
            r == self@[page],
    {
        *self.mappings.get(&page).unwrap()
    }
}

} // verus!
