//! Caller-owned memory.
//!
//! A view never owns the buffer it aliases. The buffers live in a [`Memory`], which the caller
//! owns, and a view holds a handle: the region the buffer lives in and its length. Leaking a
//! buffer hands it to the memory and yields a handle; reclaiming a region takes the buffer back
//! out, and is the only way a region is ever freed. Regions are never reused, so a handle to a
//! reclaimed region stays dangling for good.
use crate::specification::entities::Container;
use std::marker::PhantomData;
use vstd::prelude::*;

verus! {

/// A shared handle to a buffer of scalars of type `T` in caller memory. It may be copied: any
/// number of views may read the same region.
#[derive(Debug)]
pub struct BufferRef<T> {
    region: usize,
    length: usize,
    scalar: PhantomData<T>,
}

impl<T> Clone for BufferRef<T> {
    /// Another handle to the same region, of the same length.
    fn clone(&self) -> (alias: Self)
        ensures
            alias == *self,
    {
        BufferRef { region: self.region, length: self.length, scalar: PhantomData }
    }
}

impl<T> Copy for BufferRef<T> {

}

/// An exclusive handle to a buffer of scalars of type `T` in caller memory. It cannot be
/// copied: whoever holds it is the only accessor of the region.
#[derive(Debug)]
pub struct BufferMut<T> {
    region: usize,
    length: usize,
    scalar: PhantomData<T>,
}

impl<T> BufferRef<T> {
    /// The region this handle points to.
    pub closed spec fn spec_region(&self) -> usize {
        self.region
    }

    /// The number of scalars this handle spans.
    pub closed spec fn spec_len(&self) -> usize {
        self.length
    }

    /// The region this handle points to.
    pub fn region(&self) -> (region: usize)
        ensures
            region == self.spec_region(),
    {
        self.region
    }

    /// The number of scalars this handle spans.
    pub fn len(&self) -> (length: usize)
        ensures
            length == self.spec_len(),
    {
        self.length
    }
}

impl<T> BufferMut<T> {
    /// The region this handle points to.
    pub closed spec fn spec_region(&self) -> usize {
        self.region
    }

    /// The number of scalars this handle spans.
    pub closed spec fn spec_len(&self) -> usize {
        self.length
    }

    /// The region this handle points to.
    pub fn region(&self) -> (region: usize)
        ensures
            region == self.spec_region(),
    {
        self.region
    }

    /// The number of scalars this handle spans.
    pub fn len(&self) -> (length: usize)
        ensures
            length == self.spec_len(),
    {
        self.length
    }

    /// Gives up exclusivity: the same region and length, as a shared handle.
    pub fn share(self) -> (shared: BufferRef<T>)
        ensures
            shared.spec_region() == self.spec_region(),
            shared.spec_len() == self.spec_len(),
    {
        BufferRef { region: self.region, length: self.length, scalar: PhantomData }
    }
}

impl<T> Container for BufferRef<T> {
    open spec fn spec_container_len(&self) -> nat {
        self.spec_len() as nat
    }
}

impl<T> Container for BufferMut<T> {
    open spec fn spec_container_len(&self) -> nat {
        self.spec_len() as nat
    }
}

/// The buffers that views alias, each in a region of its own.
pub struct Memory<T> {
    /// One slot per region ever handed out, in the order they were leaked: the buffer while
    /// the region is live, nothing once it has been reclaimed.
    slots: Vec<Option<Vec<T>>>,
}

impl<T> View for Memory<T> {
    type V = Map<usize, Seq<T>>;

    /// The live regions and what each holds.
    closed spec fn view(&self) -> Map<usize, Seq<T>> {
        Map::new(
            |region: usize| region < self.slots@.len() && self.slots@[region as int] is Some,
            |region: usize| self.slots@[region as int]->0@,
        )
    }
}

impl<T> Memory<T> {
    /// The number of regions handed out so far, live or reclaimed. The next leak gets this
    /// number as its region.
    pub closed spec fn allocated(&self) -> nat {
        self.slots@.len()
    }

    /// Whether `region` is live.
    pub open spec fn is_live(&self, region: usize) -> bool {
        self@.dom().contains(region)
    }

    /// Whether a shared handle points to a live region of the length it claims.
    pub open spec fn holds(&self, buffer: &BufferRef<T>) -> bool {
        &&& self.is_live(buffer.spec_region())
        &&& self@[buffer.spec_region()].len() == buffer.spec_len()
    }

    /// Whether an exclusive handle points to a live region of the length it claims.
    pub open spec fn holds_mut(&self, buffer: &BufferMut<T>) -> bool {
        &&& self.is_live(buffer.spec_region())
        &&& self@[buffer.spec_region()].len() == buffer.spec_len()
    }

    /// Live regions have been handed out: none lies at or past [`Self::allocated`].
    pub proof fn lemma_live_is_allocated(&self, region: usize)
        requires
            self.is_live(region),
        ensures
            region < self.allocated(),
    {
    }

    /// A freed region stays freed: a leak hands out the region that no buffer has lived in
    /// yet, so a region that was handed out before and is live no more is not live after it.
    pub proof fn lemma_leak_never_revives(
        before: Memory<T>,
        after: Memory<T>,
        buffer: Seq<T>,
        region: usize,
    )
        requires
            before.allocated() <= usize::MAX,
            after@ == before@.insert(before.allocated() as usize, buffer),
            region < before.allocated(),
            !before.is_live(region),
        ensures
            !after.is_live(region),
    {
    }

    /// A memory with no region.
    pub fn new() -> (memory: Memory<T>)
        ensures
            memory@ == Map::<usize, Seq<T>>::empty(),
            memory.allocated() == 0,
    {
        let memory = Memory { slots: Vec::new() };
        assert(memory@ =~= Map::<usize, Seq<T>>::empty());
        memory
    }

    /// Whether `region` is live.
    pub fn live(&self, region: usize) -> (live: bool)
        ensures
            live == self.is_live(region),
    {
        region < self.slots.len() && self.slots[region].is_some()
    }

    /// Hands `buffer` over to the memory without copying it, and returns the exclusive handle
    /// to the fresh region it now lives in. Every other region is left as it was.
    pub fn leak(&mut self, buffer: Vec<T>) -> (handle: BufferMut<T>)
        ensures
            handle.spec_region() == old(self).allocated(),
            handle.spec_len() == buffer@.len(),
            !old(self).is_live(handle.spec_region()),
            final(self)@ == old(self)@.insert(handle.spec_region(), buffer@),
            final(self).allocated() == old(self).allocated() + 1,
    {
        let region = self.slots.len();
        let length = buffer.len();
        self.slots.push(Some(buffer));
        assert(self@ =~= old(self)@.insert(region, buffer@));
        BufferMut { region, length, scalar: PhantomData }
    }

    /// Takes the buffer of a live region back out of the memory without copying it. The
    /// region is freed: it is live no more, and every other region is left as it was.
    pub fn reclaim(&mut self, region: usize) -> (buffer: Vec<T>)
        requires
            old(self).is_live(region),
        ensures
            buffer@ == old(self)@[region],
            final(self)@ == old(self)@.remove(region),
            final(self).allocated() == old(self).allocated(),
    {
        self.slots.push(None);
        let slot = self.slots.swap_remove(region);
        assert(self@ =~= old(self)@.remove(region));
        slot.unwrap()
    }

    /// Reads the buffer of a live region.
    pub fn read(&self, region: usize) -> (buffer: &Vec<T>)
        requires
            self.is_live(region),
        ensures
            buffer@ == self@[region],
    {
        self.slots[region].as_ref().unwrap()
    }
}

} // verus!
