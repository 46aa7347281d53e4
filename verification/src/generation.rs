//! Generating the inputs of a fixture.
//!
//! The maker turns raw integers into prototypes and prototypes into the entities of the core
//! engine, and back. It owns the memory that synthesized views alias, one memory per precision,
//! and is the one that reclaims it.
use crate::implementation::engines::CoreEngine;
use crate::markers::{IntegerPrecision, Precision32, Precision64};
use crate::memory::{BufferMut, Memory};
use vstd::prelude::*;

pub mod prototypes;
pub mod prototyping;
pub mod synthesizing;

verus! {

/// The object that makes prototypes and entities for the fixtures.
pub struct Maker<B> {
    core_engine: CoreEngine<B>,
    memory_32: Memory<u32>,
    memory_64: Memory<u64>,
}

impl<B> Maker<B> {
    /// The core engine the maker synthesizes entities with.
    pub closed spec fn spec_core_engine(&self) -> CoreEngine<B> {
        self.core_engine
    }

    /// The memory that 32-bit views alias.
    pub closed spec fn spec_memory_32(&self) -> Memory<u32> {
        self.memory_32
    }

    /// The memory that 64-bit views alias.
    pub closed spec fn spec_memory_64(&self) -> Memory<u64> {
        self.memory_64
    }

    /// A maker around `core_engine`, with no region in either memory.
    pub fn new(core_engine: CoreEngine<B>) -> (maker: Self)
        ensures
            maker.spec_core_engine() == core_engine,
            maker.spec_memory_32()@ == Map::<usize, Seq<u32>>::empty(),
            maker.spec_memory_64()@ == Map::<usize, Seq<u64>>::empty(),
    {
        Maker { core_engine, memory_32: Memory::new(), memory_64: Memory::new() }
    }

    /// The core engine, to call. The memories are out of its reach.
    pub(crate) fn core_engine_mut(&mut self) -> (core_engine: &mut CoreEngine<B>)
        ensures
            *core_engine == old(self).spec_core_engine(),
            final(self).spec_core_engine() == *final(core_engine),
            final(self).spec_memory_32() == old(self).spec_memory_32(),
            final(self).spec_memory_64() == old(self).spec_memory_64(),
    {
        &mut self.core_engine
    }

    /// The 32-bit memory, to change. The engine and the 64-bit memory are out of reach.
    pub(crate) fn memory_32_mut(&mut self) -> (memory: &mut Memory<u32>)
        ensures
            *memory == old(self).spec_memory_32(),
            final(self).spec_memory_32() == *final(memory),
            final(self).spec_memory_64() == old(self).spec_memory_64(),
            final(self).spec_core_engine() == old(self).spec_core_engine(),
    {
        &mut self.memory_32
    }

    /// The 64-bit memory, to change. The engine and the 32-bit memory are out of reach.
    pub(crate) fn memory_64_mut(&mut self) -> (memory: &mut Memory<u64>)
        ensures
            *memory == old(self).spec_memory_64(),
            final(self).spec_memory_64() == *final(memory),
            final(self).spec_memory_32() == old(self).spec_memory_32(),
            final(self).spec_core_engine() == old(self).spec_core_engine(),
    {
        &mut self.memory_64
    }

    /// The 32-bit memory, to read.
    pub fn memory_32(&self) -> (memory: &Memory<u32>)
        ensures
            *memory == self.spec_memory_32(),
    {
        &self.memory_32
    }

    /// The 64-bit memory, to read.
    pub fn memory_64(&self) -> (memory: &Memory<u64>)
        ensures
            *memory == self.spec_memory_64(),
    {
        &self.memory_64
    }
}

/// Makers that own the memory that the views of one precision alias.
pub trait OwnsMemory<Precision: IntegerPrecision>: Sized {
    /// What the maker holds besides the memory of this precision.
    type Rest;

    /// The memory that the views of this precision alias.
    spec fn spec_memory(&self) -> Memory<Precision::Raw>;

    /// What the maker holds besides the memory of this precision. No operation on this memory
    /// touches it.
    spec fn spec_rest(&self) -> Self::Rest;

    /// The memory, to read.
    fn memory(&self) -> (memory: &Memory<Precision::Raw>)
        ensures
            *memory == self.spec_memory(),
    ;

    /// Hands `buffer` over to the memory without copying it, and returns the exclusive handle
    /// to the fresh region it now lives in. Every other region is left as it was, and so is
    /// the rest of the maker.
    fn leak(&mut self, buffer: Vec<Precision::Raw>) -> (handle: BufferMut<Precision::Raw>)
        ensures
            handle.spec_region() == old(self).spec_memory().allocated(),
            handle.spec_len() == buffer@.len(),
            !old(self).spec_memory().is_live(handle.spec_region()),
            final(self).spec_memory()@ == old(self).spec_memory()@.insert(
                handle.spec_region(),
                buffer@,
            ),
            final(self).spec_memory().allocated() == old(self).spec_memory().allocated() + 1,
            final(self).spec_rest() == old(self).spec_rest(),
    ;

    /// Takes the buffer of a live region back out of the memory without copying it. The
    /// region is freed, and every other region is left as it was, and so is the rest of the
    /// maker.
    fn reclaim(&mut self, region: usize) -> (buffer: Vec<Precision::Raw>)
        requires
            old(self).spec_memory().is_live(region),
        ensures
            buffer@ == old(self).spec_memory()@[region],
            final(self).spec_memory()@ == old(self).spec_memory()@.remove(region),
            final(self).spec_memory().allocated() == old(self).spec_memory().allocated(),
            final(self).spec_rest() == old(self).spec_rest(),
    ;
}

impl<B> OwnsMemory<Precision32> for Maker<B> {
    type Rest = (CoreEngine<B>, Memory<u64>);

    open spec fn spec_memory(&self) -> Memory<u32> {
        self.spec_memory_32()
    }

    open spec fn spec_rest(&self) -> (CoreEngine<B>, Memory<u64>) {
        (self.spec_core_engine(), self.spec_memory_64())
    }

    fn memory(&self) -> (memory: &Memory<u32>) {
        self.memory_32()
    }

    fn leak(&mut self, buffer: Vec<u32>) -> (handle: BufferMut<u32>) {
        self.memory_32_mut().leak(buffer)
    }

    fn reclaim(&mut self, region: usize) -> (buffer: Vec<u32>) {
        self.memory_32_mut().reclaim(region)
    }
}

impl<B> OwnsMemory<Precision64> for Maker<B> {
    type Rest = (CoreEngine<B>, Memory<u32>);

    open spec fn spec_memory(&self) -> Memory<u64> {
        self.spec_memory_64()
    }

    open spec fn spec_rest(&self) -> (CoreEngine<B>, Memory<u32>) {
        (self.spec_core_engine(), self.spec_memory_32())
    }

    fn memory(&self) -> (memory: &Memory<u64>) {
        self.memory_64()
    }

    fn leak(&mut self, buffer: Vec<u64>) -> (handle: BufferMut<u64>) {
        self.memory_64_mut().leak(buffer)
    }

    fn reclaim(&mut self, region: usize) -> (buffer: Vec<u64>) {
        self.memory_64_mut().reclaim(region)
    }
}

} // verus!
