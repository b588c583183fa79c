//! Allocation handles: each owns exactly one live resource, and releases it
//! when destroyed.

use vstd::prelude::*;
use crate::buffers::{heap_non_zero, heap_uninit, heap_zero, repeated, SENTINEL};
use crate::catalog::{Descriptor, Strategy};
use crate::region::{
    mapped_file_bytes, mapped_file_get, mapped_file_len, mmap_anon, mmap_anon_init, region_bytes,
    region_get, region_len,
};

verus! {

/// The one resource a handle owns. `W` is the token of a stack-resident
/// worker, whose thread the host runs and whose drop joins it.
pub enum Resource<W> {
    HeapBuffer(Vec<u8>),
    HeapReserved(Vec<std::mem::MaybeUninit<u8>>),
    MappedRegion(memmap::MmapMut),
    FileRegion(memmap::Mmap),
    StackResident(W),
}

/// Why no handle was produced.
#[derive(Clone, Copy, Debug, PartialEq, Eq, Structural)]
pub enum ConstructError {
    /// The underlying mapping, file or thread could not be made.
    ConstructionFailed,
    /// The strategy needs a resource that only the host can make: a file
    /// mapping or a worker thread.
    NeedsHost,
    /// The resource handed in does not belong to the descriptor's strategy.
    StrategyMismatch,
}

/// A live allocation: its display name, strategy, size, and resource.
pub struct AllocationHandle<W> {
    name: &'static str,
    strategy: Strategy,
    size: usize,
    resource: Resource<W>,
}

/// The strategies whose resource this library makes by itself.
pub open spec fn built_in_process(s: Strategy) -> bool {
    !(s is StackResident || s is FileMapped)
}

impl<W> AllocationHandle<W> {
    pub closed spec fn spec_name(&self) -> &'static str {
        self.name
    }

    pub closed spec fn spec_strategy(&self) -> Strategy {
        self.strategy
    }

    pub closed spec fn spec_size(&self) -> nat {
        self.size as nat
    }

    /// The bytes the resource holds, where they can be read: `None` for
    /// uninitialized heap bytes and for a worker's stack.
    pub closed spec fn contents(&self) -> Option<Seq<u8>> {
        match &self.resource {
            Resource::HeapBuffer(v) => Some(v@),
            Resource::MappedRegion(m) => Some(region_bytes(*m)),
            Resource::FileRegion(m) => Some(mapped_file_bytes(*m)),
            _ => None,
        }
    }

    /// The resource is the one the strategy calls for, and of the stated size.
    pub closed spec fn wf(&self) -> bool {
        match &self.resource {
            Resource::HeapBuffer(v) => (self.strategy is HeapZeroed || self.strategy is HeapFilled)
                && v@.len() == self.size,
            Resource::HeapReserved(v) => self.strategy is HeapUninitialized && v@.len()
                == self.size,
            Resource::MappedRegion(m) => (self.strategy is AnonMapped
                || self.strategy is AnonMappedTouched) && region_bytes(*m).len() == self.size,
            Resource::FileRegion(m) => self.strategy is FileMapped && mapped_file_bytes(*m).len()
                == self.size,
            Resource::StackResident(_) => self.strategy is StackResident,
        }
    }

    /// The handle records the descriptor's name, strategy and size.
    pub open spec fn describes(&self, d: Descriptor) -> bool {
        &&& self.spec_name() == d.name
        &&& self.spec_strategy() == d.strategy
        &&& self.spec_size() == d.size
    }

    /// Makes the allocation that the descriptor names, for the strategies
    /// whose resource needs no host. Heap allocations always succeed; a
    /// mapping may fail, and always does for a zero size.
    pub fn construct(d: Descriptor) -> (r: Result<Self, ConstructError>)
        ensures
            !built_in_process(d.strategy) <==> r == Err::<Self, ConstructError>(
                ConstructError::NeedsHost,
            ),
            (d.strategy is HeapZeroed || d.strategy is HeapFilled || d.strategy
                is HeapUninitialized) ==> r is Ok,
            (d.strategy is AnonMapped || d.strategy is AnonMappedTouched) ==> (r is Ok
                || r == Err::<Self, ConstructError>(ConstructError::ConstructionFailed)),
            (d.strategy is AnonMapped || d.strategy is AnonMappedTouched) && d.size == 0 ==> r
                == Err::<Self, ConstructError>(ConstructError::ConstructionFailed),
            r matches Ok(h) ==> {
                &&& h.wf()
                &&& h.describes(d)
                &&& d.strategy is HeapZeroed ==> h.contents() == Some(repeated(0, d.size as nat))
                &&& (d.strategy is HeapFilled || d.strategy is AnonMappedTouched) ==> h.contents()
                    == Some(repeated(SENTINEL, d.size as nat))
            },
    {
        let resource = match d.strategy {
            Strategy::HeapZeroed => Resource::HeapBuffer(heap_zero(d.size)),
            Strategy::HeapFilled => Resource::HeapBuffer(heap_non_zero(d.size)),
            Strategy::HeapUninitialized => Resource::HeapReserved(heap_uninit(d.size)),
            Strategy::AnonMapped => match mmap_anon(d.size) {
                Some(m) => Resource::MappedRegion(m),
                None => {
                    return Err(ConstructError::ConstructionFailed);
                },
            },
            Strategy::AnonMappedTouched => match mmap_anon_init(d.size) {
                Some(m) => Resource::MappedRegion(m),
                None => {
                    return Err(ConstructError::ConstructionFailed);
                },
            },
            _ => {
                return Err(ConstructError::NeedsHost);
            },
        };
        Ok(AllocationHandle { name: d.name, strategy: d.strategy, size: d.size, resource })
    }

    /// Takes ownership of a file mapping made by the host for a file-mapped
    /// descriptor. The mapping must be exactly the descriptor's size.
    pub fn from_file_mapping(d: Descriptor, m: memmap::Mmap) -> (r: Result<Self, ConstructError>)
        ensures
            !(d.strategy is FileMapped) ==> r == Err::<Self, ConstructError>(
                ConstructError::StrategyMismatch,
            ),
            d.strategy is FileMapped && mapped_file_bytes(m).len() != d.size ==> r == Err::<
                Self,
                ConstructError,
            >(ConstructError::ConstructionFailed),
            d.strategy is FileMapped && mapped_file_bytes(m).len() == d.size ==> (r matches Ok(
                h,
            ) && h.wf() && h.describes(d) && h.contents() == Some(mapped_file_bytes(m))),
    {
        if d.strategy != Strategy::FileMapped {
            return Err(ConstructError::StrategyMismatch);
        }
        if mapped_file_len(&m) != d.size {
            return Err(ConstructError::ConstructionFailed);
        }
        Ok(
            AllocationHandle {
                name: d.name,
                strategy: d.strategy,
                size: d.size,
                resource: Resource::FileRegion(m),
            },
        )
    }

    /// Takes ownership of the token of a worker that the host started for a
    /// stack-resident descriptor.
    pub fn from_worker(d: Descriptor, worker: W) -> (r: Result<Self, ConstructError>)
        ensures
            !(d.strategy is StackResident) ==> r == Err::<Self, ConstructError>(
                ConstructError::StrategyMismatch,
            ),
            d.strategy is StackResident ==> (r matches Ok(h) && h.wf() && h.describes(d)
                && h.contents() is None),
    {
        if d.strategy != Strategy::StackResident {
            return Err(ConstructError::StrategyMismatch);
        }
        Ok(
            AllocationHandle {
                name: d.name,
                strategy: d.strategy,
                size: d.size,
                resource: Resource::StackResident(worker),
            },
        )
    }

    /// The name shown for this allocation.
    pub fn name(&self) -> (r: &'static str)
        ensures
            r == self.spec_name(),
    {
        self.name
    }

    /// The strategy that made this allocation.
    pub fn strategy(&self) -> (r: Strategy)
        ensures
            r == self.spec_strategy(),
    {
        self.strategy
    }

    /// The size of this allocation in bytes.
    pub fn size(&self) -> (r: usize)
        ensures
            r == self.spec_size(),
    {
        self.size
    }

    /// Reads back the byte at `i`, where the contents can be read.
    pub fn byte_at(&self, i: usize) -> (r: Option<u8>)
        ensures
            r == (match self.contents() {
                Some(c) => if i < c.len() {
                    Some(c[i as int])
                } else {
                    None
                },
                None => None,
            }),
    {
        match &self.resource {
            Resource::HeapBuffer(v) => if i < v.len() {
                Some(v[i])
            } else {
                None
            },
            Resource::MappedRegion(m) => if i < region_len(m) {
                Some(region_get(m, i))
            } else {
                None
            },
            Resource::FileRegion(m) => if i < mapped_file_len(m) {
                Some(mapped_file_get(m, i))
            } else {
                None
            },
            _ => None,
        }
    }

    /// Releases the resource: heap bytes are freed, a mapping is unmapped, and
    /// a worker's token is dropped, which returns only once its thread has
    /// been joined.
    pub fn destroy(self) {
        let AllocationHandle { resource, .. } = self;
        match resource {
            Resource::HeapBuffer(_bytes) => {},
            Resource::HeapReserved(_bytes) => {},
            Resource::MappedRegion(_region) => {},
            Resource::FileRegion(_region) => {},
            Resource::StackResident(_worker) => {},
        }
    }
}

} // verus!
