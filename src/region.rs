//! Memory-mapped regions: anonymous mappings made here, and file-backed
//! mappings whose length is checked before they are owned.

use vstd::prelude::*;
use crate::buffers::{repeated, SENTINEL};

verus! {

/// memmap::MmapMut, a writable mapping, carried as an opaque value.
#[verifier::external_type_specification]
#[verifier::external_body]
pub struct ExMmapMut(memmap::MmapMut);

/// memmap::Mmap, a read-only mapping, carried as an opaque value.
#[verifier::external_type_specification]
#[verifier::external_body]
pub struct ExMmap(memmap::Mmap);

/// The bytes that a writable mapping holds.
pub uninterp spec fn region_bytes(m: memmap::MmapMut) -> Seq<u8>;

/// The bytes that a read-only mapping holds.
pub uninterp spec fn mapped_file_bytes(m: memmap::Mmap) -> Seq<u8>;

/// Relies on memmap::MmapMut::map_anon: it refuses a zero length, and a
/// mapping it returns is exactly `length` bytes long. The OS error is dropped.
#[verifier::external_body]
fn map_anonymous(length: usize) -> (r: Option<memmap::MmapMut>)
    ensures
        length == 0 ==> r is None,
        r matches Some(m) ==> region_bytes(m).len() == length,
{
    memmap::MmapMut::map_anon(length).ok()
}

/// Relies on the slice that memmap::MmapMut dereferences to: its length.
#[verifier::external_body]
pub(crate) fn region_len(m: &memmap::MmapMut) -> (r: usize)
    ensures
        r == region_bytes(*m).len(),
{
    m.len()
}

/// Relies on the slice that memmap::MmapMut dereferences to: reads one byte.
#[verifier::external_body]
pub(crate) fn region_get(m: &memmap::MmapMut, i: usize) -> (r: u8)
    requires
        i < region_bytes(*m).len(),
    ensures
        r == region_bytes(*m)[i as int],
{
    m[i]
}

/// Relies on the mutable slice that memmap::MmapMut dereferences to: writes
/// one byte and leaves the others.
#[verifier::external_body]
fn region_set(m: &mut memmap::MmapMut, i: usize, v: u8)
    requires
        i < region_bytes(*old(m)).len(),
    ensures
        region_bytes(*final(m)) == region_bytes(*old(m)).update(i as int, v),
{
    m[i] = v;
}

/// Relies on the slice that memmap::Mmap dereferences to: its length.
#[verifier::external_body]
pub(crate) fn mapped_file_len(m: &memmap::Mmap) -> (r: usize)
    ensures
        r == mapped_file_bytes(*m).len(),
{
    m.len()
}

/// Relies on the slice that memmap::Mmap dereferences to: reads one byte.
#[verifier::external_body]
pub(crate) fn mapped_file_get(m: &memmap::Mmap, i: usize) -> (r: u8)
    requires
        i < mapped_file_bytes(*m).len(),
    ensures
        r == mapped_file_bytes(*m)[i as int],
{
    m[i]
}

/// Writes `v` into every byte of the mapping.
pub fn fill_region(m: &mut memmap::MmapMut, v: u8)
    ensures
        region_bytes(*final(m)) == repeated(v, region_bytes(*old(m)).len()),
{
    let n = region_len(m);
    let mut i: usize = 0;
    while i < n
        invariant
            i <= n,
            n == region_bytes(*m).len(),
            n == region_bytes(*old(m)).len(),
            forall|j: int| 0 <= j < i ==> #[trigger] region_bytes(*m)[j] == v,
        decreases n - i,
    {
        region_set(m, i, v);
        i = i + 1;
    }
    assert(region_bytes(*m) =~= repeated(v, n as nat));
}

/// Maps `size` bytes of anonymous memory and leaves them untouched, so that
/// they are reserved but not necessarily committed. `None` when the mapping
/// cannot be made, and always for a zero size.
pub fn mmap_anon(size: usize) -> (r: Option<memmap::MmapMut>)
    ensures
        size == 0 ==> r is None,
        r matches Some(m) ==> region_bytes(m).len() == size,
{
    map_anonymous(size)
}

/// Maps `size` bytes of anonymous memory and writes the sentinel into every
/// byte, so that all of it is committed.
pub fn mmap_anon_init(size: usize) -> (r: Option<memmap::MmapMut>)
    ensures
        size == 0 ==> r is None,
        r matches Some(m) ==> region_bytes(m) == repeated(SENTINEL, size as nat),
{
    match map_anonymous(size) {
        Some(mut m) => {
            fill_region(&mut m, SENTINEL);
            Some(m)
        },
        None => None,
    }
}

} // verus!
