//! The catalog: an immutable, ordered table of allocation descriptors.

use vstd::prelude::*;

verus! {

/// One mebibyte.
pub const MIB: usize = 1048576;

/// How an allocation obtains and commits its memory.
#[derive(Clone, Copy, Debug, PartialEq, Eq, Structural)]
pub enum Strategy {
    /// Bytes on the stack of a dedicated worker thread, filled with the sentinel.
    StackResident,
    /// Heap bytes, all zero.
    HeapZeroed,
    /// Heap bytes, all the sentinel.
    HeapFilled,
    /// Heap bytes whose contents are left uninitialized.
    HeapUninitialized,
    /// A temporary file of that size, mapped and then removed from the directory.
    FileMapped,
    /// An anonymous mapping, left untouched.
    AnonMapped,
    /// An anonymous mapping, every byte written with the sentinel.
    AnonMappedTouched,
}

/// A catalog entry: what to show, how to allocate, and how many bytes.
#[derive(Clone, Copy, Debug, PartialEq, Eq)]
pub struct Descriptor {
    pub name: &'static str,
    pub strategy: Strategy,
    pub size: usize,
}

/// The catalog has no entry at that 1-based index.
#[derive(Clone, Copy, Debug, PartialEq, Eq, Structural)]
pub enum CatalogError {
    NotFound,
}

/// The ordered entries of a catalog.
pub struct Catalog {
    entries: Vec<Descriptor>,
}

impl View for Catalog {
    type V = Seq<Descriptor>;

    closed spec fn view(&self) -> Seq<Descriptor> {
        self.entries@
    }
}

fn entry(name: &'static str, strategy: Strategy, size: usize) -> (r: Descriptor)
    ensures
        r == (Descriptor { name, strategy, size }),
{
    Descriptor { name, strategy, size }
}

/// The strategy and size of each entry of the standard table, in order.
pub open spec fn standard_shape() -> Seq<(Strategy, int)> {
    seq![
        (Strategy::StackResident, MIB as int),
        (Strategy::HeapZeroed, MIB as int),
        (Strategy::HeapZeroed, 10 * MIB),
        (Strategy::HeapFilled, MIB as int),
        (Strategy::HeapFilled, 10 * MIB),
        (Strategy::HeapUninitialized, MIB as int),
        (Strategy::HeapUninitialized, 10 * MIB),
        (Strategy::FileMapped, MIB as int),
        (Strategy::FileMapped, 10 * MIB),
        (Strategy::AnonMapped, MIB as int),
        (Strategy::AnonMapped, 10 * MIB),
        (Strategy::AnonMappedTouched, MIB as int),
        (Strategy::AnonMappedTouched, 10 * MIB),
    ]
}

/// The table of strategies and sizes offered to the operator.
pub fn standard_table() -> (r: Vec<Descriptor>)
    ensures
        r@.len() == standard_shape().len(),
        forall|i: int|
            0 <= i < r@.len() ==> (#[trigger] r@[i]).strategy == standard_shape()[i].0
                && r@[i].size == standard_shape()[i].1,
{
    let mut t: Vec<Descriptor> = Vec::new();
    t.push(entry("Stack allocation 1M", Strategy::StackResident, MIB));
    t.push(entry("Heap zeroed 1M", Strategy::HeapZeroed, MIB));
    t.push(entry("Heap zeroed 10M", Strategy::HeapZeroed, 10 * MIB));
    t.push(entry("Heap non-zero 1M", Strategy::HeapFilled, MIB));
    t.push(entry("Heap non-zero 10M", Strategy::HeapFilled, 10 * MIB));
    t.push(entry("Heap uninitialized 1M", Strategy::HeapUninitialized, MIB));
    t.push(entry("Heap uninitialized 10M", Strategy::HeapUninitialized, 10 * MIB));
    t.push(entry("File mmap 1M", Strategy::FileMapped, MIB));
    t.push(entry("File mmap 10M", Strategy::FileMapped, 10 * MIB));
    t.push(entry("Anonymous mmap 1M", Strategy::AnonMapped, MIB));
    t.push(entry("Anonymous mmap 10M", Strategy::AnonMapped, 10 * MIB));
    t.push(entry("Anonymous mmap dirty 1M", Strategy::AnonMappedTouched, MIB));
    t.push(entry("Anonymous mmap dirty 10M", Strategy::AnonMappedTouched, 10 * MIB));
    t
}

impl Catalog {
    /// A catalog over the given table, in its order.
    pub fn new(table: Vec<Descriptor>) -> (r: Catalog)
        ensures
            r@ == table@,
    {
        Catalog { entries: table }
    }

    /// The catalog over the standard table.
    pub fn standard() -> (r: Catalog)
        ensures
            r@.len() == standard_shape().len(),
            forall|i: int|
                0 <= i < r@.len() ==> (#[trigger] r@[i]).strategy == standard_shape()[i].0
                    && r@[i].size == standard_shape()[i].1,
    {
        Catalog::new(standard_table())
    }

    /// The number of entries.
    pub fn len(&self) -> (r: usize)
        ensures
            r == self@.len(),
    {
        self.entries.len()
    }

    /// Each entry's 1-based index and display name, in order.
    pub fn list(&self) -> (r: Vec<(usize, &'static str)>)
        ensures
            r@.len() == self@.len(),
            forall|i: int|
                0 <= i < r@.len() ==> (#[trigger] r@[i]).0 == i + 1 && r@[i].1 == self@[i].name,
    {
        let mut out: Vec<(usize, &'static str)> = Vec::new();
        let n = self.entries.len();
        let mut i: usize = 0;
        while i < n
            invariant
                i <= n,
                n == self@.len(),
                out@.len() == i,
                forall|j: int| 0 <= j < i ==> (#[trigger] out@[j]).0 == j + 1 && out@[j].1 == self@[j].name,
            decreases n - i,
        {
            out.push((i + 1, self.entries[i].name));
            i = i + 1;
        }
        out
    }

    /// The entry at a 1-based index.
    pub fn get(&self, index: usize) -> (r: Result<Descriptor, CatalogError>)
        ensures
            1 <= index <= self@.len() ==> r == Ok::<Descriptor, CatalogError>(self@[index - 1]),
            !(1 <= index <= self@.len()) ==> r == Err::<Descriptor, CatalogError>(
                CatalogError::NotFound,
            ),
    {
        if 1 <= index && index <= self.entries.len() {
            Ok(self.entries[index - 1])
        } else {
            Err(CatalogError::NotFound)
        }
    }
}

} // verus!
