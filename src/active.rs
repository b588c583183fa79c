//! The active set: the live handles in order, addressed by 1-based index.
//! Removing index `k` shifts every higher index down by one.

use vstd::prelude::*;
use crate::handle::AllocationHandle;

verus! {

/// The 1-based index is not that of a live handle.
#[derive(Clone, Copy, Debug, PartialEq, Eq, Structural)]
pub enum ActiveSetError {
    IndexOutOfRange,
}

/// `s` without its element at the 1-based `index`, or `None` when no element
/// has that index.
pub open spec fn removed_at<T>(s: Seq<T>, index: int) -> Option<Seq<T>> {
    if 1 <= index <= s.len() {
        Some(s.remove(index - 1))
    } else {
        None
    }
}

/// One operation on an ordered set.
pub enum Edit<T> {
    Append(T),
    RemoveAt(usize),
}

/// The set after one operation; a refused removal changes nothing.
pub open spec fn apply_edit<T>(s: Seq<T>, e: Edit<T>) -> Seq<T> {
    match e {
        Edit::Append(x) => s.push(x),
        Edit::RemoveAt(i) => match removed_at(s, i as int) {
            Some(t) => t,
            None => s,
        },
    }
}

/// The set after the operations, in order.
pub open spec fn replay<T>(s: Seq<T>, ops: Seq<Edit<T>>) -> Seq<T>
    decreases ops.len(),
{
    if ops.len() == 0 {
        s
    } else {
        apply_edit(replay(s, ops.drop_last()), ops.last())
    }
}

/// The number of appends among the operations.
pub open spec fn appends<T>(ops: Seq<Edit<T>>) -> nat
    decreases ops.len(),
{
    if ops.len() == 0 {
        0
    } else {
        appends(ops.drop_last()) + if ops.last() is Append {
            1nat
        } else {
            0nat
        }
    }
}

/// The number of removals among the operations that found their index.
pub open spec fn accepted_removals<T>(s: Seq<T>, ops: Seq<Edit<T>>) -> nat
    decreases ops.len(),
{
    if ops.len() == 0 {
        0
    } else {
        accepted_removals(s, ops.drop_last()) + match ops.last() {
            Edit::RemoveAt(i) => if removed_at(replay(s, ops.drop_last()), i as int) is Some {
                1nat
            } else {
                0nat
            },
            Edit::Append(_) => 0nat,
        }
    }
}

/// Appending a handle and then removing it at the index the append returned
/// leaves the set exactly as it was.
pub proof fn lemma_append_then_remove<T>(s: Seq<T>, x: T)
    ensures
        removed_at(s.push(x), s.push(x).len() as int) == Some(s),
{
    assert(s.push(x).remove(s.len() as int) =~= s);
}

/// Over any sequence of appends and removals, the size of the set is its
/// starting size plus the appends minus the removals that were accepted.
pub proof fn lemma_size_accounting<T>(s: Seq<T>, ops: Seq<Edit<T>>)
    ensures
        replay(s, ops).len() + accepted_removals(s, ops) == s.len() + appends(ops),
    decreases ops.len(),
{
    if ops.len() > 0 {
        lemma_size_accounting(s, ops.drop_last());
    }
}

/// The live handles, each owned by the set alone.
pub struct ActiveSet<W> {
    items: Vec<AllocationHandle<W>>,
}

impl<W> View for ActiveSet<W> {
    type V = Seq<AllocationHandle<W>>;

    closed spec fn view(&self) -> Seq<AllocationHandle<W>> {
        self.items@
    }
}

impl<W> ActiveSet<W> {
    /// An empty set.
    pub fn new() -> (r: Self)
        ensures
            r@ == Seq::<AllocationHandle<W>>::empty(),
    {
        ActiveSet { items: Vec::new() }
    }

    /// The number of live handles.
    pub fn len(&self) -> (r: usize)
        ensures
            r == self@.len(),
    {
        self.items.len()
    }

    /// Whether no handle is live.
    pub fn is_empty(&self) -> (r: bool)
        ensures
            r == (self@.len() == 0),
    {
        self.items.len() == 0
    }

    /// Adds a handle at the end; returns its 1-based index, the new size.
    pub fn append(&mut self, h: AllocationHandle<W>) -> (r: usize)
        ensures
            final(self)@ == old(self)@.push(h),
            r == final(self)@.len(),
    {
        self.items.push(h);
        self.items.len()
    }

    /// Destroys the handle at the 1-based `index` and shifts the later ones
    /// down by one. It returns once the handle's resource is released.
    pub fn remove_at(&mut self, index: usize) -> (r: Result<(), ActiveSetError>)
        ensures
            r is Ok <==> 1 <= index <= old(self)@.len(),
            r is Ok ==> removed_at(old(self)@, index as int) == Some(final(self)@),
            r is Err ==> r == Err::<(), ActiveSetError>(ActiveSetError::IndexOutOfRange)
                && final(self)@ == old(self)@,
    {
        if index < 1 || index > self.items.len() {
            return Err(ActiveSetError::IndexOutOfRange);
        }
        let h = self.items.remove(index - 1);
        h.destroy();
        Ok(())
    }

    /// Each live handle's 1-based index and name, in order: the indices are
    /// exactly 1 to the size.
    pub fn list(&self) -> (r: Vec<(usize, &'static str)>)
        ensures
            r@.len() == self@.len(),
            forall|i: int|
                0 <= i < r@.len() ==> (#[trigger] r@[i]).0 == i + 1 && r@[i].1
                    == self@[i].spec_name(),
    {
        let mut out: Vec<(usize, &'static str)> = Vec::new();
        let n = self.items.len();
        let mut i: usize = 0;
        while i < n
            invariant
                i <= n,
                n == self@.len(),
                out@.len() == i,
                forall|j: int|
                    0 <= j < i ==> (#[trigger] out@[j]).0 == j + 1 && out@[j].1
                        == self@[j].spec_name(),
            decreases n - i,
        {
            out.push((i + 1, self.items[i].name()));
            i = i + 1;
        }
        out
    }

    /// The handle at the 1-based `index`.
    pub fn get(&self, index: usize) -> (r: Option<&AllocationHandle<W>>)
        ensures
            1 <= index <= self@.len() ==> r == Some(&self@[index - 1]),
            !(1 <= index <= self@.len()) ==> r is None,
    {
        if 1 <= index && index <= self.items.len() {
            Some(&self.items[index - 1])
        } else {
            None
        }
    }
}

} // verus!
