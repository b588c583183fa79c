//! Heap buffers and the byte-level helpers the strategies share.

use vstd::prelude::*;

verus! {

/// The nonzero byte written to force pages to be committed.
pub const SENTINEL: u8 = 42;

/// `n` copies of the byte `b`.
pub open spec fn repeated(b: u8, n: nat) -> Seq<u8> {
    Seq::new(n, |_i: int| b)
}

/// Allocates `size` bytes on the heap, all zero.
pub fn heap_zero(size: usize) -> (r: Vec<u8>)
    ensures
        r@ == repeated(0, size as nat),
{
    let r = vec![0u8; size];
    assert(r@ =~= repeated(0, size as nat));
    r
}

/// Allocates `size` bytes on the heap, each holding the sentinel, so that no
/// page can be backed by a shared zero page.
pub fn heap_non_zero(size: usize) -> (r: Vec<u8>)
    ensures
        r@ == repeated(SENTINEL, size as nat),
{
    let r = vec![SENTINEL; size];
    assert(r@ =~= repeated(SENTINEL, size as nat));
    r
}

/// Allocates `size` heap bytes whose contents are left uninitialized.
pub fn heap_uninit(size: usize) -> (r: Vec<std::mem::MaybeUninit<u8>>)
    ensures
        r@.len() == size,
{
    vec![std::mem::MaybeUninit::<u8>::uninit(); size]
}

/// Writes `v` into every byte of `buf`.
pub fn fill_bytes(buf: &mut [u8], v: u8)
    ensures
        final(buf)@ == repeated(v, old(buf)@.len()),
{
    let n = buf.len();
    let mut i: usize = 0;
    while i < n
        invariant
            i <= n,
            n == buf@.len(),
            n == old(buf)@.len(),
            forall|j: int| 0 <= j < i ==> #[trigger] buf@[j] == v,
        decreases n - i,
    {
        buf[i] = v;
        i = i + 1;
    }
    assert(buf@ =~= repeated(v, n as nat));
}

/// The sum of the bytes of `s`, as an unbounded integer.
pub open spec fn byte_sum(s: Seq<u8>) -> int
    decreases s.len(),
{
    if s.len() == 0 {
        0
    } else {
        byte_sum(s.drop_last()) + s.last()
    }
}

/// The sum of the bytes of `buf`, wrapping at 256. Reading every byte keeps a
/// buffer from being optimised away.
pub fn checksum(buf: &[u8]) -> (r: u8)
    ensures
        r == byte_sum(buf@) % 256,
{
    let n = buf.len();
    let mut acc: u8 = 0;
    let mut i: usize = 0;
    while i < n
        invariant
            i <= n,
            n == buf@.len(),
            acc == byte_sum(buf@.take(i as int)) % 256,
        decreases n - i,
    {
        assert(buf@.take(i + 1).drop_last() == buf@.take(i as int));
        acc = acc.wrapping_add(buf[i]);
        i = i + 1;
    }
    assert(buf@.take(n as int) == buf@);
    acc
}

/// The sum of a sequence of lengths.
pub open spec fn total(s: Seq<usize>) -> int
    decreases s.len(),
{
    if s.len() == 0 {
        0
    } else {
        total(s.drop_last()) + s.last()
    }
}

/// The lengths of the writes that fill a file of `size` bytes from a buffer of
/// `stride` bytes: full strides, then the remainder if there is one.
pub open spec fn is_write_plan(plan: Seq<usize>, size: nat, stride: nat) -> bool {
    &&& total(plan) == size
    &&& forall|i: int| 0 <= i < plan.len() ==> 0 < #[trigger] plan[i] <= stride
    &&& forall|i: int| 0 <= i < plan.len() - 1 ==> #[trigger] plan[i] == stride
}

/// Splits `size` bytes into writes of at most `stride` bytes each.
pub fn write_plan(size: usize, stride: usize) -> (r: Vec<usize>)
    requires
        stride > 0,
    ensures
        is_write_plan(r@, size as nat, stride as nat),
{
    let mut plan: Vec<usize> = Vec::new();
    let mut left: usize = size;
    while left > 0
        invariant
            stride > 0,
            left <= size,
            total(plan@) + left == size,
            forall|i: int| 0 <= i < plan@.len() ==> 0 < #[trigger] plan@[i] <= stride,
            forall|i: int| 0 <= i < plan@.len() - 1 ==> #[trigger] plan@[i] == stride,
            left > 0 && plan@.len() > 0 ==> plan@.last() == stride,
        decreases left,
    {
        let step = if left < stride { left } else { stride };
        let ghost before = plan@;
        plan.push(step);
        assert(plan@.drop_last() == before);
        left = left - step;
    }
    plan
}

} // verus!
