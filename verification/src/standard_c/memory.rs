//! Buffer-level operations on the foreign heap: zeroed allocation, the
//! shrink-then-reallocate resize protocol, releasing slots, and the raw
//! byte-range primitives.

use vstd::prelude::*;

verus! {

use crate::Box;
use crate::system::{
    System, SysEvent, alloc_delta, box_alloc_fails, box_alloc_ok, box_free_ok, can_alloc,
    count_matching, free_delta, fuel_spent, lemma_count_matching_concat,
    lemma_count_matching_repeat, lemma_count_matching_single, same_allocator, same_ui,
};
use core::cmp::Ordering;

/// A buffer of consecutive elements held in one slot of the foreign heap.
///
/// `cap` is the number of element places the slot was last sized for; the
/// first `items.len()` of them hold live elements. A buffer that has just
/// been grown keeps its old elements and gains uninitialized places, so
/// `items` can be shorter than `cap`.
pub struct HeapBuffer<T> {
    /// The live elements, in order.
    pub items: Vec<T>,
    /// How many element places the slot currently has.
    pub cap: usize,
}

impl<T> HeapBuffer<T> {
    /// Every live element has a place in the slot.
    pub open spec fn wf(self) -> bool {
        self.items@.len() <= self.cap
    }
}

/// The result of a successful [`resize_realloc`] call.
pub enum ReallocOk<T> {
    /// The buffer now holds exactly the requested number of elements.
    ShrunkenOrEqual(HeapBuffer<T>),
    /// The slot grew; the places past the old elements are uninitialized.
    Grown(HeapBuffer<T>),
}

/// The result of a failed [`resize_realloc`] call.
pub enum ReallocError<T> {
    /// The slot kept its size and every element survived.
    CouldNotGrowOrMove(HeapBuffer<T>),
    /// The slot kept its size, but the elements beyond the requested length
    /// were already destroyed before the reallocation was refused.
    CouldNotShrink(HeapBuffer<T>),
}

/// Allocates one slot for `count` zeroed bytes.
///
/// Returns `Err` — with the firmware untouched — exactly when the allocator
/// refuses the request.
pub fn calloc(sys: &mut System, count: usize) -> (r: Result<HeapBuffer<u8>, ()>)
    ensures
        match r {
            Ok(b) => {
                &&& can_alloc(*old(sys))
                &&& b.items@ == Seq::new(count as nat, |i: int| 0u8)
                &&& b.cap == count
                &&& final(sys).events@ == old(sys).events@ + seq![SysEvent::Alloc]
                &&& fuel_spent(*old(sys), *final(sys), 1)
                &&& same_ui(*old(sys), *final(sys))
            },
            Err(()) => {
                &&& !can_alloc(*old(sys))
                &&& *final(sys) == *old(sys)
            },
        },
{
    if sys.try_consume_alloc() {
        let mut items: Vec<u8> = Vec::new();
        let mut i: usize = 0;
        while i < count
            invariant
                i <= count,
                items@ == Seq::new(i as nat, |j: int| 0u8),
            decreases count - i,
        {
            items.push(0u8);
            proof {
                assert(items@ =~= Seq::new(i as nat + 1, |j: int| 0u8));
            }
            i = i + 1;
        }
        Ok(HeapBuffer { items, cap: count })
    } else {
        Err(())
    }
}

/// Moves the elements of `items` into one freshly allocated slot.
///
/// Returns `Err` with the elements unchanged — and the firmware untouched —
/// exactly when the allocator refuses. A buffer of zero-sized elements takes
/// no slot and cannot fail.
pub fn buffer_from_vec<T>(sys: &mut System, items: Vec<T>) -> (r: Result<HeapBuffer<T>, Vec<T>>)
    ensures
        match r {
            Ok(b) => {
                &&& !box_alloc_fails::<T>(*old(sys))
                &&& b.items@ == items@
                &&& b.cap == items@.len()
                &&& box_alloc_ok::<T>(*old(sys), *final(sys))
            },
            Err(v) => {
                &&& box_alloc_fails::<T>(*old(sys))
                &&& v@ == items@
                &&& *final(sys) == *old(sys)
            },
        },
{
    if core::mem::size_of::<T>() == 0 {
        proof {
            assert(sys.events@ + alloc_delta::<T>() =~= sys.events@);
        }
        let cap = items.len();
        Ok(HeapBuffer { items, cap })
    } else if sys.try_consume_alloc() {
        let cap = items.len();
        Ok(HeapBuffer { items, cap })
    } else {
        Err(items)
    }
}

/// Resizes a buffer, possibly moving it in the process.
///
/// Shrinking first destroys every element beyond the requested length — each
/// exactly once, last first — and only then asks the allocator to resize the
/// slot. Growing asks first and, on success, returns the new places as
/// not yet initialized. If growing fails the original buffer comes back
/// unmodified; if shrinking fails the original slot comes back, but the
/// destroyed tail elements are gone for good and the surviving prefix is all
/// the caller may touch.
pub fn resize_realloc<T>(sys: &mut System, buffer: HeapBuffer<T>, new_len: usize) -> (r: Result<
    ReallocOk<T>,
    ReallocError<T>,
>)
    requires
        buffer.wf(),
        vstd::layout::size_of::<T>() * new_len <= usize::MAX,
    ensures
        ({
            let n = buffer.items@.len() as int;
            let dropped: int = if new_len < n {
                n - new_len
            } else {
                0
            };
            &&& final(sys).events@ == old(sys).events@ + Seq::new(
                dropped as nat,
                |i: int| SysEvent::ElemDropped,
            ) + seq![SysEvent::ReallocAttempt] + if can_alloc(*old(sys)) {
                seq![SysEvent::Alloc]
            } else {
                Seq::empty()
            }
            &&& fuel_spent(
                *old(sys),
                *final(sys),
                if can_alloc(*old(sys)) {
                    1int
                } else {
                    0int
                },
            )
            &&& same_ui(*old(sys), *final(sys))
            &&& match r {
                Ok(ReallocOk::ShrunkenOrEqual(b)) => {
                    &&& can_alloc(*old(sys))
                    &&& new_len <= n
                    &&& b.items@ == buffer.items@.take(new_len as int)
                    &&& b.cap == new_len
                },
                Ok(ReallocOk::Grown(b)) => {
                    &&& can_alloc(*old(sys))
                    &&& new_len > n
                    &&& b.items@ == buffer.items@
                    &&& b.cap == new_len
                },
                Err(ReallocError::CouldNotShrink(b)) => {
                    &&& !can_alloc(*old(sys))
                    &&& new_len < n
                    &&& b.items@ == buffer.items@.take(new_len as int)
                    &&& b.cap == buffer.cap
                },
                Err(ReallocError::CouldNotGrowOrMove(b)) => {
                    &&& !can_alloc(*old(sys))
                    &&& new_len >= n
                    &&& b.items@ == buffer.items@
                    &&& b.cap == buffer.cap
                },
            }
        }),
{
    let HeapBuffer { mut items, cap } = buffer;
    let old_len = items.len();
    if new_len < old_len {
        let mut k: usize = 0;
        let ghost drop_total: int = old_len - new_len;
        while k < old_len - new_len
            invariant
                0 <= k,
                k as int <= drop_total,
                drop_total == old_len - new_len,
                new_len < old_len,
                old_len == buffer.items@.len(),
                items@ == buffer.items@.take(old_len - k),
                sys.events@ == old(sys).events@ + Seq::new(
                    k as nat,
                    |i: int| SysEvent::ElemDropped,
                ),
                same_allocator(*old(sys), *sys),
                same_ui(*old(sys), *sys),
            decreases old_len - new_len - k,
        {
            proof {
                assert(items@.len() == old_len - k);
                assert(items@.drop_last() =~= buffer.items@.take(old_len - k - 1));
            }
            let _ = items.pop();
            sys.record(SysEvent::ElemDropped);
            proof {
                assert(sys.events@ =~= old(sys).events@ + Seq::new(
                    k as nat + 1,
                    |i: int| SysEvent::ElemDropped,
                ));
            }
            k = k + 1;
        }
        proof {
            assert(items@ =~= buffer.items@.take(new_len as int));
        }
    } else {
        proof {
            assert(sys.events@ =~= old(sys).events@ + Seq::new(0nat, |i: int| SysEvent::ElemDropped));
        }
    }
    sys.record(SysEvent::ReallocAttempt);
    if sys.try_consume_alloc() {
        if new_len <= old_len {
            Ok(ReallocOk::ShrunkenOrEqual(HeapBuffer { items, cap: new_len }))
        } else {
            Ok(ReallocOk::Grown(HeapBuffer { items, cap: new_len }))
        }
    } else {
        if new_len < old_len {
            Err(ReallocError::CouldNotShrink(HeapBuffer { items, cap }))
        } else {
            Err(ReallocError::CouldNotGrowOrMove(HeapBuffer { items, cap }))
        }
    }
}

/// Destroys the value inside a box and hands its slot back.
pub fn drop_free<T>(sys: &mut System, slot: Box<T>)
    ensures
        box_free_ok::<T>(*old(sys), *final(sys)),
{
    let _ = Box::into_inner(sys, slot);
}

/// Destroys a buffer's elements and hands its slot back. A buffer of
/// zero-sized elements had no slot, so nothing is handed back.
pub fn drop_free_buffer<T>(sys: &mut System, buffer: HeapBuffer<T>)
    ensures
        box_free_ok::<T>(*old(sys), *final(sys)),
{
    let _ = buffer;
    if core::mem::size_of::<T>() != 0 {
        sys.record_free();
    } else {
        proof {
            assert(sys.events@ + free_delta::<T>() =~= sys.events@);
        }
    }
}

/// Compares two byte ranges of the same length.
///
/// `Equal` exactly when the ranges hold the same bytes; otherwise the first
/// differing byte decides, and the result is `Greater` when that byte of
/// `slice1` is below the byte of `slice2`, `Less` the other way round — the
/// orientation the surrounding platform convention uses.
pub fn memcmp(slice1: &[u8], slice2: &[u8]) -> (r: Ordering)
    requires
        slice1@.len() == slice2@.len(),
    ensures
        r == Ordering::Equal <==> slice1@ == slice2@,
        r == Ordering::Greater <==> exists|i: int|
            0 <= i < slice1@.len() && slice1@[i] < slice2@[i] && (forall|j: int|
                0 <= j < i ==> slice1@[j] == slice2@[j]),
        r == Ordering::Less <==> exists|i: int|
            0 <= i < slice1@.len() && slice1@[i] > slice2@[i] && (forall|j: int|
                0 <= j < i ==> slice1@[j] == slice2@[j]),
{
    let len = slice1.len();
    let mut i: usize = 0;
    while i < len
        invariant
            i <= len,
            len == slice1@.len(),
            len == slice2@.len(),
            forall|j: int| 0 <= j < i ==> slice1@[j] == slice2@[j],
        decreases len - i,
    {
        let a = slice1[i];
        let b = slice2[i];
        if a < b {
            return Ordering::Greater;
        }
        if a > b {
            return Ordering::Less;
        }
        i = i + 1;
    }
    proof {
        assert(slice1@ =~= slice2@);
    }
    Ordering::Equal
}

/// Copies `src` over `dest`. Both ranges must have the same length.
pub fn memcpy<T: Copy>(dest: &mut Vec<T>, src: &Vec<T>)
    requires
        old(dest)@.len() == src@.len(),
    ensures
        final(dest)@ == src@,
{
    let len = src.len();
    let mut i: usize = 0;
    while i < len
        invariant
            i <= len,
            len == src@.len(),
            dest@.len() == len,
            forall|j: int| 0 <= j < i ==> dest@[j] == src@[j],
        decreases len - i,
    {
        let v = src[i];
        dest[i] = v;
        i = i + 1;
    }
    proof {
        assert(dest@ =~= src@);
    }
}

/// Sets every byte of `dest` to `c`.
pub fn memset(dest: &mut Vec<u8>, c: u8)
    ensures
        final(dest)@ == Seq::new(old(dest)@.len(), |i: int| c),
{
    let len = dest.len();
    let mut i: usize = 0;
    while i < len
        invariant
            i <= len,
            dest@.len() == len,
            len == old(dest)@.len(),
            forall|j: int| 0 <= j < i ==> dest@[j] == c,
        decreases len - i,
    {
        dest[i] = c;
        i = i + 1;
    }
    proof {
        assert(dest@ =~= Seq::new(old(dest)@.len(), |i: int| c));
    }
}

/// Shrinking a buffer of `n` elements to `m <= n` of them destroys exactly
/// `n - m` elements — each exactly once — and only then attempts the
/// reallocation: in the trace the destroyed elements all precede the attempt.
pub proof fn lemma_shrink_drop_count(s0: Seq<SysEvent>, n: int, m: int)
    requires
        0 <= m <= n,
    ensures
        count_matching(
            s0 + Seq::new((n - m) as nat, |i: int| SysEvent::ElemDropped) + seq![
                SysEvent::ReallocAttempt,
            ],
            SysEvent::ElemDropped,
        ) == count_matching(s0, SysEvent::ElemDropped) + (n - m),
{
    let dropped = Seq::new((n - m) as nat, |i: int| SysEvent::ElemDropped);
    lemma_count_matching_concat(s0, dropped, SysEvent::ElemDropped);
    lemma_count_matching_concat(s0 + dropped, seq![SysEvent::ReallocAttempt], SysEvent::ElemDropped);
    lemma_count_matching_repeat((n - m) as nat, SysEvent::ElemDropped, SysEvent::ReallocAttempt);
    lemma_count_matching_single(SysEvent::ReallocAttempt, SysEvent::ElemDropped);
}

} // verus!
