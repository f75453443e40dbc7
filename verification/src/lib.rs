//! Safe, leak-free, panic-free ownership primitives over a foreign,
//! memory-constrained heap whose allocator may refuse any request, plus a
//! callback-bridging lifecycle engine for the foreign runtime's modal UI
//! objects.
//!
//! The foreign firmware is modeled by [`system::System`]: every operation that
//! on the device would call into it takes the model by `&mut` and states its
//! exact effect on the model's event trace, so allocation balance and call
//! ordering are part of each contract. The core pieces are:
//!
//! - [`Box`], an exclusive owner of one value in a slot of the foreign heap,
//!   with a fallible constructor that returns the value unchanged when the
//!   allocator refuses;
//! - [`Handle`], a non-owning wrapper that never releases the slot it refers
//!   to;
//! - [`standard_c::CStr`], a zero-terminated string tagged with its storage
//!   provenance;
//! - [`user_interface::window::Window`] and
//!   [`user_interface::window::number_window::NumberWindow`], whose
//!   construction rolls back cleanly on any failure and whose destruction
//!   always tells the runtime to destroy the foreign object before the
//!   context record's slot is handed back.

use vstd::prelude::*;

pub mod graphics;
pub mod standard_c;
pub mod system;
pub mod user_interface;

verus! {

use crate::standard_c::memory;
use crate::standard_c::{CStr, Heap};
use vstd::string::StringSliceAdditionalSpecFns;
use crate::system::{
    System, SysEvent, alloc_delta, box_alloc_fails, box_alloc_ok, box_free_ok, can_alloc,
    count_matching, free_delta, fuel_spent, lemma_count_matching_concat,
    lemma_count_matching_single, needs_alloc, net_allocations, same_ui,
};

/// Exclusive owner of one value held in a slot of the foreign heap.
///
/// Unlike an ordinary owning pointer its constructor is fallible instead of
/// panicking: the allocator may refuse, and then the caller gets the value
/// back unchanged. Destruction is explicit — [`memory::drop_free`] or
/// [`Box::into_inner`] — and hands the slot back exactly once. Zero-sized
/// values never occupy a slot, so storing one cannot fail and releases
/// nothing.
pub struct Box<T> {
    /// The owned value. In the model the slot's contents live right here; the
    /// owning slot itself exists only as the `Alloc` the constructor recorded.
    pub value: T,
}

impl<T> Box<T> {
    /// Moves `value` onto the foreign heap.
    ///
    /// Returns `Err` with the value unchanged — and the firmware untouched —
    /// exactly when the allocator refuses the request.
    pub fn new(sys: &mut System, value: T) -> (r: Result<Box<T>, T>)
        ensures
            match r {
                Ok(b) => {
                    &&& !box_alloc_fails::<T>(*old(sys))
                    &&& b.value == value
                    &&& box_alloc_ok::<T>(*old(sys), *final(sys))
                },
                Err(v) => {
                    &&& box_alloc_fails::<T>(*old(sys))
                    &&& v == value
                    &&& *final(sys) == *old(sys)
                },
            },
    {
        if core::mem::size_of::<T>() == 0 {
            proof {
                assert(sys.events@ + alloc_delta::<T>() =~= sys.events@);
            }
            Ok(Box { value })
        } else if sys.try_consume_alloc() {
            Ok(Box { value })
        } else {
            Err(value)
        }
    }

    /// Moves the value back off the foreign heap, handing the slot back.
    ///
    /// The value is read out before the slot is released; this never fails.
    pub fn into_inner(sys: &mut System, b: Box<T>) -> (r: T)
        ensures
            r == b.value,
            box_free_ok::<T>(*old(sys), *final(sys)),
    {
        let Box { value } = b;
        if core::mem::size_of::<T>() != 0 {
            sys.record_free();
        } else {
            proof {
                assert(sys.events@ + free_delta::<T>() =~= sys.events@);
            }
        }
        value
    }

    /// Hands the value out without releasing its slot: no `Free` is recorded,
    /// so the allocation stays live. Reassemble ownership later with
    /// [`Box::from_raw`], exactly once, or the slot is leaked for good.
    pub fn leak(b: Box<T>) -> (r: T)
        ensures
            r == b.value,
    {
        let Box { value } = b;
        value
    }

    /// Reassembles a [`Box`] around a value previously taken by [`Box::leak`].
    ///
    /// Valid only for such a value, and only once per leak: the box made here
    /// will hand back the slot that the leaked box left live.
    pub fn from_raw(value: T) -> (r: Box<T>)
        ensures
            r.value == value,
    {
        Box { value }
    }

    /// Reads the owned value.
    pub fn borrow(&self) -> (r: &T)
        ensures
            *r == self.value,
    {
        &self.value
    }
}

impl Box<CStr<Heap>> {
    /// Clones a plain string onto the foreign heap, appending the terminating
    /// zero byte in the process. This is the one string constructor that
    /// allocates; all others reinterpret storage that already exists.
    ///
    /// Returns `Err` — with the firmware untouched — exactly when the
    /// allocator refuses the request.
    pub fn clone_to_c_str(sys: &mut System, value: &str) -> (r: Result<Box<CStr<Heap>>, ()>)
        requires
            value.spec_bytes().len() < usize::MAX,
        ensures
            match r {
                Ok(b) => {
                    &&& can_alloc(*old(sys))
                    &&& b.value@ == value.spec_bytes().push(0u8)
                    &&& b.value.wf()
                    &&& final(sys).events@ == old(sys).events@ + seq![SysEvent::Alloc]
                    &&& fuel_spent(*old(sys), *final(sys), 1)
                    &&& same_ui(*old(sys), *final(sys))
                },
                Err(()) => {
                    &&& !can_alloc(*old(sys))
                    &&& *final(sys) == *old(sys)
                },
            },
    {
        let bytes = value.as_bytes();
        let len = bytes.len();
        match memory::calloc(sys, len + 1) {
            Ok(buffer) => {
                let memory::HeapBuffer { mut items, cap } = buffer;
                let mut i: usize = 0;
                while i < len
                    invariant
                        i <= len,
                        items@.len() == len + 1,
                        bytes@.len() == len,
                        forall|j: int| 0 <= j < i ==> items@[j] == bytes@[j],
                        forall|j: int| i <= j < len + 1 ==> items@[j] == 0u8,
                    decreases len - i,
                {
                    let b = bytes[i];
                    items[i] = b;
                    i = i + 1;
                }
                proof {
                    assert(items@ =~= bytes@.push(0u8));
                }
                let c_str = CStr::<Heap>::from_zero_terminated_unchecked(items);
                Ok(Box::from_raw(c_str))
            },
            Err(()) => Err(()),
        }
    }
}

/// Non-owning wrapper around an exclusively held value.
///
/// A `Handle` never runs a destructor and never hands a slot back to the
/// allocator: it only carries the referent between the point where exclusive
/// access was given up and the point where [`Handle::unwrap`] recovers it.
pub struct Handle<T> {
    /// The wrapped referent.
    pub value: T,
}

impl<T> Handle<T> {
    /// Wraps an exclusively held referent.
    pub fn new(exclusive_handle: T) -> (r: Handle<T>)
        ensures
            r.value == exclusive_handle,
    {
        Handle { value: exclusive_handle }
    }

    /// Recovers the exclusive referent, ending the wrapper's existence.
    pub fn unwrap(self) -> (r: T)
        ensures
            r == self.value,
    {
        let Handle { value } = self;
        value
    }

    /// Reads the referent.
    pub fn borrow(&self) -> (r: &T)
        ensures
            *r == self.value,
    {
        &self.value
    }
}

/// Moving a value onto the foreign heap and straight back off it reproduces
/// the value — that is stated by [`Box::new`] and [`Box::into_inner`]
/// themselves — and performs exactly one allocation and one free, leaving the
/// number of live slots unchanged. For a zero-sized value neither call touches
/// the allocator at all.
pub proof fn lemma_allocate_free_balance<T>(s0: System, s1: System, s2: System)
    requires
        box_alloc_ok::<T>(s0, s1),
        box_free_ok::<T>(s1, s2),
    ensures
        s2.events@ == s0.events@ + alloc_delta::<T>() + free_delta::<T>(),
        needs_alloc::<T>() ==> count_matching(s2.events@, SysEvent::Alloc) == count_matching(
            s0.events@,
            SysEvent::Alloc,
        ) + 1,
        needs_alloc::<T>() ==> count_matching(s2.events@, SysEvent::Free) == count_matching(
            s0.events@,
            SysEvent::Free,
        ) + 1,
        !needs_alloc::<T>() ==> s2.events@ == s0.events@,
        net_allocations(s2.events@) == net_allocations(s0.events@),
{
    lemma_count_matching_concat(s0.events@, alloc_delta::<T>(), SysEvent::Alloc);
    lemma_count_matching_concat(s0.events@, alloc_delta::<T>(), SysEvent::Free);
    lemma_count_matching_concat(s1.events@, free_delta::<T>(), SysEvent::Alloc);
    lemma_count_matching_concat(s1.events@, free_delta::<T>(), SysEvent::Free);
    if needs_alloc::<T>() {
        lemma_count_matching_single(SysEvent::Alloc, SysEvent::Alloc);
        lemma_count_matching_single(SysEvent::Alloc, SysEvent::Free);
        lemma_count_matching_single(SysEvent::Free, SysEvent::Alloc);
        lemma_count_matching_single(SysEvent::Free, SysEvent::Free);
    } else {
        assert(s1.events@ =~= s0.events@ + alloc_delta::<T>());
        assert(s2.events@ =~= s0.events@);
    }
    assert(s2.events@ =~= s0.events@ + alloc_delta::<T>() + free_delta::<T>());
}

} // verus!
