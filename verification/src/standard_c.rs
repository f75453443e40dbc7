//! Zero-terminated strings tagged with their storage provenance, and the
//! buffer-level heap operations in [`memory`].

use vstd::prelude::*;

pub mod memory;

verus! {

use core::marker::PhantomData;
use vstd::slice::slice_to_vec;
use vstd::string::StringSliceAdditionalSpecFns;

/// A zero-terminated byte string, statically tagged with the storage that
/// owns its bytes. The final byte is always `0` and is excluded from the
/// logical string the accessors expose.
pub struct CStr<S: Storage> {
    /// The bytes, terminating zero included.
    pub bytes: Vec<u8>,
    /// Carries the storage tag; no bytes of its own.
    pub marker: PhantomData<S>,
}

/// Storage tag: bytes that live in a slot of the foreign heap.
pub struct Heap;

/// Storage tag: bytes that live in the current call's frame.
pub struct Stack;

/// Storage tag: bytes that live for the whole program.
pub struct Static;

/// Supertrait that keeps [`Storage`] to the three tags above; nothing else is
/// meant to implement it.
pub trait Sealed {

}

/// The storage provenance of a string's bytes.
pub trait Storage: Sealed {

}

/// Storage that outlives the current call, so a string tagged with it may be
/// retained by the callee.
pub trait NotStack: Storage {

}

impl Sealed for Heap {

}

impl Sealed for Stack {

}

impl Sealed for Static {

}

impl Storage for Heap {

}

impl Storage for Stack {

}

impl Storage for Static {

}

impl NotStack for Heap {

}

impl NotStack for Static {

}

impl<S: Storage> View for CStr<S> {
    type V = Seq<u8>;

    open spec fn view(&self) -> Seq<u8> {
        self.bytes@
    }
}

/// Whether a byte sequence is a well-formed zero-terminated string.
pub open spec fn zero_terminated(bytes: Seq<u8>) -> bool {
    bytes.len() >= 1 && bytes.last() == 0u8
}

impl<S: Storage> CStr<S> {
    /// The final byte exists and is the terminating zero.
    pub open spec fn wf(self) -> bool {
        zero_terminated(self@)
    }

    /// The logical string: everything before the terminating zero.
    pub open spec fn spec_plain(self) -> Seq<u8> {
        self@.take(self@.len() - 1)
    }

    /// Wraps bytes that the caller has already shown to be zero-terminated;
    /// no check is made here, the caller's proof stands in for it.
    pub fn from_zero_terminated_unchecked(bytes: Vec<u8>) -> (r: CStr<S>)
        requires
            zero_terminated(bytes@),
        ensures
            r@ == bytes@,
            r.wf(),
    {
        CStr { bytes, marker: PhantomData }
    }

    /// The raw zero-terminated bytes, as the foreign runtime reads them.
    pub fn as_c_str(&self) -> (r: &Vec<u8>)
        ensures
            r@ == self@,
    {
        &self.bytes
    }

    /// The logical length: the terminating zero does not count.
    pub fn len(&self) -> (r: usize)
        requires
            self.wf(),
        ensures
            r as int == self@.len() - 1,
            r as int == self.spec_plain().len(),
    {
        self.bytes.len() - 1
    }

    /// Copies the logical string out, without the terminating zero.
    pub fn as_plain_bytes(&self) -> (r: Vec<u8>)
        requires
            self.wf(),
        ensures
            r@ == self.spec_plain(),
    {
        let end = self.bytes.len() - 1;
        let prefix = vstd::slice::slice_subrange(self.bytes.as_slice(), 0, end);
        slice_to_vec(prefix)
    }
}

impl CStr<Stack> {
    /// Accepts a string as a stack-stored C string exactly when its final
    /// byte is already the terminating zero; a zero is never appended.
    pub fn try_from_stack(str: &str) -> (r: Result<CStr<Stack>, ()>)
        ensures
            match r {
                Ok(c) => {
                    &&& zero_terminated(str.spec_bytes())
                    &&& c@ == str.spec_bytes()
                    &&& c.wf()
                },
                Err(()) => !zero_terminated(str.spec_bytes()),
            },
    {
        try_from_bytes(str)
    }
}

impl CStr<Static> {
    /// Accepts a string as a statically stored C string exactly when its
    /// final byte is already the terminating zero; a zero is never appended.
    pub fn try_from_static(str: &'static str) -> (r: Result<CStr<Static>, ()>)
        ensures
            match r {
                Ok(c) => {
                    &&& zero_terminated(str.spec_bytes())
                    &&& c@ == str.spec_bytes()
                    &&& c.wf()
                },
                Err(()) => !zero_terminated(str.spec_bytes()),
            },
    {
        try_from_bytes(str)
    }

    /// Wraps a statically stored string that the caller has already shown to
    /// be zero-terminated.
    pub fn from_static_zero_terminated_unchecked(str: &'static str) -> (r: CStr<Static>)
        requires
            zero_terminated(str.spec_bytes()),
        ensures
            r@ == str.spec_bytes(),
            r.wf(),
    {
        let bytes = str.as_bytes();
        CStr { bytes: slice_to_vec(bytes), marker: PhantomData }
    }
}

impl CStr<Heap> {
    /// Reinterprets a heap-boxed plain string as a heap C string — the same
    /// slot, no allocation — exactly when its final byte is already the
    /// terminating zero. Otherwise the box comes back unchanged.
    pub fn try_from_plain(b: crate::Box<Vec<u8>>) -> (r: Result<
        crate::Box<CStr<Heap>>,
        crate::Box<Vec<u8>>,
    >)
        ensures
            match r {
                Ok(c) => {
                    &&& zero_terminated(b.value@)
                    &&& c.value@ == b.value@
                    &&& c.value.wf()
                },
                Err(e) => {
                    &&& !zero_terminated(b.value@)
                    &&& e == b
                },
            },
    {
        let len = b.value.len();
        if len >= 1 && b.value[len - 1] == 0u8 {
            let bytes = crate::Box::leak(b);
            Ok(crate::Box::from_raw(CStr { bytes, marker: PhantomData }))
        } else {
            Err(b)
        }
    }

    /// Reinterprets a heap C string as the plain bytes it occupies — the same
    /// slot, terminating zero included, no allocation.
    pub fn into_plain(b: crate::Box<CStr<Heap>>) -> (r: crate::Box<Vec<u8>>)
        ensures
            r.value@ == b.value@,
    {
        let c = crate::Box::leak(b);
        let CStr { bytes, marker: _ } = c;
        crate::Box::from_raw(bytes)
    }
}

/// Shared body of the fallible constructors: accepts exactly the strings
/// whose final byte is the terminating zero.
fn try_from_bytes<S: Storage>(str: &str) -> (r: Result<CStr<S>, ()>)
    ensures
        match r {
            Ok(c) => {
                &&& zero_terminated(str.spec_bytes())
                &&& c@ == str.spec_bytes()
                &&& c.wf()
            },
            Err(()) => !zero_terminated(str.spec_bytes()),
        },
{
    let bytes = str.as_bytes();
    let len = bytes.len();
    if len >= 1 && bytes[len - 1] == 0u8 {
        Ok(CStr { bytes: slice_to_vec(bytes), marker: PhantomData })
    } else {
        Err(())
    }
}

/// A well-formed C string's logical view is exactly one byte — the
/// terminating zero — shorter than its raw bytes.
pub proof fn lemma_cstr_plain_length<S: Storage>(c: CStr<S>)
    requires
        c.wf(),
    ensures
        c.spec_plain().len() == c@.len() - 1,
{
}

} // verus!
