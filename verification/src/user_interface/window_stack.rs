//! The window navigation stack the foreign runtime keeps: which windows are
//! on screen, bottom first. The library only ever hands it non-owning window
//! references.

use vstd::prelude::*;

verus! {

use crate::system::{System, same_allocator};
use crate::user_interface::window::WindowRef;

/// `s` with every occurrence of `id` taken out, order kept.
pub open spec fn without_id(s: Seq<u64>, id: u64) -> Seq<u64>
    decreases s.len(),
{
    if s.len() == 0 {
        Seq::empty()
    } else if s.last() == id {
        without_id(s.drop_last(), id)
    } else {
        without_id(s.drop_last(), id).push(s.last())
    }
}

/// Pushes a window onto the stack as the topmost window, moving it up if it
/// was already somewhere in the stack.
///
/// `animated` asks for a sliding animation; the model does not render.
pub fn push(sys: &mut System, window: WindowRef, animated: bool)
    ensures
        final(sys).window_stack@ == without_id(old(sys).window_stack@, window.id).push(window.id),
        final(sys).events@ == old(sys).events@,
        same_allocator(*old(sys), *final(sys)),
        final(sys).window_creation_enabled == old(sys).window_creation_enabled,
        final(sys).next_window_id == old(sys).next_window_id,
{
    let mut kept = remove_from_stack(sys, window.id);
    kept.push(window.id);
    sys.window_stack = kept;
}

/// Pops the topmost window off the stack; says whether there was one.
pub fn pop(sys: &mut System, animated: bool) -> (r: bool)
    ensures
        r == (old(sys).window_stack@.len() > 0),
        final(sys).window_stack@ == if old(sys).window_stack@.len() > 0 {
            old(sys).window_stack@.drop_last()
        } else {
            old(sys).window_stack@
        },
        final(sys).events@ == old(sys).events@,
        same_allocator(*old(sys), *final(sys)),
        final(sys).window_creation_enabled == old(sys).window_creation_enabled,
        final(sys).next_window_id == old(sys).next_window_id,
{
    let popped = sys.window_stack.pop();
    popped.is_some()
}

/// Pops every window off the stack.
pub fn pop_all(sys: &mut System, animated: bool)
    ensures
        final(sys).window_stack@ == Seq::<u64>::empty(),
        final(sys).events@ == old(sys).events@,
        same_allocator(*old(sys), *final(sys)),
        final(sys).window_creation_enabled == old(sys).window_creation_enabled,
        final(sys).next_window_id == old(sys).next_window_id,
{
    sys.window_stack.clear();
}

/// Removes a window from the stack, wherever it is; says whether it was
/// there.
pub fn remove(sys: &mut System, window: WindowRef, animated: bool) -> (r: bool)
    ensures
        r == old(sys).window_stack@.contains(window.id),
        final(sys).window_stack@ == without_id(old(sys).window_stack@, window.id),
        final(sys).events@ == old(sys).events@,
        same_allocator(*old(sys), *final(sys)),
        final(sys).window_creation_enabled == old(sys).window_creation_enabled,
        final(sys).next_window_id == old(sys).next_window_id,
{
    let found = contains_window(sys, window);
    let kept = remove_from_stack(sys, window.id);
    sys.window_stack = kept;
    found
}

/// Whether the stack holds no window at all.
pub fn is_empty(sys: &System) -> (r: bool)
    ensures
        r == (sys.window_stack@.len() == 0),
{
    sys.window_stack.len() == 0
}

/// Whether the given window is somewhere in the stack.
pub fn contains_window(sys: &System, window: WindowRef) -> (r: bool)
    ensures
        r == sys.window_stack@.contains(window.id),
{
    let len = sys.window_stack.len();
    let mut i: usize = 0;
    while i < len
        invariant
            i <= len,
            len == sys.window_stack@.len(),
            forall|j: int| 0 <= j < i ==> sys.window_stack@[j] != window.id,
        decreases len - i,
    {
        if sys.window_stack[i] == window.id {
            return true;
        }
        i = i + 1;
    }
    false
}

/// Builds the stack contents with every occurrence of `id` taken out; the
/// stack itself is untouched.
fn remove_from_stack(sys: &System, id: u64) -> (kept: Vec<u64>)
    ensures
        kept@ == without_id(sys.window_stack@, id),
{
    let len = sys.window_stack.len();
    let mut kept: Vec<u64> = Vec::new();
    let mut i: usize = 0;
    while i < len
        invariant
            i <= len,
            len == sys.window_stack@.len(),
            kept@ == without_id(sys.window_stack@.take(i as int), id),
        decreases len - i,
    {
        let x = sys.window_stack[i];
        proof {
            assert(sys.window_stack@.take(i as int + 1).drop_last() =~= sys.window_stack@.take(
                i as int,
            ));
            assert(sys.window_stack@.take(i as int + 1).last() == sys.window_stack@[i as int]);
        }
        if x != id {
            kept.push(x);
        }
        i = i + 1;
    }
    proof {
        assert(sys.window_stack@.take(len as int) =~= sys.window_stack@);
    }
    kept
}

} // verus!
