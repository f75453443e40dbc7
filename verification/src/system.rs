//! A model of the foreign firmware that the library runs against: the fallible
//! heap allocator, the window runtime, and the window navigation stack.
//!
//! On the device every one of these operations is a synchronous call into the
//! firmware. Here the firmware is an explicit [`System`] value that each such
//! operation takes by `&mut`: it decides whether an allocation is granted,
//! hands out window identities, and records every observable call in an event
//! trace. Contracts over that trace are how the library states — and callers
//! check — allocation balance and call ordering.

use vstd::prelude::*;

verus! {

/// One observable call into the foreign firmware.
#[derive(Clone, Copy, Debug, PartialEq, Eq, Structural)]
pub enum SysEvent {
    /// The allocator handed out one heap slot.
    Alloc,
    /// One heap slot was handed back to the allocator.
    Free,
    /// One buffer element was destroyed ahead of a reallocation.
    ElemDropped,
    /// The allocator was asked to resize a buffer.
    ReallocAttempt,
    /// The runtime created the window with this identity.
    WindowCreated(u64),
    /// The runtime was told to destroy the window with this identity.
    WindowDestroyed(u64),
    /// The runtime created the number window with this identity.
    NumberWindowCreated(u64),
    /// The runtime was told to destroy the number window with this identity.
    NumberWindowDestroyed(u64),
}

/// The foreign firmware's state, as far as this library can observe it.
///
/// The allocator may refuse any request: when `alloc_limited` is set, only
/// `alloc_fuel` further requests are granted. A fresh [`System::new`] never
/// refuses; [`System::with_alloc_fuel`] refuses after a chosen number of
/// grants, which is how callers exercise every failure path.
pub struct System {
    /// Trace of every observable call, oldest first.
    pub events: Vec<SysEvent>,
    /// Whether the allocator runs out of memory after finitely many grants.
    pub alloc_limited: bool,
    /// Remaining grants while `alloc_limited` holds; ignored otherwise.
    pub alloc_fuel: u32,
    /// Whether the runtime is willing to create further windows.
    pub window_creation_enabled: bool,
    /// Identity the runtime will give to the next window it creates.
    pub next_window_id: u64,
    /// Identities of the windows on the navigation stack, bottom first.
    pub window_stack: Vec<u64>,
}

/// Whether the allocator would grant one more request.
pub open spec fn can_alloc(s: System) -> bool {
    !s.alloc_limited || s.alloc_fuel > 0
}

/// Whether the allocator would still grant a request after `k` earlier grants.
pub open spec fn can_alloc_after(s: System, k: int) -> bool {
    !s.alloc_limited || s.alloc_fuel - k > 0
}

/// Whether storing a `T` takes a real heap slot. Zero-sized values are never
/// allocated or freed.
pub open spec fn needs_alloc<T>() -> bool {
    vstd::layout::size_of::<T>() != 0
}

/// The trace a successful allocation for a `T` leaves behind.
pub open spec fn alloc_delta<T>() -> Seq<SysEvent> {
    if needs_alloc::<T>() {
        seq![SysEvent::Alloc]
    } else {
        Seq::empty()
    }
}

/// The trace freeing a `T`'s slot leaves behind.
pub open spec fn free_delta<T>() -> Seq<SysEvent> {
    if needs_alloc::<T>() {
        seq![SysEvent::Free]
    } else {
        Seq::empty()
    }
}

/// How many allocator grants storing a `T` consumes.
pub open spec fn alloc_cost<T>() -> int {
    if needs_alloc::<T>() {
        1
    } else {
        0
    }
}

/// The allocator book-keeping of `b` follows `a` after `k` grants.
pub open spec fn fuel_spent(a: System, b: System, k: int) -> bool {
    &&& b.alloc_limited == a.alloc_limited
    &&& if a.alloc_limited {
        b.alloc_fuel as int == a.alloc_fuel as int - k
    } else {
        b.alloc_fuel == a.alloc_fuel
    }
}

/// The window-side state of `b` is that of `a`, untouched.
pub open spec fn same_ui(a: System, b: System) -> bool {
    &&& b.window_creation_enabled == a.window_creation_enabled
    &&& b.next_window_id == a.next_window_id
    &&& b.window_stack@ == a.window_stack@
}

/// The allocator-side state of `b` is that of `a`, untouched.
pub open spec fn same_allocator(a: System, b: System) -> bool {
    &&& b.alloc_limited == a.alloc_limited
    &&& b.alloc_fuel == a.alloc_fuel
}

/// An allocation for a `T` would be refused.
pub open spec fn box_alloc_fails<T>(s: System) -> bool {
    needs_alloc::<T>() && !can_alloc(s)
}

/// `b` is `a` after one granted allocation for a `T`.
pub open spec fn box_alloc_ok<T>(a: System, b: System) -> bool {
    &&& b.events@ == a.events@ + alloc_delta::<T>()
    &&& fuel_spent(a, b, alloc_cost::<T>())
    &&& same_ui(a, b)
}

/// `b` is `a` after a `T`'s slot was handed back.
pub open spec fn box_free_ok<T>(a: System, b: System) -> bool {
    &&& b.events@ == a.events@ + free_delta::<T>()
    &&& same_allocator(a, b)
    &&& same_ui(a, b)
}

/// Whether the runtime would create one more window.
pub open spec fn window_create_ok(s: System) -> bool {
    s.window_creation_enabled && s.next_window_id < u64::MAX
}

/// How often `e` occurs in `s`.
pub open spec fn count_matching(s: Seq<SysEvent>, e: SysEvent) -> int
    decreases s.len(),
{
    if s.len() == 0 {
        0
    } else {
        count_matching(s.drop_last(), e) + if s.last() == e {
            1int
        } else {
            0int
        }
    }
}

/// Allocations granted minus slots handed back: the slots still live.
pub open spec fn net_allocations(s: Seq<SysEvent>) -> int {
    count_matching(s, SysEvent::Alloc) - count_matching(s, SysEvent::Free)
}

pub proof fn lemma_count_matching_push(s: Seq<SysEvent>, x: SysEvent, e: SysEvent)
    ensures
        count_matching(s.push(x), e) == count_matching(s, e) + if x == e {
            1int
        } else {
            0int
        },
{
    assert(s.push(x).drop_last() =~= s);
}

pub proof fn lemma_count_matching_single(x: SysEvent, e: SysEvent)
    ensures
        count_matching(seq![x], e) == if x == e {
            1int
        } else {
            0int
        },
{
    assert(seq![x].drop_last() =~= Seq::<SysEvent>::empty());
    assert(count_matching(Seq::<SysEvent>::empty(), e) == 0);
}

pub proof fn lemma_count_matching_concat(a: Seq<SysEvent>, b: Seq<SysEvent>, e: SysEvent)
    ensures
        count_matching(a + b, e) == count_matching(a, e) + count_matching(b, e),
    decreases b.len(),
{
    if b.len() == 0 {
        assert(a + b =~= a);
    } else {
        lemma_count_matching_concat(a, b.drop_last(), e);
        assert((a + b).drop_last() =~= a + b.drop_last());
        assert((a + b).last() == b.last());
    }
}

/// A run of `n` copies of `e` adds exactly `n` occurrences of `e` and none of
/// anything else.
pub proof fn lemma_count_matching_repeat(n: nat, e: SysEvent, f: SysEvent)
    ensures
        count_matching(Seq::new(n, |i: int| e), e) == n,
        f != e ==> count_matching(Seq::new(n, |i: int| e), f) == 0,
    decreases n,
{
    if n > 0 {
        lemma_count_matching_repeat((n - 1) as nat, e, f);
        assert(Seq::new(n, |i: int| e).drop_last() =~= Seq::new((n - 1) as nat, |i: int| e));
    }
}

impl System {
    /// A fresh firmware model that grants every allocation and every window.
    pub fn new() -> (s: System)
        ensures
            s.events@ == Seq::<SysEvent>::empty(),
            !s.alloc_limited,
            s.alloc_fuel == 0,
            s.window_creation_enabled,
            s.next_window_id == 0,
            s.window_stack@ == Seq::<u64>::empty(),
    {
        System {
            events: Vec::new(),
            alloc_limited: false,
            alloc_fuel: 0,
            window_creation_enabled: true,
            next_window_id: 0,
            window_stack: Vec::new(),
        }
    }

    /// A firmware model whose allocator grants exactly `fuel` further requests
    /// and refuses every one after that.
    pub fn with_alloc_fuel(fuel: u32) -> (s: System)
        ensures
            s.events@ == Seq::<SysEvent>::empty(),
            s.alloc_limited,
            s.alloc_fuel == fuel,
            s.window_creation_enabled,
            s.next_window_id == 0,
            s.window_stack@ == Seq::<u64>::empty(),
    {
        System {
            events: Vec::new(),
            alloc_limited: true,
            alloc_fuel: fuel,
            window_creation_enabled: true,
            next_window_id: 0,
            window_stack: Vec::new(),
        }
    }

    /// Asks the allocator for one slot; records the grant, if any.
    pub(crate) fn try_consume_alloc(&mut self) -> (ok: bool)
        ensures
            ok == can_alloc(*old(self)),
            if ok {
                &&& final(self).events@ == old(self).events@ + seq![SysEvent::Alloc]
                &&& fuel_spent(*old(self), *final(self), 1)
                &&& same_ui(*old(self), *final(self))
            } else {
                *final(self) == *old(self)
            },
    {
        if !self.alloc_limited || self.alloc_fuel > 0 {
            if self.alloc_limited {
                self.alloc_fuel = self.alloc_fuel - 1;
            }
            self.events.push(SysEvent::Alloc);
            proof {
                assert(self.events@ =~= old(self).events@ + seq![SysEvent::Alloc]);
            }
            true
        } else {
            false
        }
    }

    /// Hands one slot back to the allocator.
    pub(crate) fn record_free(&mut self)
        ensures
            final(self).events@ == old(self).events@ + seq![SysEvent::Free],
            same_allocator(*old(self), *final(self)),
            same_ui(*old(self), *final(self)),
    {
        self.events.push(SysEvent::Free);
        proof {
            assert(self.events@ =~= old(self).events@ + seq![SysEvent::Free]);
        }
    }

    /// Records one observable call that changes nothing else.
    pub(crate) fn record(&mut self, e: SysEvent)
        ensures
            final(self).events@ == old(self).events@ + seq![e],
            same_allocator(*old(self), *final(self)),
            same_ui(*old(self), *final(self)),
    {
        self.events.push(e);
        proof {
            assert(self.events@ =~= old(self).events@ + seq![e]);
        }
    }

    /// Asks the runtime to create a window; on success its identity is fresh.
    pub(crate) fn create_window(&mut self) -> (r: Option<u64>)
        ensures
            match r {
                Some(id) => {
                    &&& window_create_ok(*old(self))
                    &&& id == old(self).next_window_id
                    &&& final(self).events@ == old(self).events@ + seq![SysEvent::WindowCreated(id)]
                    &&& final(self).next_window_id as int == id as int + 1
                    &&& final(self).window_creation_enabled == old(self).window_creation_enabled
                    &&& final(self).window_stack@ == old(self).window_stack@
                    &&& same_allocator(*old(self), *final(self))
                },
                None => !window_create_ok(*old(self)) && *final(self) == *old(self),
            },
    {
        if self.window_creation_enabled && self.next_window_id < u64::MAX {
            let id = self.next_window_id;
            self.next_window_id = id + 1;
            self.events.push(SysEvent::WindowCreated(id));
            proof {
                assert(self.events@ =~= old(self).events@ + seq![SysEvent::WindowCreated(id)]);
            }
            Some(id)
        } else {
            None
        }
    }

    /// Asks the runtime to create a number window; on success its identity is
    /// fresh.
    pub(crate) fn create_number_window(&mut self) -> (r: Option<u64>)
        ensures
            match r {
                Some(id) => {
                    &&& window_create_ok(*old(self))
                    &&& id == old(self).next_window_id
                    &&& final(self).events@ == old(self).events@
                        + seq![SysEvent::NumberWindowCreated(id)]
                    &&& final(self).next_window_id as int == id as int + 1
                    &&& final(self).window_creation_enabled == old(self).window_creation_enabled
                    &&& final(self).window_stack@ == old(self).window_stack@
                    &&& same_allocator(*old(self), *final(self))
                },
                None => !window_create_ok(*old(self)) && *final(self) == *old(self),
            },
    {
        if self.window_creation_enabled && self.next_window_id < u64::MAX {
            let id = self.next_window_id;
            self.next_window_id = id + 1;
            self.events.push(SysEvent::NumberWindowCreated(id));
            proof {
                assert(self.events@ =~= old(self).events@ + seq![SysEvent::NumberWindowCreated(id)]);
            }
            Some(id)
        } else {
            None
        }
    }

    /// How many allocations the trace has granted so far.
    pub fn allocation_count(&self) -> (n: usize)
        ensures
            n as int == count_matching(self.events@, SysEvent::Alloc),
    {
        self.count_events(SysEvent::Alloc)
    }

    /// How many slots the trace has handed back so far.
    pub fn free_count(&self) -> (n: usize)
        ensures
            n as int == count_matching(self.events@, SysEvent::Free),
    {
        self.count_events(SysEvent::Free)
    }

    /// How often `e` occurs in the trace.
    pub fn count_events(&self, e: SysEvent) -> (n: usize)
        ensures
            n as int == count_matching(self.events@, e),
    {
        let mut n: usize = 0;
        let mut i: usize = 0;
        while i < self.events.len()
            invariant
                i <= self.events@.len(),
                n <= i,
                n as int == count_matching(self.events@.take(i as int), e),
            decreases self.events@.len() - i,
        {
            let x = self.events[i];
            proof {
                assert(self.events@.take(i as int + 1).drop_last() =~= self.events@.take(i as int));
                assert(self.events@.take(i as int + 1).last() == self.events@[i as int]);
            }
            if x == e {
                n = n + 1;
            }
            i = i + 1;
        }
        proof {
            assert(self.events@.take(self.events@.len() as int) =~= self.events@);
        }
        n
    }
}

} // verus!
