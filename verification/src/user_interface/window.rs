//! The callback-bridging lifecycle engine for modal windows.
//!
//! A caller registers strongly typed lifecycle handlers; the engine owns them
//! together with the window's value slot in a heap-allocated context record.
//! The foreign runtime drives the window through
//! `load → (appear/disappear)* → unload`, and the owner finishes with an
//! explicit destroy that always tells the runtime to destroy the foreign
//! object before the context record's slot is handed back.

use vstd::prelude::*;

pub mod number_window;

verus! {

use crate::Box;
use crate::graphics::graphics_types::Color8;
use crate::system::{
    System, SysEvent, alloc_cost, alloc_delta, box_alloc_fails, can_alloc_after, free_delta,
    fuel_spent, lemma_count_matching_concat, lemma_count_matching_single, needs_alloc,
    net_allocations, same_allocator, same_ui, window_create_ok,
};
use crate::user_interface::window_stack;

/// Where a window stands in its lifecycle. A destroyed window has no state:
/// destruction consumes the window value itself.
#[derive(Clone, Copy, Debug, PartialEq, Eq, Structural)]
pub enum WindowState {
    /// The foreign object exists; no callback has fired yet.
    Created,
    /// `load` has fired and populated the value slot.
    Loaded,
    /// The window is on screen.
    Appeared,
    /// The window left the screen; it may appear again.
    Disappeared,
    /// `unload` has fired and consumed the value slot.
    Unloaded,
}

/// A lifecycle callback, as the foreign runtime announces it.
#[derive(Clone, Copy, Debug, PartialEq, Eq, Structural)]
pub enum WindowEvent {
    /// The runtime loaded the window.
    Load,
    /// The window came on screen.
    Appear,
    /// The window left the screen.
    Disappear,
    /// The runtime unloaded the window.
    Unload,
}

/// The orderings the runtime promises: `load` first, then `appear` and
/// `disappear` in alternation, then `unload`. Everything else is a protocol
/// violation.
pub open spec fn lifecycle_step(state: WindowState, event: WindowEvent) -> Option<WindowState> {
    match (state, event) {
        (WindowState::Created, WindowEvent::Load) => Some(WindowState::Loaded),
        (WindowState::Loaded, WindowEvent::Appear) => Some(WindowState::Appeared),
        (WindowState::Disappeared, WindowEvent::Appear) => Some(WindowState::Appeared),
        (WindowState::Appeared, WindowEvent::Disappear) => Some(WindowState::Disappeared),
        (WindowState::Loaded, WindowEvent::Unload) => Some(WindowState::Unloaded),
        (WindowState::Disappeared, WindowEvent::Unload) => Some(WindowState::Unloaded),
        _ => None,
    }
}

/// Whether the value slot holds a value in this state: populated by `load`,
/// consumed by `unload`.
pub open spec fn slot_populated(state: WindowState) -> bool {
    match state {
        WindowState::Loaded => true,
        WindowState::Appeared => true,
        WindowState::Disappeared => true,
        _ => false,
    }
}

/// A lifecycle event arrived that the protocol does not allow in the current
/// state — `load` firing twice, say. Continuing would corrupt the context
/// record, so this is unrecoverable by design: callers abort with it as the
/// diagnostic.
#[derive(Clone, Copy, Debug, PartialEq, Eq, Structural)]
pub struct ProtocolViolation {
    /// The state the window was in.
    pub state: WindowState,
    /// The event the runtime announced.
    pub event: WindowEvent,
}

/// The four strongly typed lifecycle callbacks a caller registers. `load`
/// produces the window's value; `appear` and `disappear` may change it;
/// `unload` consumes it.
pub trait WindowHandlers<T>: Sized {
    /// Produces the value the slot holds while the window is loaded.
    fn load(&mut self) -> T;

    /// The window came on screen.
    fn appear(&mut self, data: &mut T);

    /// The window left the screen.
    fn disappear(&mut self, data: &mut T);

    /// The runtime unloaded the window; the value is handed back.
    fn unload(&mut self, data: T);
}

/// The context record: the value slot paired with the owned handlers. The
/// record lives in its own heap slot for as long as the window exists.
pub struct WindowData<T, H> {
    /// The current value: absent before `load`, present until `unload`.
    pub user_data: Option<T>,
    /// The handlers, in the heap slot they were first moved into.
    pub window_handlers: Box<H>,
}

/// Returned when construction fails: the handlers come back unchanged, and no
/// allocation stays behind.
pub struct WindowCreationError<H> {
    /// The handlers the caller passed in.
    pub window_handlers: H,
}

/// A typed window: the identity of the foreign object, its lifecycle state,
/// and the owned context record.
pub struct Window<T, H> {
    /// Identity of the foreign window object.
    pub id: u64,
    /// Where the window stands in its lifecycle.
    pub state: WindowState,
    /// The context record, in its heap slot.
    pub data: Box<WindowData<T, H>>,
    /// The background color last set, if any.
    pub background_color: Option<Color8>,
}

/// An erased view of a window: identity only, no access to the typed context
/// record and no way to destroy anything. Callback bodies see windows through
/// this view, which structurally prevents re-entrant typed access.
#[derive(Clone, Copy, Debug, PartialEq, Eq, Structural)]
pub struct WindowRef {
    /// Identity of the foreign window object.
    pub id: u64,
}

/// The second allocation of construction — the context record for a `T`
/// window over handlers `H` — would be refused, after the handlers' own
/// allocation went through.
pub open spec fn data_alloc_fails<T, H>(s: System) -> bool {
    needs_alloc::<WindowData<T, H>>() && !can_alloc_after(s, alloc_cost::<H>())
}

impl<T, H: WindowHandlers<T>> Window<T, H> {
    /// The value slot is populated exactly in the states between `load` and
    /// `unload`.
    pub open spec fn wf(self) -> bool {
        slot_populated(self.state) <==> self.data.value.user_data is Some
    }

    /// Creates a window over the given handlers.
    ///
    /// Construction takes two allocations — the handlers' slot, then the
    /// context record's — followed by the foreign create call. Whichever step
    /// fails, the handlers come back unchanged and every slot already taken
    /// is handed back first: no failure leaks.
    pub fn new(sys: &mut System, window_handlers: H) -> (r: Result<
        Window<T, H>,
        WindowCreationError<H>,
    >)
        ensures
            match r {
                Ok(w) => {
                    &&& !box_alloc_fails::<H>(*old(sys))
                    &&& !data_alloc_fails::<T, H>(*old(sys))
                    &&& window_create_ok(*old(sys))
                    &&& w.id == old(sys).next_window_id
                    &&& w.state == WindowState::Created
                    &&& w.data.value.user_data is None
                    &&& w.data.value.window_handlers.value == window_handlers
                    &&& w.background_color is None
                    &&& w.wf()
                    &&& final(sys).events@ == old(sys).events@ + alloc_delta::<H>()
                        + alloc_delta::<WindowData<T, H>>() + seq![SysEvent::WindowCreated(w.id)]
                    &&& fuel_spent(
                        *old(sys),
                        *final(sys),
                        alloc_cost::<H>() + alloc_cost::<WindowData<T, H>>(),
                    )
                    &&& final(sys).next_window_id as int == old(sys).next_window_id as int + 1
                    &&& final(sys).window_creation_enabled == old(sys).window_creation_enabled
                    &&& final(sys).window_stack@ == old(sys).window_stack@
                },
                Err(e) => {
                    &&& e.window_handlers == window_handlers
                    &&& if box_alloc_fails::<H>(*old(sys)) {
                        *final(sys) == *old(sys)
                    } else if data_alloc_fails::<T, H>(*old(sys)) {
                        &&& final(sys).events@ == old(sys).events@ + alloc_delta::<H>()
                            + free_delta::<H>()
                        &&& fuel_spent(*old(sys), *final(sys), alloc_cost::<H>())
                        &&& same_ui(*old(sys), *final(sys))
                    } else {
                        &&& !window_create_ok(*old(sys))
                        &&& final(sys).events@ == old(sys).events@ + alloc_delta::<H>()
                            + alloc_delta::<WindowData<T, H>>() + free_delta::<WindowData<T, H>>()
                            + free_delta::<H>()
                        &&& fuel_spent(
                            *old(sys),
                            *final(sys),
                            alloc_cost::<H>() + alloc_cost::<WindowData<T, H>>(),
                        )
                        &&& same_ui(*old(sys), *final(sys))
                    }
                },
            },
    {
        let handlers_box = match Box::new(sys, window_handlers) {
            Ok(b) => b,
            Err(h) => {
                return Err(WindowCreationError { window_handlers: h });
            },
        };
        let data_box = match Box::new(
            sys,
            WindowData { user_data: None, window_handlers: handlers_box },
        ) {
            Ok(b) => b,
            Err(wd) => {
                let WindowData { user_data: _, window_handlers: hb } = wd;
                let h = Box::into_inner(sys, hb);
                proof {
                    assert(sys.events@ =~= old(sys).events@ + alloc_delta::<H>()
                        + free_delta::<H>());
                }
                return Err(WindowCreationError { window_handlers: h });
            },
        };
        match sys.create_window() {
            Some(id) => {
                proof {
                    assert(sys.events@ =~= old(sys).events@ + alloc_delta::<H>()
                        + alloc_delta::<WindowData<T, H>>() + seq![SysEvent::WindowCreated(id)]);
                }
                Ok(
                    Window {
                        id,
                        state: WindowState::Created,
                        data: data_box,
                        background_color: None,
                    },
                )
            },
            None => {
                let wd = Box::into_inner(sys, data_box);
                let WindowData { user_data: _, window_handlers: hb } = wd;
                let h = Box::into_inner(sys, hb);
                proof {
                    assert(sys.events@ =~= old(sys).events@ + alloc_delta::<H>()
                        + alloc_delta::<WindowData<T, H>>() + free_delta::<WindowData<T, H>>()
                        + free_delta::<H>());
                }
                Err(WindowCreationError { window_handlers: h })
            },
        }
    }

    /// Dispatches one lifecycle callback from the foreign runtime.
    ///
    /// An event the protocol does not allow in the current state changes
    /// nothing and comes back as the diagnostic of a [`ProtocolViolation`]:
    /// in particular the slot is populated exactly once, at `load`, and
    /// consumed exactly once, at `unload`.
    pub fn handle_event(&mut self, event: WindowEvent) -> (r: Result<(), ProtocolViolation>)
        requires
            old(self).wf(),
        ensures
            final(self).wf(),
            final(self).id == old(self).id,
            final(self).background_color == old(self).background_color,
            match lifecycle_step(old(self).state, event) {
                Some(next) => {
                    &&& r is Ok
                    &&& final(self).state == next
                },
                None => {
                    &&& r == Err::<(), ProtocolViolation>(
                        (ProtocolViolation { state: old(self).state, event }),
                    )
                    &&& *final(self) == *old(self)
                },
            },
            event == WindowEvent::Load && r is Ok ==> old(self).data.value.user_data is None
                && final(self).data.value.user_data is Some,
            event == WindowEvent::Unload && r is Ok ==> old(self).data.value.user_data is Some
                && final(self).data.value.user_data is None,
    {
        match (self.state, event) {
            (WindowState::Created, WindowEvent::Load) => {
                let value = self.data.value.window_handlers.value.load();
                self.data.value.user_data = Some(value);
                self.state = WindowState::Loaded;
                Ok(())
            },
            (WindowState::Loaded, WindowEvent::Appear) | (
                WindowState::Disappeared,
                WindowEvent::Appear,
            ) => {
                let mut value = self.data.value.user_data.take().unwrap();
                self.data.value.window_handlers.value.appear(&mut value);
                self.data.value.user_data = Some(value);
                self.state = WindowState::Appeared;
                Ok(())
            },
            (WindowState::Appeared, WindowEvent::Disappear) => {
                let mut value = self.data.value.user_data.take().unwrap();
                self.data.value.window_handlers.value.disappear(&mut value);
                self.data.value.user_data = Some(value);
                self.state = WindowState::Disappeared;
                Ok(())
            },
            (WindowState::Loaded, WindowEvent::Unload) | (
                WindowState::Disappeared,
                WindowEvent::Unload,
            ) => {
                let value = self.data.value.user_data.take().unwrap();
                self.data.value.window_handlers.value.unload(value);
                self.state = WindowState::Unloaded;
                Ok(())
            },
            _ => Err(ProtocolViolation { state: self.state, event }),
        }
    }

    /// Destroys the window: the foreign object first, only then the context
    /// record's slots. The order is load-bearing — until the destroy call
    /// returns, the runtime may still reference the record — and the trace
    /// this leaves shows it. A value still in the slot is dropped with the
    /// record.
    pub fn destroy(self, sys: &mut System)
        ensures
            final(sys).events@ == old(sys).events@ + seq![SysEvent::WindowDestroyed(self.id)]
                + free_delta::<WindowData<T, H>>() + free_delta::<H>(),
            same_allocator(*old(sys), *final(sys)),
            same_ui(*old(sys), *final(sys)),
    {
        let Window { id, state: _, data, background_color: _ } = self;
        sys.record(SysEvent::WindowDestroyed(id));
        let wd = Box::into_inner(sys, data);
        let WindowData { user_data: _, window_handlers: hb } = wd;
        let _ = Box::into_inner(sys, hb);
        proof {
            assert(sys.events@ =~= old(sys).events@ + seq![SysEvent::WindowDestroyed(self.id)]
                + free_delta::<WindowData<T, H>>() + free_delta::<H>());
        }
    }

    /// The erased view of this window.
    pub fn as_ref(&self) -> (r: WindowRef)
        ensures
            r.id == self.id,
    {
        WindowRef { id: self.id }
    }

    /// Whether the window is between `load` and `unload`.
    pub fn is_loaded(&self) -> (r: bool)
        ensures
            r == slot_populated(self.state),
    {
        match self.state {
            WindowState::Loaded => true,
            WindowState::Appeared => true,
            WindowState::Disappeared => true,
            _ => false,
        }
    }

    /// Pushes this window onto the navigation stack, topmost.
    ///
    /// `animated` asks for a sliding animation; the model does not render.
    pub fn show(&self, sys: &mut System, animated: bool)
        ensures
            final(sys).window_stack@ == window_stack::without_id(
                old(sys).window_stack@,
                self.id,
            ).push(self.id),
            final(sys).events@ == old(sys).events@,
            same_allocator(*old(sys), *final(sys)),
            final(sys).window_creation_enabled == old(sys).window_creation_enabled,
            final(sys).next_window_id == old(sys).next_window_id,
    {
        window_stack::push(sys, self.as_ref(), animated)
    }

    /// Removes this window from the navigation stack; says whether it was
    /// there.
    pub fn dismiss(&self, sys: &mut System, animated: bool) -> (r: bool)
        ensures
            r == old(sys).window_stack@.contains(self.id),
            final(sys).window_stack@ == window_stack::without_id(old(sys).window_stack@, self.id),
            final(sys).events@ == old(sys).events@,
            same_allocator(*old(sys), *final(sys)),
            final(sys).window_creation_enabled == old(sys).window_creation_enabled,
            final(sys).next_window_id == old(sys).next_window_id,
    {
        window_stack::remove(sys, self.as_ref(), animated)
    }

    /// Sets the window's background color.
    pub fn set_background_color(&mut self, background_color: Color8)
        ensures
            final(self).background_color == Some(background_color),
            final(self).id == old(self).id,
            final(self).state == old(self).state,
            final(self).data == old(self).data,
    {
        self.background_color = Some(background_color);
    }
}

/// The lifecycle protocol in one place: along
/// `create → load → appear → disappear → unload` every step is allowed, the
/// value slot is empty before `load`, stays populated until `unload`, and is
/// empty after; populating it twice is impossible — from every state whose
/// slot is populated, `load` is a violation — and nothing follows `unload`.
pub proof fn lemma_lifecycle_protocol()
    ensures
        lifecycle_step(WindowState::Created, WindowEvent::Load) == Some(WindowState::Loaded),
        lifecycle_step(WindowState::Loaded, WindowEvent::Appear) == Some(WindowState::Appeared),
        lifecycle_step(WindowState::Appeared, WindowEvent::Disappear) == Some(
            WindowState::Disappeared,
        ),
        lifecycle_step(WindowState::Disappeared, WindowEvent::Unload) == Some(
            WindowState::Unloaded,
        ),
        !slot_populated(WindowState::Created),
        slot_populated(WindowState::Loaded),
        slot_populated(WindowState::Appeared),
        slot_populated(WindowState::Disappeared),
        !slot_populated(WindowState::Unloaded),
        forall|s: WindowState| slot_populated(s) ==> #[trigger] lifecycle_step(
            s,
            WindowEvent::Load,
        ) is None,
        forall|e: WindowEvent| #[trigger] lifecycle_step(WindowState::Unloaded, e) is None,
{
}

/// Construction failure never leaks: after either rollback trace of
/// [`Window::new`] — the context record's allocation refused, or the foreign
/// create refused — the number of live slots is back where it started.
pub proof fn lemma_creation_rollback_balance<T, H>(s0: Seq<SysEvent>)
    ensures
        net_allocations(s0 + alloc_delta::<H>() + free_delta::<H>()) == net_allocations(s0),
        net_allocations(
            s0 + alloc_delta::<H>() + alloc_delta::<WindowData<T, H>>() + free_delta::<
                WindowData<T, H>,
            >() + free_delta::<H>(),
        ) == net_allocations(s0),
{
    let a_h = alloc_delta::<H>();
    let f_h = free_delta::<H>();
    let a_d = alloc_delta::<WindowData<T, H>>();
    let f_d = free_delta::<WindowData<T, H>>();
    lemma_count_matching_single(SysEvent::Alloc, SysEvent::Alloc);
    lemma_count_matching_single(SysEvent::Alloc, SysEvent::Free);
    lemma_count_matching_single(SysEvent::Free, SysEvent::Alloc);
    lemma_count_matching_single(SysEvent::Free, SysEvent::Free);
    lemma_count_matching_concat(s0, a_h, SysEvent::Alloc);
    lemma_count_matching_concat(s0, a_h, SysEvent::Free);
    lemma_count_matching_concat(s0 + a_h, f_h, SysEvent::Alloc);
    lemma_count_matching_concat(s0 + a_h, f_h, SysEvent::Free);
    lemma_count_matching_concat(s0 + a_h, a_d, SysEvent::Alloc);
    lemma_count_matching_concat(s0 + a_h, a_d, SysEvent::Free);
    lemma_count_matching_concat(s0 + a_h + a_d, f_d, SysEvent::Alloc);
    lemma_count_matching_concat(s0 + a_h + a_d, f_d, SysEvent::Free);
    lemma_count_matching_concat(s0 + a_h + a_d + f_d, f_h, SysEvent::Alloc);
    lemma_count_matching_concat(s0 + a_h + a_d + f_d, f_h, SysEvent::Free);
}

} // verus!
