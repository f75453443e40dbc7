//! A modal window with bounded integer controls, driven by three button
//! callbacks over a typed context.

use vstd::prelude::*;

verus! {

use crate::Box;
use crate::standard_c::{CStr, NotStack, Storage};
use crate::system::{
    System, SysEvent, alloc_cost, alloc_delta, box_alloc_fails, can_alloc_after, free_delta,
    fuel_spent, needs_alloc, same_allocator, same_ui, window_create_ok,
};
use crate::user_interface::window::WindowRef;

/// A button callback, as the foreign runtime announces it.
#[derive(Clone, Copy, Debug, PartialEq, Eq, Structural)]
pub enum NumberWindowEvent {
    /// The up button: the value was stepped up.
    Incremented,
    /// The down button: the value was stepped down.
    Decremented,
    /// The select button.
    Selected,
}

/// An erased snapshot of a number window, handed to callbacks: identity and
/// the bounded controls, but no access to the typed context — which
/// structurally prevents re-entrant typed access from inside a callback.
#[derive(Clone, Copy, Debug, PartialEq, Eq, Structural)]
pub struct NumberWindowRef {
    /// Identity of the foreign number window object.
    pub id: u64,
    /// The current value.
    pub value: i32,
    /// The lower bound.
    pub min: i32,
    /// The upper bound.
    pub max: i32,
    /// The step the buttons move by.
    pub step: i32,
}

/// The three strongly typed button callbacks a caller registers. Each sees
/// the erased window and may change the context.
pub trait NumberWindowHandlers<T>: Sized {
    /// The up button fired.
    fn incremented(&mut self, window: &NumberWindowRef, context: &mut T);

    /// The down button fired.
    fn decremented(&mut self, window: &NumberWindowRef, context: &mut T);

    /// The select button fired.
    fn selected(&mut self, window: &NumberWindowRef, context: &mut T);
}

/// The callbacks paired with their typed context — what a number window
/// dispatches into.
pub struct NumberWindowData<C, T> {
    /// The registered callbacks.
    pub callbacks: C,
    /// The typed context the callbacks work on.
    pub context: T,
}

impl<C: NumberWindowHandlers<T>, T> NumberWindowData<C, T> {
    /// Dispatches the up button to the callbacks, over the context.
    pub fn incremented(&mut self, window: &NumberWindowRef) {
        self.callbacks.incremented(window, &mut self.context);
    }

    /// Dispatches the down button to the callbacks, over the context.
    pub fn decremented(&mut self, window: &NumberWindowRef) {
        self.callbacks.decremented(window, &mut self.context);
    }

    /// Dispatches the select button to the callbacks, over the context.
    pub fn selected(&mut self, window: &NumberWindowRef) {
        self.callbacks.selected(window, &mut self.context);
    }
}

/// The heap-boxed context record, in the extra slot the foreign runtime is
/// handed as its opaque callback context.
pub struct NumberWindowDataWrapper<C, T>(pub Box<NumberWindowData<C, T>>);

/// A typed number window: the identity of the foreign object, its bounded
/// controls, its label, and the owned context record.
pub struct NumberWindow<C, T, S: Storage> {
    /// Identity of the foreign number window object.
    pub id: u64,
    /// The label shown above the number; storage that outlives the window.
    pub label: CStr<S>,
    /// The lower bound.
    pub min: i32,
    /// The upper bound.
    pub max: i32,
    /// The step the buttons move by.
    pub step: i32,
    /// The current value.
    pub value: i32,
    /// The context record, in its two heap slots.
    pub data: Box<NumberWindowDataWrapper<C, T>>,
}

/// The second allocation of construction — the wrapper around the context
/// record of callbacks `C` over context `T` — would be refused, after the
/// record's own allocation went through.
pub open spec fn wrapper_alloc_fails<C, T>(s: System) -> bool {
    needs_alloc::<NumberWindowDataWrapper<C, T>>() && !can_alloc_after(
        s,
        alloc_cost::<NumberWindowData<C, T>>(),
    )
}

impl<C: NumberWindowHandlers<T>, T, S: NotStack> NumberWindow<C, T, S> {
    /// Creates a number window labelled `label` over the given callbacks and
    /// context. The controls all start at zero.
    ///
    /// Construction takes two allocations — the context record's slot, then
    /// its wrapper's — followed by the foreign create call. Whichever step
    /// fails, callbacks and context come back unchanged and every slot
    /// already taken is handed back first: no failure leaks. The label needs
    /// storage that outlives the call, because the foreign object keeps
    /// reading it.
    pub fn new(sys: &mut System, label: CStr<S>, number_window_data: NumberWindowData<C, T>) -> (r:
        Result<NumberWindow<C, T, S>, NumberWindowData<C, T>>)
        ensures
            match r {
                Ok(w) => {
                    &&& !box_alloc_fails::<NumberWindowData<C, T>>(*old(sys))
                    &&& !wrapper_alloc_fails::<C, T>(*old(sys))
                    &&& window_create_ok(*old(sys))
                    &&& w.id == old(sys).next_window_id
                    &&& w.label == label
                    &&& w.min == 0 && w.max == 0 && w.step == 0 && w.value == 0
                    &&& w.data.value.0.value == number_window_data
                    &&& final(sys).events@ == old(sys).events@ + alloc_delta::<
                        NumberWindowData<C, T>,
                    >() + alloc_delta::<NumberWindowDataWrapper<C, T>>() + seq![
                        SysEvent::NumberWindowCreated(w.id),
                    ]
                    &&& fuel_spent(
                        *old(sys),
                        *final(sys),
                        alloc_cost::<NumberWindowData<C, T>>() + alloc_cost::<
                            NumberWindowDataWrapper<C, T>,
                        >(),
                    )
                    &&& final(sys).next_window_id as int == old(sys).next_window_id as int + 1
                    &&& final(sys).window_creation_enabled == old(sys).window_creation_enabled
                    &&& final(sys).window_stack@ == old(sys).window_stack@
                },
                Err(d) => {
                    &&& d == number_window_data
                    &&& if box_alloc_fails::<NumberWindowData<C, T>>(*old(sys)) {
                        *final(sys) == *old(sys)
                    } else if wrapper_alloc_fails::<C, T>(*old(sys)) {
                        &&& final(sys).events@ == old(sys).events@ + alloc_delta::<
                            NumberWindowData<C, T>,
                        >() + free_delta::<NumberWindowData<C, T>>()
                        &&& fuel_spent(
                            *old(sys),
                            *final(sys),
                            alloc_cost::<NumberWindowData<C, T>>(),
                        )
                        &&& same_ui(*old(sys), *final(sys))
                    } else {
                        &&& !window_create_ok(*old(sys))
                        &&& final(sys).events@ == old(sys).events@ + alloc_delta::<
                            NumberWindowData<C, T>,
                        >() + alloc_delta::<NumberWindowDataWrapper<C, T>>() + free_delta::<
                            NumberWindowDataWrapper<C, T>,
                        >() + free_delta::<NumberWindowData<C, T>>()
                        &&& fuel_spent(
                            *old(sys),
                            *final(sys),
                            alloc_cost::<NumberWindowData<C, T>>() + alloc_cost::<
                                NumberWindowDataWrapper<C, T>,
                            >(),
                        )
                        &&& same_ui(*old(sys), *final(sys))
                    }
                },
            },
    {
        let inner_box = match Box::new(sys, number_window_data) {
            Ok(b) => b,
            Err(d) => {
                return Err(d);
            },
        };
        let wrapper_box = match Box::new(sys, NumberWindowDataWrapper(inner_box)) {
            Ok(b) => b,
            Err(w) => {
                let NumberWindowDataWrapper(inner) = w;
                let d = Box::into_inner(sys, inner);
                proof {
                    assert(sys.events@ =~= old(sys).events@ + alloc_delta::<
                        NumberWindowData<C, T>,
                    >() + free_delta::<NumberWindowData<C, T>>());
                }
                return Err(d);
            },
        };
        match sys.create_number_window() {
            Some(id) => {
                proof {
                    assert(sys.events@ =~= old(sys).events@ + alloc_delta::<
                        NumberWindowData<C, T>,
                    >() + alloc_delta::<NumberWindowDataWrapper<C, T>>() + seq![
                        SysEvent::NumberWindowCreated(id),
                    ]);
                }
                Ok(
                    NumberWindow {
                        id,
                        label,
                        min: 0,
                        max: 0,
                        step: 0,
                        value: 0,
                        data: wrapper_box,
                    },
                )
            },
            None => {
                let w = Box::into_inner(sys, wrapper_box);
                let NumberWindowDataWrapper(inner) = w;
                let d = Box::into_inner(sys, inner);
                proof {
                    assert(sys.events@ =~= old(sys).events@ + alloc_delta::<
                        NumberWindowData<C, T>,
                    >() + alloc_delta::<NumberWindowDataWrapper<C, T>>() + free_delta::<
                        NumberWindowDataWrapper<C, T>,
                    >() + free_delta::<NumberWindowData<C, T>>());
                }
                Err(d)
            },
        }
    }

    /// Destroys the number window: the foreign object first, only then the
    /// context record's slots. The order is load-bearing — until the destroy
    /// call returns, the runtime may still reference the record — and the
    /// trace this leaves shows it.
    pub fn destroy(self, sys: &mut System)
        ensures
            final(sys).events@ == old(sys).events@ + seq![
                SysEvent::NumberWindowDestroyed(self.id),
            ] + free_delta::<NumberWindowDataWrapper<C, T>>() + free_delta::<
                NumberWindowData<C, T>,
            >(),
            same_allocator(*old(sys), *final(sys)),
            same_ui(*old(sys), *final(sys)),
    {
        let NumberWindow { id, label: _, min: _, max: _, step: _, value: _, data } = self;
        sys.record(SysEvent::NumberWindowDestroyed(id));
        let w = Box::into_inner(sys, data);
        let NumberWindowDataWrapper(inner) = w;
        let _ = Box::into_inner(sys, inner);
        proof {
            assert(sys.events@ =~= old(sys).events@ + seq![
                SysEvent::NumberWindowDestroyed(self.id),
            ] + free_delta::<NumberWindowDataWrapper<C, T>>() + free_delta::<
                NumberWindowData<C, T>,
            >());
        }
    }

    /// Dispatches one button callback from the foreign runtime to the
    /// registered callbacks, over an erased snapshot of this window. The
    /// window's own controls are untouched; only the context may change.
    pub fn handle_input(&mut self, event: NumberWindowEvent)
        ensures
            final(self).id == old(self).id,
            final(self).label == old(self).label,
            final(self).min == old(self).min,
            final(self).max == old(self).max,
            final(self).step == old(self).step,
            final(self).value == old(self).value,
    {
        let snapshot = NumberWindowRef {
            id: self.id,
            value: self.value,
            min: self.min,
            max: self.max,
            step: self.step,
        };
        match event {
            NumberWindowEvent::Incremented => self.data.value.0.value.incremented(&snapshot),
            NumberWindowEvent::Decremented => self.data.value.0.value.decremented(&snapshot),
            NumberWindowEvent::Selected => self.data.value.0.value.selected(&snapshot),
        }
    }

    /// The erased view of the embedded window object, for navigation-stack
    /// calls.
    pub fn window(&self) -> (r: WindowRef)
        ensures
            r.id == self.id,
    {
        WindowRef { id: self.id }
    }

    /// Replaces the label; the new one needs storage that outlives the
    /// window, like the old one.
    pub fn set_label(&mut self, label: CStr<S>)
        ensures
            final(self).label == label,
            final(self).id == old(self).id,
            final(self).min == old(self).min,
            final(self).max == old(self).max,
            final(self).step == old(self).step,
            final(self).value == old(self).value,
            final(self).data == old(self).data,
    {
        self.label = label;
    }

    /// Sets the upper bound.
    pub fn set_max(&mut self, max: i32)
        ensures
            final(self).max == max,
            final(self).id == old(self).id,
            final(self).label == old(self).label,
            final(self).min == old(self).min,
            final(self).step == old(self).step,
            final(self).value == old(self).value,
            final(self).data == old(self).data,
    {
        self.max = max;
    }

    /// Sets the lower bound.
    pub fn set_min(&mut self, min: i32)
        ensures
            final(self).min == min,
            final(self).id == old(self).id,
            final(self).label == old(self).label,
            final(self).max == old(self).max,
            final(self).step == old(self).step,
            final(self).value == old(self).value,
            final(self).data == old(self).data,
    {
        self.min = min;
    }

    /// Sets the current value.
    pub fn set_value(&mut self, value: i32)
        ensures
            final(self).value == value,
            final(self).id == old(self).id,
            final(self).label == old(self).label,
            final(self).min == old(self).min,
            final(self).max == old(self).max,
            final(self).step == old(self).step,
            final(self).data == old(self).data,
    {
        self.value = value;
    }

    /// Sets the step the buttons move by.
    pub fn set_step_size(&mut self, step_size: i32)
        ensures
            final(self).step == step_size,
            final(self).id == old(self).id,
            final(self).label == old(self).label,
            final(self).min == old(self).min,
            final(self).max == old(self).max,
            final(self).value == old(self).value,
            final(self).data == old(self).data,
    {
        self.step = step_size;
    }

    /// Reads the current value.
    pub fn get_value(&self) -> (r: i32)
        ensures
            r == self.value,
    {
        self.value
    }
}

} // verus!
