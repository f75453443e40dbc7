//! The window navigation stack: push brings a window to the top, remove
//! takes it out wherever it is, pop works topmost first.

use pebble_skip::system::System;
use pebble_skip::user_interface::window::{Window, WindowHandlers};
use pebble_skip::user_interface::window_stack;

struct NoopHandlers;

impl WindowHandlers<()> for NoopHandlers {
    fn load(&mut self) {}

    fn appear(&mut self, _data: &mut ()) {}

    fn disappear(&mut self, _data: &mut ()) {}

    fn unload(&mut self, _data: ()) {}
}

fn plain_window(sys: &mut System) -> Window<(), NoopHandlers> {
    match Window::new(sys, NoopHandlers) {
        Ok(w) => w,
        Err(_) => panic!("window creation should succeed"),
    }
}

#[test]
fn stack_starts_empty() {
    let sys = System::new();
    assert!(window_stack::is_empty(&sys));
}

#[test]
fn show_and_dismiss_drive_the_stack() {
    let mut sys = System::new();
    let w = plain_window(&mut sys);
    assert!(!window_stack::contains_window(&sys, w.as_ref()));
    w.show(&mut sys, true);
    assert!(window_stack::contains_window(&sys, w.as_ref()));
    assert!(!window_stack::is_empty(&sys));
    assert!(w.dismiss(&mut sys, false));
    assert!(!w.dismiss(&mut sys, false));
    assert!(window_stack::is_empty(&sys));
    w.destroy(&mut sys);
}

#[test]
fn push_moves_a_window_to_the_top() {
    let mut sys = System::new();
    let a = plain_window(&mut sys);
    let b = plain_window(&mut sys);
    window_stack::push(&mut sys, a.as_ref(), false);
    window_stack::push(&mut sys, b.as_ref(), false);
    assert_eq!(sys.window_stack, vec![a.id, b.id]);
    window_stack::push(&mut sys, a.as_ref(), false);
    assert_eq!(sys.window_stack, vec![b.id, a.id]);
    a.destroy(&mut sys);
    b.destroy(&mut sys);
}

#[test]
fn pop_removes_topmost_first() {
    let mut sys = System::new();
    let a = plain_window(&mut sys);
    let b = plain_window(&mut sys);
    window_stack::push(&mut sys, a.as_ref(), false);
    window_stack::push(&mut sys, b.as_ref(), false);
    assert!(window_stack::pop(&mut sys, false));
    assert_eq!(sys.window_stack, vec![a.id]);
    assert!(window_stack::pop(&mut sys, false));
    assert!(!window_stack::pop(&mut sys, false));
    a.destroy(&mut sys);
    b.destroy(&mut sys);
}

#[test]
fn pop_all_clears_the_stack() {
    let mut sys = System::new();
    let a = plain_window(&mut sys);
    let b = plain_window(&mut sys);
    window_stack::push(&mut sys, a.as_ref(), false);
    window_stack::push(&mut sys, b.as_ref(), false);
    window_stack::pop_all(&mut sys, false);
    assert!(window_stack::is_empty(&sys));
    a.destroy(&mut sys);
    b.destroy(&mut sys);
}

#[test]
fn remove_takes_a_window_out_of_the_middle() {
    let mut sys = System::new();
    let a = plain_window(&mut sys);
    let b = plain_window(&mut sys);
    let c = plain_window(&mut sys);
    window_stack::push(&mut sys, a.as_ref(), false);
    window_stack::push(&mut sys, b.as_ref(), false);
    window_stack::push(&mut sys, c.as_ref(), false);
    assert!(window_stack::remove(&mut sys, b.as_ref(), false));
    assert_eq!(sys.window_stack, vec![a.id, c.id]);
    assert!(!window_stack::remove(&mut sys, b.as_ref(), false));
    a.destroy(&mut sys);
    b.destroy(&mut sys);
    c.destroy(&mut sys);
}

#[test]
fn stack_calls_leave_the_allocator_trace_alone() {
    let mut sys = System::new();
    let w = plain_window(&mut sys);
    let before = sys.events.len();
    w.show(&mut sys, true);
    assert!(w.dismiss(&mut sys, true));
    window_stack::pop_all(&mut sys, false);
    assert_eq!(sys.events.len(), before);
    w.destroy(&mut sys);
}
