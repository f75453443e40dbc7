//! The window lifecycle engine: ordering, slot discipline, rollback on
//! construction failure, and destroy-before-reclaim ordering.

use std::cell::RefCell;
use std::rc::Rc;

use pebble_skip::graphics::graphics_types::Color8;
use pebble_skip::system::{SysEvent, System};
use pebble_skip::user_interface::window::{
    ProtocolViolation, Window, WindowEvent, WindowHandlers, WindowState,
};

/// Handlers that log every callback, with the value they saw.
struct LoggingHandlers {
    log: Rc<RefCell<Vec<String>>>,
    next_value: u32,
}

impl WindowHandlers<u32> for LoggingHandlers {
    fn load(&mut self) -> u32 {
        self.log.borrow_mut().push(format!("load->{}", self.next_value));
        self.next_value
    }

    fn appear(&mut self, data: &mut u32) {
        self.log.borrow_mut().push(format!("appear({})", *data));
        *data += 1;
    }

    fn disappear(&mut self, data: &mut u32) {
        self.log.borrow_mut().push(format!("disappear({})", *data));
    }

    fn unload(&mut self, data: u32) {
        self.log.borrow_mut().push(format!("unload({})", data));
    }
}

fn logging_window(sys: &mut System) -> (Window<u32, LoggingHandlers>, Rc<RefCell<Vec<String>>>) {
    let log = Rc::new(RefCell::new(Vec::new()));
    let handlers = LoggingHandlers { log: Rc::clone(&log), next_value: 10 };
    let w = match Window::new(sys, handlers) {
        Ok(w) => w,
        Err(_) => panic!("window creation should succeed"),
    };
    (w, log)
}

#[test]
fn full_lifecycle_populates_and_consumes_the_slot_once() {
    let mut sys = System::new();
    let (mut w, log) = logging_window(&mut sys);
    assert!(!w.is_loaded());
    assert!(w.handle_event(WindowEvent::Load).is_ok());
    assert!(w.is_loaded());
    assert!(w.handle_event(WindowEvent::Appear).is_ok());
    assert!(w.handle_event(WindowEvent::Disappear).is_ok());
    assert!(w.handle_event(WindowEvent::Unload).is_ok());
    assert!(!w.is_loaded());
    w.destroy(&mut sys);
    assert_eq!(
        *log.borrow(),
        vec![
            "load->10".to_string(),
            "appear(10)".to_string(),
            "disappear(11)".to_string(),
            "unload(11)".to_string(),
        ]
    );
}

#[test]
fn loading_twice_is_a_reported_fatal_condition() {
    let mut sys = System::new();
    let (mut w, _log) = logging_window(&mut sys);
    assert!(w.handle_event(WindowEvent::Load).is_ok());
    let violation = w.handle_event(WindowEvent::Load).unwrap_err();
    assert_eq!(
        violation,
        ProtocolViolation { state: WindowState::Loaded, event: WindowEvent::Load }
    );
    w.destroy(&mut sys);
}

#[test]
fn events_before_load_are_violations_and_change_nothing() {
    let mut sys = System::new();
    let (mut w, log) = logging_window(&mut sys);
    assert_eq!(
        w.handle_event(WindowEvent::Appear).unwrap_err(),
        ProtocolViolation { state: WindowState::Created, event: WindowEvent::Appear }
    );
    assert_eq!(
        w.handle_event(WindowEvent::Unload).unwrap_err(),
        ProtocolViolation { state: WindowState::Created, event: WindowEvent::Unload }
    );
    assert!(log.borrow().is_empty());
    w.destroy(&mut sys);
}

#[test]
fn nothing_follows_unload() {
    let mut sys = System::new();
    let (mut w, _log) = logging_window(&mut sys);
    assert!(w.handle_event(WindowEvent::Load).is_ok());
    assert!(w.handle_event(WindowEvent::Unload).is_ok());
    assert!(w.handle_event(WindowEvent::Appear).is_err());
    assert!(w.handle_event(WindowEvent::Load).is_err());
    w.destroy(&mut sys);
}

#[test]
fn destroy_tells_the_runtime_before_reclaiming_the_record() {
    let mut sys = System::new();
    let (w, _log) = logging_window(&mut sys);
    let id = w.id;
    let before = sys.events.len();
    w.destroy(&mut sys);
    assert_eq!(
        &sys.events[before..],
        &[SysEvent::WindowDestroyed(id), SysEvent::Free, SysEvent::Free]
    );
}

#[test]
fn construction_is_two_allocations_then_the_create_call() {
    let mut sys = System::new();
    let (w, _log) = logging_window(&mut sys);
    assert_eq!(
        sys.events,
        vec![SysEvent::Alloc, SysEvent::Alloc, SysEvent::WindowCreated(w.id)]
    );
    w.destroy(&mut sys);
    assert_eq!(sys.allocation_count(), sys.free_count());
}

#[test]
fn creation_failure_rolls_back_and_returns_the_handlers() {
    let mut sys = System::new();
    sys.window_creation_enabled = false;
    let log = Rc::new(RefCell::new(Vec::new()));
    let handlers = LoggingHandlers { log: Rc::clone(&log), next_value: 5 };
    let err = match Window::<u32, LoggingHandlers>::new(&mut sys, handlers) {
        Ok(_) => panic!("window creation was disabled"),
        Err(e) => e,
    };
    assert_eq!(err.window_handlers.next_value, 5);
    assert_eq!(
        sys.events,
        vec![SysEvent::Alloc, SysEvent::Alloc, SysEvent::Free, SysEvent::Free]
    );
    assert_eq!(sys.allocation_count(), sys.free_count());
}

#[test]
fn first_allocation_failure_returns_the_handlers_untouched() {
    let mut sys = System::with_alloc_fuel(0);
    let log = Rc::new(RefCell::new(Vec::new()));
    let handlers = LoggingHandlers { log, next_value: 5 };
    let err = match Window::<u32, LoggingHandlers>::new(&mut sys, handlers) {
        Ok(_) => panic!("the allocator was out of fuel"),
        Err(e) => e,
    };
    assert_eq!(err.window_handlers.next_value, 5);
    assert!(sys.events.is_empty());
}

#[test]
fn second_allocation_failure_frees_the_first_slot_again() {
    let mut sys = System::with_alloc_fuel(1);
    let log = Rc::new(RefCell::new(Vec::new()));
    let handlers = LoggingHandlers { log, next_value: 5 };
    let err = match Window::<u32, LoggingHandlers>::new(&mut sys, handlers) {
        Ok(_) => panic!("the allocator was out of fuel"),
        Err(e) => e,
    };
    assert_eq!(err.window_handlers.next_value, 5);
    assert_eq!(sys.events, vec![SysEvent::Alloc, SysEvent::Free]);
    assert_eq!(sys.allocation_count(), sys.free_count());
}

#[test]
fn destroy_while_loaded_drops_the_still_present_value() {
    let mut sys = System::new();
    let (mut w, log) = logging_window(&mut sys);
    assert!(w.handle_event(WindowEvent::Load).is_ok());
    w.destroy(&mut sys);
    // The value is dropped with the record: unload never ran.
    assert_eq!(*log.borrow(), vec!["load->10".to_string()]);
    assert_eq!(sys.allocation_count(), sys.free_count());
}

#[test]
fn background_color_is_remembered() {
    let mut sys = System::new();
    let (mut w, _log) = logging_window(&mut sys);
    w.set_background_color(Color8 { argb: 0b11_00_11_00 });
    assert_eq!(w.background_color, Some(Color8 { argb: 0b11_00_11_00 }));
    w.destroy(&mut sys);
}

#[test]
fn windows_get_fresh_identities() {
    let mut sys = System::new();
    let (a, _la) = logging_window(&mut sys);
    let (b, _lb) = logging_window(&mut sys);
    assert_ne!(a.id, b.id);
    a.destroy(&mut sys);
    b.destroy(&mut sys);
}
