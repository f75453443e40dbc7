//! The modal UI surface: the window lifecycle engine, the window navigation
//! stack, and vibration patterns.

pub mod vibes;
pub mod window;
pub mod window_stack;
