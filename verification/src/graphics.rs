//! Graphics-side value types the window engine needs.

pub mod graphics_types;
