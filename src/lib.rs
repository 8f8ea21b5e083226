//! A small compiler backend: an intermediate representation over fixed-width
//! integers, a slot allocator that reuses released slots, and a backend
//! interface with a flat two-address reference target.

pub mod backend;
pub mod ir;
pub mod slots;
pub mod text;
pub mod x64;

pub use backend::{Backend, BinaryOperation, Integer};
pub use slots::SlotAllocator;
pub use x64::X64Backend;
