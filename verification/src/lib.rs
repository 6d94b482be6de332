//! A replay viewer for recorded heap-allocator states.
//!
//! The crate holds everything the viewer decides: the navigation state, the
//! proportional layout of a step's memory blocks inside a fixed number of
//! terminal columns, and the description of each frame that is to be drawn.
//! Reading the input files and painting a frame onto a terminal are left to
//! the program built around it.

pub mod app;
pub mod data;
pub mod frame;
pub mod input;
pub mod memory_map;
pub mod text;
pub mod ui;
