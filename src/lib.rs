//! Frame-lifecycle core of a real-time renderer: surface and frame-target
//! sizing, frame pacing, throughput reporting, pointer capture, surface
//! acquisition recovery and the retained overlay state.
//!
//! Every decision is made here on plain values; the windowing and GPU
//! collaborators perform the actions that these functions return.

mod types;

pub use types::{create_shared_mut, Shared};

pub mod frame;
pub mod scheduler;
pub mod gui;
pub mod state;
