//! Host-side logic of a GPU cellular automaton: grid sizing, the layout of the
//! GPU resources, the ping-pong discipline of the two cell buffers and the
//! per-frame protocol that drives compute, draw and presentation.

pub mod app;
pub mod arith;
pub mod buffers;
pub mod cli;
pub mod decimal;
pub mod graphics;
pub mod window;
