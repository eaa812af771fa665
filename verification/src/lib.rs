//! Start-up and run-time skeleton of a windowed graphics program: the settings it
//! starts from, and the decisions of its two loops, the one that pumps window
//! events and the one that renders.

pub mod dispatch;
pub mod fault;
pub mod protocol;
pub mod render;
pub mod settings;
pub mod signal;
pub mod window;
