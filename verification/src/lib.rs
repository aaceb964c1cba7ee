//! Shortcuts for a device bridge: each short command stands for a fixed
//! sequence of external steps, which this library plans and sequences.

pub mod arguments;
pub mod command;
pub mod dispatch;
pub mod invocation;
pub mod order;
pub mod plan;
pub mod words;
