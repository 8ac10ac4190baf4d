//! Input-to-output core of a small text-mode kernel console: the
//! interrupt-to-task scancode hand-off, the wake slot that resumes the
//! consuming task, a cooperative scheduler modelled as a state machine over
//! task ids, the line-editing console with its command interpreter, and the
//! writer that lays text out on the character grid.
pub mod commands;
pub mod executor;
pub mod handoff;
pub mod keyboard;
pub mod queue;
pub mod text;
pub mod writer;
