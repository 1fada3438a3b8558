//! Process-control syscalls of a small teaching kernel: the per-task
//! accounting record and the handlers for exit, yield, time and task info.
pub mod config;
pub mod process;
pub mod task;
