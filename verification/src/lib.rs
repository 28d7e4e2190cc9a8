//! Job scheduling core of the engine: one-shot jobs, the bounded
//! work-stealing queue that holds them, the checked cell that shares a
//! job's state, and the rules by which workers pick their next job.
//!
//! - `job`: the job.
//! - `job_deque`: the queue in one holder's hands, with exact contracts;
//!   `deque_model`: the same as mathematics, with what holds of every run.
//! - `job_buffer`: the queue as a handle that threads share.
//! - `borrow_state`, `job_cell`: the run-time borrow rule and the cell that
//!   keeps it.
//! - `job_system`: the buffers of a pool of workers and the worker's
//!   decisions.
//!
//! Beside the core stand the decisions of the engine around it, on plain
//! values and without any work on the outside: settings and input, the
//! scene, pointers with one owner, the log's rules, and what the renderer
//! and the game loop decide between their pieces of work.

pub mod borrow_state;
pub mod buffers;
pub mod deque_model;
pub mod ecs;
pub mod errors;
pub mod gameloop;
pub mod info;
pub mod input;
pub mod job;
pub mod job_buffer;
pub mod job_cell;
pub mod job_deque;
pub mod job_system;
pub mod log;
pub mod physical_device;
pub mod ptr;
pub mod settings;
pub mod ui_helper;
pub mod video;
pub mod vulkan;
