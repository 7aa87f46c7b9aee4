//! Frame-orchestration core of a GPU particle engine.
//!
//! The crate models the CPU-side decisions a particle renderer makes every
//! frame: the monotonic clock and its frame-parity index that keeps every
//! double-buffered resource in lock-step, the timeline primitive that gates
//! and interpolates time-driven effects, the pending list edits applied to
//! animation and effect collections, the emitter simulation plan, the
//! post-process effect chain with its resize rules, and the tagged
//! export/import form of every configurable instance.
//!
//! All quantities are integers: times are nanoseconds or milliseconds,
//! interpolation runs in parts per million, and fractional parameters are
//! held in micro-units. Everything a GPU queue would execute is produced
//! here as plain dispatch and draw records, so each plan is a value with a
//! proved relation to the state that generated it.

pub mod animation;
pub mod assets;
pub mod bytes;
pub mod clock;
pub mod emitter;
pub mod errors;
pub mod fx;
pub mod lifecycle;
pub mod list_action;
pub mod math;
pub mod persist;
pub mod plan;
pub mod state;
pub mod terrain;
pub mod text;
pub mod traits;

pub use clock::Clock;
pub use lifecycle::LifeCycle;
