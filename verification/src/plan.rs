//! Records of the GPU work a frame plans.
//!
//! The engine never assumes synchronous completion: all compute and render
//! work is first laid out as plain records, in submission order, and only
//! then handed to a device queue. Each record carries the bind-group parity
//! it was planned against, so the double-buffering discipline is visible in
//! the plan itself.

use vstd::prelude::*;

verus! {

/// One compute dispatch: which bind group orientation it binds and its
/// workgroup counts.
#[derive(Clone, Copy, Debug, PartialEq, Eq, Structural)]
pub struct DispatchRecord {
    /// Index into the owning resource's bind-group pair.
    pub bind_group_nr: usize,
    pub count_x: u32,
    pub count_y: u32,
    pub count_z: u32,
}

/// One instanced draw: which bind group orientation it samples, how many
/// instances it draws, and whether it additionally binds the light
/// emitter's stable buffer.
#[derive(Clone, Copy, Debug, PartialEq, Eq, Structural)]
pub struct DrawRecord {
    /// Index into the emitter's bind-group pair: always the alternate
    /// parity, holding last-written stable data.
    pub bind_group_nr: usize,
    /// Number of particle instances drawn.
    pub instance_count: u64,
    /// Non-light emitters sample the light emitter's buffer as well.
    pub binds_light_buffer: bool,
}

} // verus!
