//! Work/rest cycle enforcement for screen-time health: a break-cycle state
//! machine driven by a monotonic millisecond clock, the rest escalation
//! policy, the multi-display overlay lifecycle, a pointer-drag tracker and the
//! reminder texts shown during a rest.

pub mod cycle;
pub mod drag;
pub mod messages;
pub mod overlay;
pub mod state;
pub mod text;
