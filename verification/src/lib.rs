//! Per-frame bridge between an immediate-mode GUI's draw-command stream and a
//! fixed-function graphics pipeline, plus normalization of touch and gamepad
//! samples into a synthetic pointer/navigation model.
//!
//! All device access (touch digitizer, gamepad, clock, graphics driver) stays
//! outside this crate; the library works on the plain values those devices
//! produce and states exactly what it computes from them.

pub mod analog;
pub mod input;
pub mod pool;
pub mod replay;
pub mod session;
pub mod texture;
