//! Core logic of a GPU-backed rendering surface: vertex buffer layout
//! arithmetic, fluent render-pipeline construction, bind-group validation,
//! geometry and uniform staging, and the per-frame render state machine.
//!
//! Everything here is plain data and verified decisions. The unverified
//! shell around this crate owns the actual device, surface and queue; it
//! feeds events and acquisition outcomes in, and interprets the descriptors
//! and command lists that come back out.

pub mod bind;
pub mod encode;
pub mod geometry;
pub mod pipeline;
pub mod pass;
pub mod state;
pub mod surface;
pub mod uniform;
pub mod vertex;
