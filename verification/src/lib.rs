//! Bootstrap and lifecycle manager for an explicit, low-level graphics
//! backend.
//!
//! The library verifies the decision core of the backend: surface-format,
//! present-mode, extent and image-count selection, physical-device and
//! queue-family resolution, the derived swapchain configuration, and the
//! context state machine whose teardown plan reverses creation order.
//! The foreign-API plumbing that carries these decisions out lives outside
//! the library, hands it plain values (handles as integers, capability
//! tuples, family flags) and receives plain values back.

pub mod context;
pub mod device;
pub mod instance;
pub mod error;
pub mod swapchain;
