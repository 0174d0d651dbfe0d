//! Magnetic-heading indicator core: a periodic sampling loop reads a
//! magnetometer's horizontal field vector, classifies the planar heading into
//! one of eight compass sectors, and lights the matching indicator LED.
//!
//! This crate holds the verified logic: the exact angle-to-sector
//! classification, the glitch-free display update, the install-once shared
//! resource cell, the per-trigger cycle, and the heartbeat counter. Hardware
//! access (bus transactions, GPIO writes, timer configuration) stays outside,
//! behind plain-value boundaries.

pub mod classify;
pub mod cycle;
pub mod direction;
pub mod display;
pub mod fault;
pub mod heartbeat;
pub mod resources;
pub mod sensor;
