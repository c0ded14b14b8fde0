//! Typed access to memory-mapped registers of an xHCI host controller's
//! extended capabilities: the Debug Capability (DbC) register block and the
//! Extended Message Interrupt register block.
//!
//! A [`accessor::Mapper`] turns an address into a single volatile read or
//! write, a [`accessor::Single`] binds one fixed address to one typed
//! register, and each register type exposes getters and setters for its named
//! bit fields with the masking discipline its access category demands
//! (read-only, write-only, read-write, write-1-to-clear, write-1-to-set).

pub mod accessor;
pub mod bits;
pub mod extended_capabilities;

use vstd::prelude::*;

verus! {

/// A struct which initializes the host controller.
pub struct HcInitializer;

} // verus!
