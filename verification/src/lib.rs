//! Core of a bare-metal kernel's early boot sequence: a bump allocator for
//! DMA-visible memory, a hot-swappable console abstraction, an exception
//! vector / fault-recovery subsystem, a single-core mutual-exclusion cell,
//! and the checkpointed bring-up orchestrator that drives them.

pub mod bringup;
pub mod console;
pub mod exception;
pub mod memory;
pub mod sync;
