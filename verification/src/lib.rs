//! Hardware-abstraction layer for the SAM3X8E power-management controller:
//! master-clock configuration (builder, freeze algorithm, frozen clock
//! record) and per-peripheral clock gating.

pub mod pmc;
pub mod regs;
pub mod time;
