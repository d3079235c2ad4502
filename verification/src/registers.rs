//! AArch64 system register values.

pub mod mair_el1;
pub mod special;
