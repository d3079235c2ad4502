//! Verified core of a small Raspberry Pi (AArch64) kernel: register and
//! descriptor encodings, translation-table construction, firmware mailbox
//! framing, EDID decoding, and the memory monitor's line handling.

pub mod arm_core;
pub mod bits;
pub mod exception;
pub mod mmu;
pub mod hal;
pub mod peripherals;
pub mod registers;
pub mod screen;
pub mod system;
pub mod monitor;
