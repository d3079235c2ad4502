pub mod clocks;
pub mod counter;
pub mod display;
pub mod framebuffer;
pub mod info;
pub mod led;
pub mod thread;
pub mod time_order;
