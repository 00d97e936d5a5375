//! Support library for a small bare-metal runtime on a single-board ARM
//! computer.  The heart of the crate is the cooperative green-thread
//! runtime in [`thread`]: a fixed-stack, FIFO-scheduled, voluntarily
//! preemptible execution model.  The remaining modules hold the pure,
//! verified computation behind the board peripherals; the memory-mapped
//! stores and the serial transfers themselves are left to the unverified
//! shell around this library.

pub mod boot;
pub mod cache;
pub mod gpio;
pub mod mailbox;
pub mod sw_uart;
pub mod thread;
pub mod thread_laws;
pub mod timer;
pub mod vector_base;
pub mod wire;
