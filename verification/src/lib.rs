//! Trap-dispatch core of a minimal bare-metal kernel.
//!
//! The crate builds the interrupt descriptor table that the processor reads
//! on a fault, encodes each descriptor in the hardware-mandated bit layout,
//! and decides what a fault handler reports and whether the interrupted
//! program resumes.  Everything that touches the machine itself (the table
//! load instruction, the exit port, the raw entry stubs) lives outside this
//! crate; here stand the data, the codec and the decisions, verified.

pub mod exceptions;
pub mod idt;
