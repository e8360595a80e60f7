//! Earliest-boot interrupt plumbing for a freestanding x86 target: an
//! interrupt descriptor table assembled entry by entry, the register value that
//! the CPU's table-load instruction consumes, a scancode-to-character
//! keyboard state machine over a text console, and the boot orchestration
//! that sequences them.

pub mod boot;
pub mod console;
pub mod idt;
pub mod keyboard;
