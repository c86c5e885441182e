//! Interrupt-controller and multiprocessor bring-up logic of a small x86-64 kernel.
//!
//! The library decides what is written to the local interrupt controller, the
//! external interrupt router and the boot hand-off cells; it hands those
//! accesses back as plain [`registers::Op`] values, which the caller performs on
//! the hardware.
//!
//! Beside it stand the kernel's free list of address ranges and its fallback
//! pseudo-random number generator.

pub mod apic;
pub mod freelist;
pub mod handlers;
pub mod ioapic;
pub mod madt;
pub mod random;
pub mod registers;
pub mod smp;
pub mod timer;
