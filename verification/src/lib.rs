//! Virtual-memory bring-up and peripheral support for a bare-metal AArch64
//! kernel, modelled over explicit hardware state so that every decision the
//! kernel makes is verified.
//!
//! The core is the translation subsystem: an address-space layout declares
//! named virtual ranges with attributes and optional relocation, a builder
//! compiles the layout into hardware-shaped two-level translation tables, and
//! a sequencer performs the capability checks and register writes that switch
//! translation on.

pub mod driver;
pub mod exception;
pub mod gpio;
pub mod layout;
pub mod loader;
pub mod log;
pub mod map;
pub mod mmio;
pub mod mmu;
pub mod sync;
pub mod time;
pub mod translation_table;
pub mod uart;
pub mod uart_driver;
