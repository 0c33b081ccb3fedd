//! Register-level driver for a single 32-pin GPIO bank.
//!
//! The bank is one contiguous block of 17 memory-mapped 32-bit registers,
//! one bit per pin per register. [`registers::GpioRegisters`] is the image
//! of that block; [`gpio::GpioPin`] maps the abstract pin operations (read,
//! set, clear, toggle, direction and pull-mode changes) to the exact
//! single-bit read-modify-write sequences the layout requires, and
//! [`gpio::Port`] gives indexed access to the 32 pins. Every operation's
//! effect on the register image is stated in its contract and proved; the
//! volatile access to the physical block is the surrounding platform's
//! concern.

pub mod gpio;
pub mod registers;

pub use registers::GpioRegisters;
