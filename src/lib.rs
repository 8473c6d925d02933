//! Interrupt-management core of a bare-metal kernel: a bounded interrupt
//! number, a phase-aware handler registry, the ARM generic interrupt
//! controller (distributor and CPU interface) and a vendor peripheral
//! controller with a pending-bitmask scan.
//!
//! Register blocks are modelled as plain values owned by their driver; the
//! memory-mapped side is bound to them outside this library.
use vstd::prelude::*;

pub mod bcm;
pub mod bounded;
pub mod exception;
pub mod gicc;
pub mod gicd;
pub mod gicv2;
pub mod memory;
pub mod pending;
mod regs;

verus! {

/// The library's name and version.
pub fn version() -> (r: &'static str)
    ensures
        r@ == "kernel_irq version 0.1.0"@,
{
    proof {
        reveal_strlit("kernel_irq version 0.1.0");
    }
    "kernel_irq version 0.1.0"
}

} // verus!
