//! The generic interrupt controller's per-core CPU interface: priority
//! threshold, interface enable, acknowledgment and end of interrupt.
use vstd::prelude::*;

use crate::exception::IRQContext;
use crate::regs::{field_read, field_value};

verus! {

/// Offset of the control register (enable at bit 0).
pub const CTLR_OFFSET: usize = 0x000;
/// Offset of the priority mask register (priority at bits 7:0).
pub const PMR_OFFSET: usize = 0x004;
/// Offset of the interrupt acknowledge register (id at bits 9:0).
pub const IAR_OFFSET: usize = 0x00C;
/// Offset of the end-of-interrupt register (id at bits 9:0).
pub const EOIR_OFFSET: usize = 0x010;

/// Mask of the 10-bit interrupt id in the acknowledge and end-of-interrupt
/// registers.
pub const INTERRUPT_ID_MASK: u32 = 0x3FF;

/// The CPU interface's register block as plain values.
///
/// `iar` is what the acknowledge register presents; the end-of-interrupt
/// register is write-only, so the block keeps the values written to it, in
/// order.
pub struct CpuInterfaceRegisters {
    pub ctlr: u32,
    pub pmr: u32,
    pub iar: u32,
    pub eoir_writes: Vec<u32>,
}

/// The interrupt id that an acknowledge register value carries.
pub open spec fn acknowledged_id(iar: u32) -> u32 {
    iar & 0x3FF
}

/// Representation of the GIC CPU interface.
pub struct GICC {
    pub mmio_start_addr: usize,
    pub registers: CpuInterfaceRegisters,
}

impl GICC {
    /// A handle on the block at `mmio_start_addr`, all registers clear.
    pub fn new(mmio_start_addr: usize) -> (r: GICC)
        ensures
            r.mmio_start_addr == mmio_start_addr,
            r.registers.ctlr == 0,
            r.registers.pmr == 0,
            r.registers.iar == 0,
            r.registers.eoir_writes@.len() == 0,
    {
        GICC {
            mmio_start_addr,
            registers: CpuInterfaceRegisters { ctlr: 0, pmr: 0, iar: 0, eoir_writes: Vec::new() },
        }
    }

    /// Sets the priority mask to its maximum, so that no interrupt is
    /// filtered by priority.
    pub fn priority_accept_all(&mut self)
        ensures
            final(self).registers.pmr == 255,
            final(self).registers.ctlr == old(self).registers.ctlr,
            final(self).registers.iar == old(self).registers.iar,
            final(self).registers.eoir_writes@ == old(self).registers.eoir_writes@,
            final(self).mmio_start_addr == old(self).mmio_start_addr,
    {
        let v = field_value(0xFF, 0, 255);
        assert((255u32 & 0xFFu32) << 0u32 == 255u32) by (bit_vector);
        self.registers.pmr = v;
    }

    /// Sets the interface's enable bit: the whole control register reads 1.
    pub fn enable(&mut self)
        ensures
            final(self).registers.ctlr == 1,
            final(self).registers.pmr == old(self).registers.pmr,
            final(self).registers.iar == old(self).registers.iar,
            final(self).registers.eoir_writes@ == old(self).registers.eoir_writes@,
            final(self).mmio_start_addr == old(self).mmio_start_addr,
    {
        let v = field_value(1, 0, 1);
        assert((1u32 & 1u32) << 0u32 == 1u32) by (bit_vector);
        self.registers.ctlr = v;
    }

    /// The id of the highest-priority pending interrupt, read from the
    /// acknowledge register; on hardware the read marks it active.
    pub fn pending_irq_number(&self, ic: &IRQContext) -> (r: usize)
        ensures
            r == acknowledged_id(self.registers.iar),
            r <= 0x3FF,
    {
        let id = field_read(INTERRUPT_ID_MASK, 0, self.registers.iar);
        let iar = self.registers.iar;
        assert((iar & (0x3FFu32 << 0u32)) >> 0u32 == iar & 0x3FF) by (bit_vector);
        assert(iar & 0x3FF <= 0x3FF) by (bit_vector);
        id as usize
    }

    /// Signals completion of `irq_number` by writing it to the
    /// end-of-interrupt register.
    pub fn mark_comleted(&mut self, irq_number: u32, ic: &IRQContext)
        ensures
            final(self).registers.eoir_writes@ == old(self).registers.eoir_writes@.push(
                irq_number & 0x3FF,
            ),
            final(self).registers.ctlr == old(self).registers.ctlr,
            final(self).registers.pmr == old(self).registers.pmr,
            final(self).registers.iar == old(self).registers.iar,
            final(self).mmio_start_addr == old(self).mmio_start_addr,
    {
        let v = field_value(INTERRUPT_ID_MASK, 0, irq_number);
        assert((irq_number & 0x3FFu32) << 0u32 == irq_number & 0x3FF) by (bit_vector);
        self.registers.eoir_writes.push(v);
    }
}

} // verus!
