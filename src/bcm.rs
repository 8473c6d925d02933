//! The vendor peripheral interrupt controller: a pending bitmask scanned
//! lowest bit first, write-one-to-set enable registers, no acknowledgment
//! or end-of-interrupt step; and the controller that fronts it.
use vstd::prelude::*;

use crate::bounded::BoundedUsize;
use crate::exception::{
    lemma_spec_new_parts, listing_of, registered_into, spec_register, DispatchError, HandlerTable, IRQContext, IRQHandler,
    IRQHandlerDescriptor, RegisterError,
};
use crate::pending::{bit_set, lists_bits_below, suffix_of, PendingIRQs};

verus! {

/// Largest core-local interrupt number.
pub const MAX_LOCAL_IRQ_NUMBER: usize = 3;

/// Largest peripheral interrupt number.
pub const MAX_PERIPHERAL_IRQ_NUMBER: usize = 63;

/// A validated core-local interrupt number.
pub type LocalIRQ = BoundedUsize<MAX_LOCAL_IRQ_NUMBER>;

/// A validated peripheral interrupt number.
pub type PeripheralIRQ = BoundedUsize<MAX_PERIPHERAL_IRQ_NUMBER>;

/// A core-local or a peripheral interrupt number.
#[derive(Clone, Copy)]
pub enum IRQNumber {
    Local(LocalIRQ),
    Peripheral(PeripheralIRQ),
}

impl IRQNumber {
    /// The variant's name, as shown in diagnostics.
    pub fn tag(&self) -> (r: &'static str)
        ensures
            self is Local ==> r@ == "Local"@,
            self is Peripheral ==> r@ == "Peripheral"@,
    {
        proof {
            reveal_strlit("Local");
            reveal_strlit("Peripheral");
        }
        match self {
            IRQNumber::Local(_) => "Local",
            IRQNumber::Peripheral(_) => "Peripheral",
        }
    }

    /// The number within its variant.
    pub fn raw(&self) -> (r: usize)
        ensures
            self matches IRQNumber::Local(n) ==> r == n.spec_get(),
            self matches IRQNumber::Peripheral(n) ==> r == n.spec_get(),
    {
        match self {
            IRQNumber::Local(n) => n.get(),
            IRQNumber::Peripheral(n) => n.get(),
        }
    }
}

/// An operation asked of core-local interrupts, which are not implemented.
#[derive(Debug, Clone, Copy, PartialEq, Eq, Structural)]
pub struct Unimplemented;

/// The peripheral controller's register block as plain values: the two
/// pending words (interrupts 0 to 31 and 32 to 63) and the enable state of
/// the same sources. Writing a one to an enable register sets that bit and
/// leaves the others.
pub struct PeripheralRegisters {
    pub pending_1: u32,
    pub pending_2: u32,
    pub enable_1: u32,
    pub enable_2: u32,
}

/// The 64-bit pending snapshot of a register block.
pub open spec fn pending_mask(regs: &PeripheralRegisters) -> u64 {
    ((regs.pending_2 as u64) << 32u64) | (regs.pending_1 as u64)
}

/// Representation of the peripheral interrupt controller.
pub struct PeripheralIC<H> {
    pub mmio_start_addr: usize,
    pub registers: PeripheralRegisters,
    pub handler_table: HandlerTable<MAX_PERIPHERAL_IRQ_NUMBER, H>,
}

impl<H: IRQHandler> PeripheralIC<H> {
    /// A handle on the block at `mmio_start_addr`, all registers clear,
    /// with an empty registry in its initialization phase.
    pub fn new(mmio_start_addr: usize) -> (r: Self)
        ensures
            r.handler_table.wf(),
            r.handler_table.spec_is_initializing(),
            forall|n: int|
                0 <= n <= MAX_PERIPHERAL_IRQ_NUMBER ==> (#[trigger] r.handler_table@[n]) is None,
            r.mmio_start_addr == mmio_start_addr,
            r.registers == (PeripheralRegisters { pending_1: 0, pending_2: 0, enable_1: 0, enable_2: 0 }),
    {
        PeripheralIC {
            mmio_start_addr,
            registers: PeripheralRegisters { pending_1: 0, pending_2: 0, enable_1: 0, enable_2: 0 },
            handler_table: HandlerTable::new(),
        }
    }

    /// A fresh snapshot of the pending registers.
    pub fn pending_irqs(&self) -> (r: PendingIRQs)
        ensures
            r.spec_bitmask() == pending_mask(&self.registers),
    {
        let pending_mask: u64 = ((self.registers.pending_2 as u64) << 32u64)
            | (self.registers.pending_1 as u64);
        PendingIRQs::new(pending_mask)
    }

    /// Sets the enable bit of `irq`: bit `n` of the first enable register
    /// for `n < 32`, else bit `n - 32` of the second.
    pub fn enable(&mut self, irq: &PeripheralIRQ)
        requires
            irq.wf(),
        ensures
            ({
                let n = irq.spec_get();
                if n <= 31 {
                    final(self).registers == PeripheralRegisters {
                        enable_1: old(self).registers.enable_1 | (1u32 << (n as u32)),
                        ..old(self).registers
                    }
                } else {
                    final(self).registers == PeripheralRegisters {
                        enable_2: old(self).registers.enable_2 | (1u32 << ((n - 32) as u32)),
                        ..old(self).registers
                    }
                }
            }),
            final(self).handler_table == old(self).handler_table,
            final(self).mmio_start_addr == old(self).mmio_start_addr,
    {
        let n = irq.get();
        let enable_bit: u32 = 1u32 << ((n % 32) as u32);
        if n <= 31 {
            self.registers.enable_1 = self.registers.enable_1 | enable_bit;
        } else {
            self.registers.enable_2 = self.registers.enable_2 | enable_bit;
        }
    }

    /// Runs the handler of every pending interrupt, lowest number first.
    /// Returns the numbers served; stops at the first pending number with
    /// no handler, or whose handler fails, and returns that as fatal.
    pub fn handle_pending_irqs(&self, ic: &IRQContext) -> (r: Result<Vec<usize>, DispatchError>)
        requires
            self.handler_table.wf(),
        ensures
            ({
                let m = pending_mask(&self.registers);
                let t = self.handler_table;
                &&& r matches Ok(v) ==> lists_bits_below(m, 64, v@) && forall|k: int|
                    0 <= k < v@.len() ==> t.is_registered(#[trigger] v@[k] as int)
                &&& r matches Err(DispatchError::NoHandlerRegistered(n)) ==> bit_set(m, n as int)
                    && !t.is_registered(n as int) && all_registered_below(t, m, n as int)
                &&& r matches Err(DispatchError::HandlerFailed(n)) ==> bit_set(m, n as int)
                    && t.is_registered(n as int) && all_registered_below(t, m, n as int)
            }),
    {
        let ghost orig = pending_mask(&self.registers);
        let mut it = self.pending_irqs();
        let mut served: Vec<usize> = Vec::new();
        let ghost mut lo: int = 0;
        loop
            invariant
                self.handler_table.wf(),
                orig == pending_mask(&self.registers),
                0 <= lo <= 64,
                suffix_of(orig, it.spec_bitmask(), lo),
                lists_bits_below(orig, lo, served@),
                all_registered_below(self.handler_table, orig, lo),
            decreases it.spec_bitmask(),
        {
            let ghost cur = it.spec_bitmask();
            match it.next() {
                None => {
                    proof {
                        crate::pending::lemma_drained(orig, cur, lo, served@);
                        assert forall|k: int| 0 <= k < served@.len() implies self.handler_table.is_registered(
                            #[trigger] served@[k] as int,
                        ) by {
                            assert(bit_set(orig, served@[k] as int));
                        }
                    }
                    return Ok(served);
                },
                Some(irq_number) => {
                    proof {
                        crate::pending::lemma_advance(orig, cur, it.spec_bitmask(), lo, irq_number, served@);
                        assert forall|j: int| lo <= j < irq_number implies !bit_set(orig, j) by {
                            assert(!bit_set(cur, j));
                        }
                    }
                    match self.handler_table.get(irq_number) {
                        None => {
                            return Err(DispatchError::NoHandlerRegistered(irq_number));
                        },
                        Some(descriptor) => {
                            if descriptor.handler().handle().is_err() {
                                return Err(DispatchError::HandlerFailed(irq_number));
                            }
                        },
                    }
                    served.push(irq_number);
                    proof {
                        lo = irq_number + 1;
                    }
                },
            }
        }
    }

    /// Numbers and names of all registered handlers, ascending, once each.
    pub fn handler_listing(&self) -> (r: Vec<(usize, &'static str)>)
        requires
            self.handler_table.wf(),
        ensures
            listing_of(self.handler_table@, 0, r@),
    {
        self.handler_table.entries(0)
    }
}

impl<H: IRQHandler> PeripheralIC<H> {
    /// Stores `irq_handler_descriptor` in the registry; see
    /// [`spec_register`] for when it is refused.
    pub fn register_handler(
        &mut self,
        irq_handler_descriptor: IRQHandlerDescriptor<PeripheralIRQ, H>,
    ) -> (r: Result<(), RegisterError>)
        requires
            old(self).handler_table.wf(),
            irq_handler_descriptor.spec_number().wf(),
        ensures
            final(self).handler_table.wf(),
            final(self).registers == old(self).registers,
            final(self).mmio_start_addr == old(self).mmio_start_addr,
            final(self).handler_table.spec_is_initializing()
                == old(self).handler_table.spec_is_initializing(),
            (final(self).handler_table@, r) == spec_register(
                old(self).handler_table@,
                old(self).handler_table.spec_is_initializing(),
                irq_handler_descriptor,
            ),
            registered_into(
                old(self).handler_table@,
                old(self).handler_table.spec_is_initializing(),
                irq_handler_descriptor.spec_number().spec_get() as int,
                irq_handler_descriptor,
                final(self).handler_table@,
                r,
            ),
    {
        self.handler_table.register(irq_handler_descriptor)
    }
}

/// The vendor interrupt controller: core-local interrupts (not implemented)
/// and the peripheral controller.
pub struct InterruptController<H> {
    pub periph: PeripheralIC<H>,
}

impl<H: IRQHandler> InterruptController<H> {
    /// Identification string of this driver.
    pub const COMPATIBLE: &'static str = "BCM Interrupt Controller";

    /// A driver for the peripheral controller at `periph_mmio_start_addr`.
    pub fn new(periph_mmio_start_addr: usize) -> (r: Self)
        ensures
            r.periph.handler_table.wf(),
            r.periph.handler_table.spec_is_initializing(),
            forall|n: int|
                0 <= n <= MAX_PERIPHERAL_IRQ_NUMBER ==> (#[trigger] r.periph.handler_table@[n]) is None,
            r.periph.mmio_start_addr == periph_mmio_start_addr,
    {
        InterruptController { periph: PeripheralIC::new(periph_mmio_start_addr) }
    }

    /// Identification string of this driver.
    pub fn compatible(&self) -> (r: &'static str)
        ensures
            r == Self::COMPATIBLE,
    {
        Self::COMPATIBLE
    }

    /// Registers a peripheral handler with the peripheral controller; a
    /// core-local one is refused as unimplemented, with nothing changed.
    pub fn register_handler(&mut self, irq_handler_descriptor: IRQHandlerDescriptor<IRQNumber, H>) -> (r:
        Result<(), RegisterError>)
        requires
            old(self).periph.handler_table.wf(),
            irq_handler_descriptor.spec_number() matches IRQNumber::Peripheral(p) ==> p.wf(),
        ensures
            final(self).periph.handler_table.wf(),
            final(self).periph.registers == old(self).periph.registers,
            final(self).periph.handler_table.spec_is_initializing()
                == old(self).periph.handler_table.spec_is_initializing(),
            match irq_handler_descriptor.spec_number() {
                IRQNumber::Local(_) => r == Err::<(), RegisterError>(RegisterError::Unimplemented)
                    && final(self).periph.handler_table@ == old(self).periph.handler_table@,
                IRQNumber::Peripheral(p) => {
                    &&& registered_into(
                        old(self).periph.handler_table@,
                        old(self).periph.handler_table.spec_is_initializing(),
                        p.spec_get() as int,
                        IRQHandlerDescriptor::<PeripheralIRQ, H>::spec_new(
                            p,
                            irq_handler_descriptor.spec_name(),
                            irq_handler_descriptor.spec_handler(),
                        ),
                        final(self).periph.handler_table@,
                        r,
                    )
                    &&& r is Ok ==> {
                        let stored = final(self).periph.handler_table@[p.spec_get() as int]->Some_0;
                        &&& stored.spec_number() == p
                        &&& stored.spec_name() == irq_handler_descriptor.spec_name()
                        &&& stored.spec_handler() == irq_handler_descriptor.spec_handler()
                    }
                },
            },
    {
        let (number, name, handler) = irq_handler_descriptor.into_parts();
        match number {
            IRQNumber::Local(_) => Err(RegisterError::Unimplemented),
            IRQNumber::Peripheral(pirq) => {
                let periph_descriptor = IRQHandlerDescriptor::new(pirq, name, handler);
                let r = self.periph.register_handler(periph_descriptor);
                proof {
                    lemma_spec_new_parts(pirq, name, handler);
                }
                r
            },
        }
    }

    /// Enables a peripheral interrupt; a core-local one is refused as
    /// unimplemented, with nothing changed.
    pub fn enable(&mut self, irq: &IRQNumber) -> (r: Result<(), Unimplemented>)
        requires
            irq matches IRQNumber::Peripheral(p) ==> p.wf(),
        ensures
            final(self).periph.handler_table == old(self).periph.handler_table,
            match *irq {
                IRQNumber::Local(_) => r == Err::<(), Unimplemented>(Unimplemented)
                    && final(self).periph.registers == old(self).periph.registers,
                IRQNumber::Peripheral(p) => r is Ok && if p.spec_get() <= 31 {
                    final(self).periph.registers == PeripheralRegisters {
                        enable_1: old(self).periph.registers.enable_1 | (1u32 << (p.spec_get() as u32)),
                        ..old(self).periph.registers
                    }
                } else {
                    final(self).periph.registers == PeripheralRegisters {
                        enable_2: old(self).periph.registers.enable_2 | (1u32 << ((p.spec_get() - 32) as u32)),
                        ..old(self).periph.registers
                    }
                },
            },
    {
        match irq {
            IRQNumber::Local(_) => Err(Unimplemented),
            IRQNumber::Peripheral(pirq) => {
                self.periph.enable(pirq);
                Ok(())
            },
        }
    }

    /// Dispatches the pending peripheral interrupts; see
    /// [`PeripheralIC::handle_pending_irqs`].
    pub fn handle_pending_irqs(&self, ic: &IRQContext) -> (r: Result<Vec<usize>, DispatchError>)
        requires
            self.periph.handler_table.wf(),
        ensures
            ({
                let m = pending_mask(&self.periph.registers);
                let t = self.periph.handler_table;
                &&& r matches Ok(v) ==> lists_bits_below(m, 64, v@) && forall|k: int|
                    0 <= k < v@.len() ==> t.is_registered(#[trigger] v@[k] as int)
                &&& r matches Err(DispatchError::NoHandlerRegistered(n)) ==> bit_set(m, n as int)
                    && !t.is_registered(n as int) && all_registered_below(t, m, n as int)
                &&& r matches Err(DispatchError::HandlerFailed(n)) ==> bit_set(m, n as int)
                    && t.is_registered(n as int) && all_registered_below(t, m, n as int)
            }),
    {
        self.periph.handle_pending_irqs(ic)
    }

    /// Ends the initialization phase: the registry becomes read-only.
    pub fn finish_init(&mut self)
        requires
            old(self).periph.handler_table.wf(),
        ensures
            final(self).periph.handler_table.wf(),
            final(self).periph.handler_table@ == old(self).periph.handler_table@,
            !final(self).periph.handler_table.spec_is_initializing(),
            final(self).periph.registers == old(self).periph.registers,
    {
        self.periph.handler_table.finish_init();
    }

    /// Numbers and names of all registered handlers, ascending, once each.
    pub fn handler_listing(&self) -> (r: Vec<(usize, &'static str)>)
        requires
            self.periph.handler_table.wf(),
        ensures
            listing_of(self.periph.handler_table@, 0, r@),
    {
        self.periph.handler_listing()
    }
}

/// Every pending bit of `m` below `bound` has a handler in `t`.
pub open spec fn all_registered_below<H>(
    t: HandlerTable<MAX_PERIPHERAL_IRQ_NUMBER, H>,
    m: u64,
    bound: int,
) -> bool {
    forall|i: int| 0 <= i < bound && #[trigger] bit_set(m, i) ==> t.is_registered(i)
}

} // verus!
