//! The generic interrupt controller: distributor, CPU interface and the
//! handler registry behind one driver.
use vstd::prelude::*;

use crate::bounded::BoundedUsize;
use crate::exception::{
    listing_of, registered_into, spec_register, DispatchError, HandlerTable, IRQContext, IRQHandler,
    IRQHandlerDescriptor, RegisterError,
};
use crate::gicc::{acknowledged_id, GICC};
use crate::gicd::{
    enabled_from, routed_to_boot_core, BANKED_ITARGETSR_WORDS, GICD, INIT_PHASE_ONLY,
    SHARED_ISENABLER_WORDS, SHARED_ITARGETSR_WORDS,
};

verus! {

/// Largest interrupt number this driver handles.
pub const MAX_IRQ_NUMBER: usize = 300;

/// Numbers below this one are private to a core and are left out of the
/// handler listing.
pub const FIRST_SHARED_IRQ: usize = 32;

/// The core that runs the one-time distributor setup.
pub const BOOT_CORE_ID: usize = 0;

/// A validated interrupt number of the generic controller.
pub type IRQNumber = BoundedUsize<MAX_IRQ_NUMBER>;

/// How a dispatch that is not fatal ended.
#[derive(Debug, Clone, Copy, PartialEq, Eq, Structural)]
pub enum Dispatched {
    /// The acknowledged id was above the valid range: nothing was done.
    Spurious(usize),
    /// The handler of this number ran and its completion was signalled.
    Handled(usize),
}

/// The outcome of completing an acknowledged, registered interrupt whose
/// handler returned `handler_result`.
pub open spec fn completion_of(irq_number: usize, handler_result: Result<(), &'static str>) -> Result<
    Dispatched,
    DispatchError,
> {
    match handler_result {
        Ok(()) => Ok(Dispatched::Handled(irq_number)),
        Err(_) => Err(DispatchError::HandlerFailed(irq_number)),
    }
}

/// The ARM generic interrupt controller, version 2.
pub struct GICv2<H> {
    pub gicd: GICD,
    pub gicc: GICC,
    pub handler_table: HandlerTable<MAX_IRQ_NUMBER, H>,
}

impl<H> GICv2<H> {
    /// The distributor's arrays have their hardware lengths and the
    /// registry is well formed.
    pub open spec fn wf(&self) -> bool {
        self.gicd.wf() && self.handler_table.wf()
    }

    /// Everything but the completion log and the registry is as in `old`.
    pub open spec fn same_registers_but_eoir(&self, old: &Self) -> bool {
        &&& self.gicd == old.gicd
        &&& self.gicc.mmio_start_addr == old.gicc.mmio_start_addr
        &&& self.gicc.registers.ctlr == old.gicc.registers.ctlr
        &&& self.gicc.registers.pmr == old.gicc.registers.pmr
        &&& self.gicc.registers.iar == old.gicc.registers.iar
    }
}

impl<H: IRQHandler> GICv2<H> {
    /// Identification string of this driver.
    pub const COMPATIBLE: &'static str = "GICv2 (ARM Generic Interrupt Controller v2)";

    /// A driver for the distributor at `gicd_mmio_start_addr` and the CPU
    /// interface at `gicc_mmio_start_addr`, with an empty registry in its
    /// initialization phase.
    pub fn new(gicd_mmio_start_addr: usize, gicc_mmio_start_addr: usize) -> (r: Self)
        ensures
            r.wf(),
            r.gicd.mmio_start_addr == gicd_mmio_start_addr,
            r.gicc.mmio_start_addr == gicc_mmio_start_addr,
            r.gicc.registers.eoir_writes@.len() == 0,
            r.gicc.registers.ctlr == 0,
            r.gicc.registers.pmr == 0,
            r.gicc.registers.iar == 0,
            r.gicd.shared_registers.ctlr == 0,
            r.gicd.shared_registers.typer == 0,
            r.gicd.banked_registers.isenabler == 0,
            forall|i: int|
                0 <= i < SHARED_ISENABLER_WORDS ==> #[trigger] r.gicd.shared_registers.isenabler@[i] == 0,
            forall|i: int|
                0 <= i < SHARED_ITARGETSR_WORDS ==> #[trigger] r.gicd.shared_registers.itargetsr@[i] == 0,
            forall|i: int|
                0 <= i < BANKED_ITARGETSR_WORDS ==> #[trigger] r.gicd.banked_registers.itargetsr@[i] == 0,
            r.handler_table.spec_is_initializing(),
            forall|n: int| 0 <= n <= MAX_IRQ_NUMBER ==> (#[trigger] r.handler_table@[n]) is None,
    {
        GICv2 {
            gicd: GICD::new(gicd_mmio_start_addr),
            gicc: GICC::new(gicc_mmio_start_addr),
            handler_table: HandlerTable::new(),
        }
    }

    /// Identification string of this driver.
    pub fn compatible(&self) -> (r: &'static str)
        ensures
            r == Self::COMPATIBLE,
    {
        Self::COMPATIBLE
    }

    /// Per-core setup: on the boot core, and only while the registry is
    /// initializing, the distributor setup first; then, on every core, the
    /// priority mask opened fully and the CPU interface enabled.
    pub fn init(&mut self, core_id: usize) -> (r: Result<(), &'static str>)
        requires
            old(self).wf(),
        ensures
            final(self).wf(),
            final(self).handler_table == old(self).handler_table,
            r is Err <==> core_id == BOOT_CORE_ID && !old(self).handler_table.spec_is_initializing(),
            r matches Err(m) ==> m@ == INIT_PHASE_ONLY@ && final(self).gicd == old(self).gicd
                && final(self).gicc == old(self).gicc,
            r is Ok ==> {
                &&& final(self).gicc.registers.pmr == 255
                &&& final(self).gicc.registers.ctlr == 1
                &&& final(self).gicc.registers.iar == old(self).gicc.registers.iar
                &&& final(self).gicc.registers.eoir_writes@ == old(self).gicc.registers.eoir_writes@
                &&& core_id == BOOT_CORE_ID ==> routed_to_boot_core(&old(self).gicd, &final(self).gicd)
                &&& core_id != BOOT_CORE_ID ==> final(self).gicd == old(self).gicd
            },
    {
        if core_id == BOOT_CORE_ID {
            let in_init_phase = self.handler_table.is_initializing();
            let routed = self.gicd.boot_core_init(in_init_phase);
            if routed.is_err() {
                return routed;
            }
        }
        self.gicc.priority_accept_all();
        self.gicc.enable();
        Ok(())
    }

    /// Stores `irq_handler_descriptor` in the registry; see
    /// [`spec_register`] for when it is refused.
    pub fn register_handler(&mut self, irq_handler_descriptor: IRQHandlerDescriptor<IRQNumber, H>) -> (r:
        Result<(), RegisterError>)
        requires
            old(self).wf(),
            irq_handler_descriptor.spec_number().wf(),
        ensures
            final(self).wf(),
            final(self).gicd == old(self).gicd,
            final(self).gicc == old(self).gicc,
            final(self).handler_table.spec_is_initializing() == old(
                self,
            ).handler_table.spec_is_initializing(),
            (final(self).handler_table@, r) == spec_register(
                old(self).handler_table@,
                old(self).handler_table.spec_is_initializing(),
                irq_handler_descriptor,
            ),
            registered_into(
                old(self).handler_table@,
                old(self).handler_table.spec_is_initializing(),
                irq_handler_descriptor.spec_number().spec_get() as int,
                irq_handler_descriptor,
                final(self).handler_table@,
                r,
            ),
    {
        self.handler_table.register(irq_handler_descriptor)
    }

    /// Ends the initialization phase: the registry becomes read-only.
    pub fn finish_init(&mut self)
        requires
            old(self).wf(),
        ensures
            final(self).wf(),
            final(self).gicd == old(self).gicd,
            final(self).gicc == old(self).gicc,
            final(self).handler_table@ == old(self).handler_table@,
            !final(self).handler_table.spec_is_initializing(),
    {
        self.handler_table.finish_init();
    }

    /// Marks interrupt `irq_number` deliverable at the distributor.
    pub fn enable(&mut self, irq_number: &IRQNumber)
        requires
            old(self).wf(),
            irq_number.wf(),
        ensures
            final(self).wf(),
            final(self).gicc == old(self).gicc,
            final(self).handler_table == old(self).handler_table,
            enabled_from(&old(self).gicd, &final(self).gicd, irq_number.spec_get() as int),
    {
        self.gicd.enable(irq_number);
    }

    /// Ends the dispatch of acknowledged, registered interrupt `irq_number`
    /// whose handler returned `handler_result`: on success the completion
    /// is written to the end-of-interrupt register; a failure is returned
    /// as fatal with no completion.
    pub fn complete_irq(
        &mut self,
        irq_number: usize,
        handler_result: Result<(), &'static str>,
        ic: &IRQContext,
    ) -> (r: Result<Dispatched, DispatchError>)
        requires
            irq_number <= MAX_IRQ_NUMBER,
        ensures
            r == completion_of(irq_number, handler_result),
            final(self).handler_table == old(self).handler_table,
            final(self).same_registers_but_eoir(old(self)),
            final(self).gicc.registers.eoir_writes@ == if r is Ok {
                old(self).gicc.registers.eoir_writes@.push(irq_number as u32)
            } else {
                old(self).gicc.registers.eoir_writes@
            },
    {
        match handler_result {
            Ok(()) => {
                let id = irq_number as u32;
                assert(id <= 300 ==> id & 0x3FF == id) by (bit_vector);
                self.gicc.mark_comleted(id, ic);
                Ok(Dispatched::Handled(irq_number))
            },
            Err(_) => Err(DispatchError::HandlerFailed(irq_number)),
        }
    }

    /// Serves one hardware interrupt: acknowledges the highest-priority
    /// pending one; ignores an id above [`MAX_IRQ_NUMBER`] as spurious;
    /// otherwise runs the registered handler and, if it succeeded, writes
    /// the id to the end-of-interrupt register. A missing handler or a
    /// failed one is returned as fatal, with no completion written.
    pub fn handle_pending_irqs(&mut self, ic: &IRQContext) -> (r: Result<Dispatched, DispatchError>)
        requires
            old(self).wf(),
        ensures
            final(self).wf(),
            final(self).handler_table == old(self).handler_table,
            final(self).same_registers_but_eoir(old(self)),
            ({
                let id = acknowledged_id(old(self).gicc.registers.iar) as usize;
                let before = old(self).gicc.registers.eoir_writes@;
                let after = final(self).gicc.registers.eoir_writes@;
                if id > MAX_IRQ_NUMBER {
                    r == Ok::<Dispatched, DispatchError>(Dispatched::Spurious(id)) && after == before
                } else if !old(self).handler_table.is_registered(id as int) {
                    r == Err::<Dispatched, DispatchError>(DispatchError::NoHandlerRegistered(id))
                        && after == before
                } else {
                    ||| r == Ok::<Dispatched, DispatchError>(Dispatched::Handled(id)) && after
                        == before.push(id as u32)
                    ||| r == Err::<Dispatched, DispatchError>(DispatchError::HandlerFailed(id))
                        && after == before
                }
            }),
    {
        let irq_number = self.gicc.pending_irq_number(ic);
        if irq_number > MAX_IRQ_NUMBER {
            return Ok(Dispatched::Spurious(irq_number));
        }
        let handler_result = match self.handler_table.get(irq_number) {
            None => {
                return Err(DispatchError::NoHandlerRegistered(irq_number));
            },
            Some(descriptor) => descriptor.handler().handle(),
        };
        self.complete_irq(irq_number, handler_result, ic)
    }

    /// Numbers and names of the registered handlers of shared interrupts
    /// (from [`FIRST_SHARED_IRQ`] on), ascending, once each.
    pub fn handler_listing(&self) -> (r: Vec<(usize, &'static str)>)
        requires
            self.wf(),
        ensures
            listing_of(self.handler_table@, FIRST_SHARED_IRQ as int, r@),
    {
        self.handler_table.entries(FIRST_SHARED_IRQ)
    }

    /// Name of the handler registered for `irq_number`, if any.
    pub fn registered_name(&self, irq_number: &IRQNumber) -> (r: Option<&'static str>)
        requires
            self.wf(),
            irq_number.wf(),
        ensures
            r is Some <==> self.handler_table.is_registered(irq_number.spec_get() as int),
            r matches Some(name) ==> self.handler_table@[irq_number.spec_get() as int]->Some_0.spec_name()
                == name,
    {
        match self.handler_table.get(irq_number.get()) {
            Some(d) => Some(d.name()),
            None => None,
        }
    }
}

} // verus!
