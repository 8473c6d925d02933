use std::cell::Cell;
use std::rc::Rc;

use kernel_irq::bcm::{
    IRQNumber, InterruptController, LocalIRQ, PeripheralIRQ, PeripheralIC, Unimplemented,
};
use kernel_irq::exception::{DispatchError, IRQContext, IRQHandler, IRQHandlerDescriptor, RegisterError};

#[derive(Clone)]
struct Tally {
    calls: Rc<Cell<u32>>,
    fail: bool,
}

impl IRQHandler for Tally {
    fn handle(&self) -> Result<(), &'static str> {
        self.calls.set(self.calls.get() + 1);
        if self.fail {
            Err("failed")
        } else {
            Ok(())
        }
    }
}

fn tally(fail: bool) -> Tally {
    Tally { calls: Rc::new(Cell::new(0)), fail }
}

fn periph(n: usize) -> IRQNumber {
    IRQNumber::Peripheral(PeripheralIRQ::new(n).unwrap())
}

#[test]
fn local_numbers_are_unimplemented() {
    let mut ic: InterruptController<Tally> = InterruptController::new(0x3000);
    let local = IRQNumber::Local(LocalIRQ::new(1).unwrap());
    assert_eq!(
        ic.register_handler(IRQHandlerDescriptor::new(local, "core timer", tally(false))),
        Err(RegisterError::Unimplemented)
    );
    assert_eq!(ic.enable(&local), Err(Unimplemented));
    assert_eq!(ic.periph.registers.enable_1, 0);
    assert_eq!(ic.handler_listing(), vec![]);
}

#[test]
fn peripheral_enable_sets_one_bit() {
    let mut ic: InterruptController<Tally> = InterruptController::new(0x3000);
    assert_eq!(ic.enable(&periph(5)), Ok(()));
    assert_eq!(ic.periph.registers.enable_1, 1 << 5);
    assert_eq!(ic.enable(&periph(40)), Ok(()));
    assert_eq!(ic.periph.registers.enable_2, 1 << 8);
    assert_eq!(ic.enable(&periph(63)), Ok(()));
    assert_eq!(ic.periph.registers.enable_2, (1 << 8) | (1 << 31));
    assert_eq!(ic.periph.registers.enable_1, 1 << 5);
}

#[test]
fn pending_scan_dispatches_ascending() {
    let mut ic: InterruptController<Tally> = InterruptController::new(0x3000);
    assert_eq!(ic.compatible(), "BCM Interrupt Controller");
    let handlers = [tally(false), tally(false), tally(false), tally(false)];
    for (n, h) in [1usize, 3, 32, 9].iter().zip(handlers.iter()) {
        ic.register_handler(IRQHandlerDescriptor::new(periph(*n), "dev", h.clone())).unwrap();
    }
    ic.periph.registers.pending_1 = 0b1010;
    ic.periph.registers.pending_2 = 1;
    let ctx = IRQContext::new();
    assert_eq!(ic.handle_pending_irqs(&ctx), Ok(vec![1, 3, 32]));
    assert_eq!(handlers[0].calls.get(), 1);
    assert_eq!(handlers[1].calls.get(), 1);
    assert_eq!(handlers[2].calls.get(), 1);
    assert_eq!(handlers[3].calls.get(), 0);
}

#[test]
fn pending_scan_with_nothing_pending() {
    let ic: InterruptController<Tally> = InterruptController::new(0x3000);
    let ctx = IRQContext::new();
    assert_eq!(ic.handle_pending_irqs(&ctx), Ok(vec![]));
}

#[test]
fn pending_scan_stops_at_missing_handler() {
    let mut ic: InterruptController<Tally> = InterruptController::new(0x3000);
    let h = tally(false);
    ic.register_handler(IRQHandlerDescriptor::new(periph(1), "dev", h.clone())).unwrap();
    ic.periph.registers.pending_1 = 0b0110;
    let ctx = IRQContext::new();
    assert_eq!(ic.handle_pending_irqs(&ctx), Err(DispatchError::NoHandlerRegistered(2)));
    assert_eq!(h.calls.get(), 1);
}

#[test]
fn pending_scan_stops_at_failed_handler() {
    let mut ic: InterruptController<Tally> = InterruptController::new(0x3000);
    let bad = tally(true);
    let later = tally(false);
    ic.register_handler(IRQHandlerDescriptor::new(periph(33), "bad", bad.clone())).unwrap();
    ic.register_handler(IRQHandlerDescriptor::new(periph(34), "later", later.clone())).unwrap();
    ic.periph.registers.pending_2 = 0b110;
    let ctx = IRQContext::new();
    assert_eq!(ic.handle_pending_irqs(&ctx), Err(DispatchError::HandlerFailed(33)));
    assert_eq!(bad.calls.get(), 1);
    assert_eq!(later.calls.get(), 0);
}

#[test]
fn vendor_registry_duplicate_and_listing() {
    let mut ic: InterruptController<Tally> = InterruptController::new(0x3000);
    assert_eq!(ic.register_handler(IRQHandlerDescriptor::new(periph(10), "uart", tally(false))), Ok(()));
    assert_eq!(
        ic.register_handler(IRQHandlerDescriptor::new(periph(10), "other", tally(false))),
        Err(RegisterError::AlreadyRegistered)
    );
    assert_eq!(ic.register_handler(IRQHandlerDescriptor::new(periph(0), "zero", tally(false))), Ok(()));
    assert_eq!(ic.handler_listing(), vec![(0, "zero"), (10, "uart")]);
    assert_eq!(ic.periph.handler_table.get(10).map(|d| (d.number().get(), d.name())), Some((10, "uart")));
    ic.finish_init();
    assert_eq!(
        ic.register_handler(IRQHandlerDescriptor::new(periph(11), "late", tally(false))),
        Err(RegisterError::InitPhaseOver)
    );
}

#[test]
fn irq_number_tags() {
    let l = IRQNumber::Local(LocalIRQ::new(3).unwrap());
    let p = periph(42);
    assert_eq!((l.tag(), l.raw()), ("Local", 3));
    assert_eq!((p.tag(), p.raw()), ("Peripheral", 42));
}

#[test]
fn peripheral_ic_snapshot() {
    let mut p: PeripheralIC<Tally> = PeripheralIC::new(0x3000);
    p.registers.pending_1 = 0x8000_0000;
    p.registers.pending_2 = 0x8000_0000;
    assert_eq!(p.pending_irqs().into_vec(), vec![31, 63]);
}
