use std::cell::{Cell, RefCell};
use std::rc::Rc;

use kernel_irq::exception::{DispatchError, IRQContext, IRQHandler, IRQHandlerDescriptor, RegisterError};
use kernel_irq::gicc::GICC;
use kernel_irq::gicd::GICD;
use kernel_irq::gicv2::{Dispatched, IRQNumber, GICv2, BOOT_CORE_ID};

/// Counts its calls and fails on demand.
#[derive(Clone)]
struct Probe {
    calls: Rc<Cell<u32>>,
    fail: bool,
}

impl IRQHandler for Probe {
    fn handle(&self) -> Result<(), &'static str> {
        self.calls.set(self.calls.get() + 1);
        if self.fail {
            Err("device error")
        } else {
            Ok(())
        }
    }
}

#[derive(Clone)]
struct Logger(Rc<RefCell<Vec<&'static str>>>);

impl IRQHandler for Logger {
    fn handle(&self) -> Result<(), &'static str> {
        self.0.borrow_mut().push("handler");
        Ok(())
    }
}

fn probe(fail: bool) -> Probe {
    Probe { calls: Rc::new(Cell::new(0)), fail }
}

fn irq(n: usize) -> IRQNumber {
    IRQNumber::new(n).unwrap()
}

#[test]
fn gicd_enable_private_touches_banked_word_only() {
    let mut d = GICD::new(0x1000);
    d.enable(&irq(5));
    assert_eq!(d.banked_registers.isenabler, 1 << 5);
    assert!(d.shared_registers.isenabler.iter().all(|w| *w == 0));
}

#[test]
fn gicd_enable_shared_sets_word_and_bit() {
    let mut d = GICD::new(0x1000);
    d.enable(&irq(40));
    assert_eq!(d.shared_registers.isenabler[0], 1 << 8);
    assert!(d.shared_registers.isenabler[1..].iter().all(|w| *w == 0));
    assert_eq!(d.banked_registers.isenabler, 0);
    d.enable(&irq(300));
    assert_eq!(d.shared_registers.isenabler[8], 1 << 12);
    d.enable(&irq(32));
    assert_eq!(d.shared_registers.isenabler[0], (1 << 8) | 1);
    d.enable(&irq(31));
    assert_eq!(d.banked_registers.isenabler, 1 << 31);
}

#[test]
fn gicd_boot_core_init_routes_spis_to_boot_core() {
    let mut d = GICD::new(0x1000);
    d.shared_registers.typer = 1; // 64 lines: 32 shared, 8 routing words
    d.banked_registers.itargetsr[0] = 0x0000_0002;
    assert_eq!(d.boot_core_init(true), Ok(()));
    assert_eq!(d.shared_registers.ctlr, 1);
    assert!(d.shared_registers.itargetsr[..8].iter().all(|w| *w == 0x0202_0202));
    assert!(d.shared_registers.itargetsr[8..].iter().all(|w| *w == 0));
}

#[test]
fn gicd_boot_core_init_full_width() {
    let mut d = GICD::new(0x1000);
    d.shared_registers.typer = 0x1F; // 1024 lines
    d.banked_registers.itargetsr[0] = 0x0403_0201;
    assert_eq!(d.boot_core_init(true), Ok(()));
    assert!(d.shared_registers.itargetsr.iter().all(|w| *w == 0x0101_0101));
    let mut none = GICD::new(0x1000);
    assert_eq!(none.boot_core_init(true), Ok(()));
    assert!(none.shared_registers.itargetsr.iter().all(|w| *w == 0));
    assert_eq!(none.shared_registers.ctlr, 1);
}

#[test]
fn gicd_boot_core_init_refused_after_init_phase() {
    let mut d = GICD::new(0x1000);
    d.shared_registers.typer = 1;
    d.banked_registers.itargetsr[0] = 1;
    assert_eq!(d.boot_core_init(false), Err("Only allowed during kernel init phase"));
    assert_eq!(d.shared_registers.ctlr, 0);
    assert!(d.shared_registers.itargetsr.iter().all(|w| *w == 0));
}

#[test]
fn gicc_registers() {
    let mut c = GICC::new(0x2000);
    c.priority_accept_all();
    assert_eq!(c.registers.pmr, 255);
    c.enable();
    assert_eq!(c.registers.ctlr, 1);
    c.registers.iar = 0x1C05;
    let ic = IRQContext::new();
    assert_eq!(c.pending_irq_number(&ic), 5);
    c.mark_comleted(0x7FF, &ic);
    assert_eq!(c.registers.eoir_writes, vec![0x3FF]);
}

#[test]
fn spurious_interrupt_is_ignored() {
    let mut gic: GICv2<Probe> = GICv2::new(0x1000, 0x2000);
    let p = probe(false);
    gic.register_handler(IRQHandlerDescriptor::new(irq(40), "timer", p.clone())).unwrap();
    gic.gicc.registers.iar = 1023;
    let ic = IRQContext::new();
    assert_eq!(gic.handle_pending_irqs(&ic), Ok(Dispatched::Spurious(1023)));
    assert_eq!(p.calls.get(), 0);
    assert!(gic.gicc.registers.eoir_writes.is_empty());
    gic.gicc.registers.iar = 301;
    assert_eq!(gic.handle_pending_irqs(&ic), Ok(Dispatched::Spurious(301)));
    assert!(gic.gicc.registers.eoir_writes.is_empty());
}

#[test]
fn dispatch_calls_handler_once_then_completes() {
    let mut gic: GICv2<Probe> = GICv2::new(0x1000, 0x2000);
    let p = probe(false);
    let other = probe(false);
    gic.register_handler(IRQHandlerDescriptor::new(irq(40), "timer", p.clone())).unwrap();
    gic.register_handler(IRQHandlerDescriptor::new(irq(41), "uart", other.clone())).unwrap();
    gic.gicc.registers.iar = 40;
    let ic = IRQContext::new();
    assert_eq!(gic.handle_pending_irqs(&ic), Ok(Dispatched::Handled(40)));
    assert_eq!(p.calls.get(), 1);
    assert_eq!(other.calls.get(), 0);
    assert_eq!(gic.gicc.registers.eoir_writes, vec![40]);
}

#[test]
fn dispatch_without_handler_is_fatal() {
    let mut gic: GICv2<Probe> = GICv2::new(0x1000, 0x2000);
    gic.gicc.registers.iar = 33;
    let ic = IRQContext::new();
    assert_eq!(gic.handle_pending_irqs(&ic), Err(DispatchError::NoHandlerRegistered(33)));
    assert!(gic.gicc.registers.eoir_writes.is_empty());
}

#[test]
fn failing_handler_is_fatal_without_completion() {
    let mut gic: GICv2<Probe> = GICv2::new(0x1000, 0x2000);
    let p = probe(true);
    gic.register_handler(IRQHandlerDescriptor::new(irq(35), "bad", p.clone())).unwrap();
    gic.gicc.registers.iar = 35;
    let ic = IRQContext::new();
    assert_eq!(gic.handle_pending_irqs(&ic), Err(DispatchError::HandlerFailed(35)));
    assert_eq!(p.calls.get(), 1);
    assert!(gic.gicc.registers.eoir_writes.is_empty());
}

#[test]
fn complete_irq_maps_handler_result() {
    let mut gic: GICv2<Probe> = GICv2::new(0x1000, 0x2000);
    let ic = IRQContext::new();
    assert_eq!(gic.complete_irq(7, Err("x"), &ic), Err(DispatchError::HandlerFailed(7)));
    assert!(gic.gicc.registers.eoir_writes.is_empty());
    assert_eq!(gic.complete_irq(7, Ok(()), &ic), Ok(Dispatched::Handled(7)));
    assert_eq!(gic.gicc.registers.eoir_writes, vec![7]);
}

#[test]
fn gicv2_duplicate_registration() {
    let mut gic: GICv2<Probe> = GICv2::new(0x1000, 0x2000);
    let first = probe(false);
    assert_eq!(gic.register_handler(IRQHandlerDescriptor::new(irq(50), "a", first.clone())), Ok(()));
    assert_eq!(
        gic.register_handler(IRQHandlerDescriptor::new(irq(50), "b", probe(false))),
        Err(RegisterError::AlreadyRegistered)
    );
    assert_eq!(gic.registered_name(&irq(50)), Some("a"));
    gic.gicc.registers.iar = 50;
    let ic = IRQContext::new();
    assert_eq!(gic.handle_pending_irqs(&ic), Ok(Dispatched::Handled(50)));
    assert_eq!(first.calls.get(), 1);
}

#[test]
fn gicv2_init_and_phase() {
    let mut gic: GICv2<Probe> = GICv2::new(0x1000, 0x2000);
    assert_eq!(gic.gicc.registers.pmr, 0);
    assert_eq!(gic.gicd.shared_registers.ctlr, 0);
    assert_eq!(gic.compatible(), "GICv2 (ARM Generic Interrupt Controller v2)");
    gic.gicd.shared_registers.typer = 1;
    gic.gicd.banked_registers.itargetsr[0] = 1;
    assert_eq!(gic.init(BOOT_CORE_ID), Ok(()));
    assert_eq!(gic.gicd.shared_registers.ctlr, 1);
    assert_eq!(gic.gicd.shared_registers.itargetsr[0], 0x0101_0101);
    assert_eq!(gic.gicc.registers.pmr, 255);
    assert_eq!(gic.gicc.registers.ctlr, 1);
    gic.finish_init();
    assert_eq!(
        gic.register_handler(IRQHandlerDescriptor::new(irq(60), "late", probe(false))),
        Err(RegisterError::InitPhaseOver)
    );
    assert_eq!(gic.init(BOOT_CORE_ID), Err("Only allowed during kernel init phase"));
    assert_eq!(gic.init(1), Ok(()));
}

#[test]
fn gicv2_listing_skips_private_numbers() {
    let mut gic: GICv2<Probe> = GICv2::new(0x1000, 0x2000);
    for (n, name) in [(300usize, "top"), (3, "private"), (32, "first shared")] {
        gic.register_handler(IRQHandlerDescriptor::new(irq(n), name, probe(false))).unwrap();
    }
    assert_eq!(gic.handler_listing(), vec![(32, "first shared"), (300, "top")]);
    gic.enable(&irq(300));
    assert_eq!(gic.gicd.shared_registers.isenabler[8], 1 << 12);
}

#[test]
fn dispatch_order_handler_before_completion() {
    let log: Rc<RefCell<Vec<&'static str>>> = Rc::new(RefCell::new(Vec::new()));
    let mut gic: GICv2<Logger> = GICv2::new(0x1000, 0x2000);
    gic.register_handler(IRQHandlerDescriptor::new(irq(36), "log", Logger(log.clone()))).unwrap();
    gic.gicc.registers.iar = 36;
    let ic = IRQContext::new();
    assert_eq!(gic.handle_pending_irqs(&ic), Ok(Dispatched::Handled(36)));
    log.borrow_mut().push("after");
    assert_eq!(*log.borrow(), vec!["handler", "after"]);
    assert_eq!(gic.gicc.registers.eoir_writes, vec![36]);
}
