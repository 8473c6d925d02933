//! The generic interrupt controller's distributor: shared (cross-core)
//! routing and enable registers, and each core's banked copy of the private
//! ones.
use vstd::prelude::*;

use crate::gicv2::IRQNumber;
use crate::regs::{field_read, field_value};

verus! {

/// Why boot-core setup was refused.
pub const INIT_PHASE_ONLY: &'static str = "Only allowed during kernel init phase";

/// Words of the shared enable bitmap (interrupts 32 and up).
pub const SHARED_ISENABLER_WORDS: usize = 31;
/// Words of the shared routing-target array (interrupts 32 and up).
pub const SHARED_ITARGETSR_WORDS: usize = 248;
/// Words of the banked routing-target array (interrupts 0 to 31).
pub const BANKED_ITARGETSR_WORDS: usize = 8;

/// The distributor's shared register block as plain values: control
/// (global enable at bit 0), type (implemented line count at bits 4:0),
/// the enable bitmap from interrupt 32 on and the routing bytes from
/// interrupt 32 on, four to a word.
pub struct DistributorSharedRegisters {
    pub ctlr: u32,
    pub typer: u32,
    pub isenabler: Vec<u32>,
    pub itargetsr: Vec<u32>,
}

/// The current core's banked register block as plain values: the enable
/// word of interrupts 0 to 31 and their routing bytes.
pub struct DistributorBankedRegisters {
    pub isenabler: u32,
    pub itargetsr: Vec<u32>,
}

/// Representation of the GIC distributor.
///
/// Shared registers are cross-core state: every access goes through
/// `&mut self`, which gives the exclusion a lock gives on hardware. The
/// banked registers are per core and need none.
pub struct GICD {
    pub mmio_start_addr: usize,
    pub shared_registers: DistributorSharedRegisters,
    pub banked_registers: DistributorBankedRegisters,
}

/// Number of interrupt lines that a type register value reports.
pub open spec fn spec_num_irqs(typer: u32) -> int {
    ((typer & 0x1F) as int + 1) * 32
}

/// Number of shared routing words that hold implemented interrupts.
pub open spec fn spec_shared_target_words(typer: u32) -> int {
    (spec_num_irqs(typer) - 32) / 4
}

/// A routing word that sends all four of its interrupts to `mask`.
pub open spec fn target_word(mask: u32) -> u32 {
    ((mask & 0xFF) << 24u32) | ((mask & 0xFF) << 16u32) | ((mask & 0xFF) << 8u32) | (mask & 0xFF)
}

/// Index of the shared enable word that holds interrupt `n` (32 and up).
pub open spec fn shared_enable_word(n: int) -> int {
    n / 32 - 1
}

/// The bit of interrupt `n` within its enable word.
pub open spec fn enable_bit(n: int) -> u32 {
    1u32 << ((n % 32) as u32)
}

/// `new` is `old` after boot-core setup: each implemented shared routing
/// word sends its four interrupts to the mask of `old`'s banked routing byte
/// of interrupt 0, the global enable bit is set, and nothing else changed.
pub open spec fn routed_to_boot_core(old: &GICD, new: &GICD) -> bool {
    &&& new.shared_registers.ctlr == 1
    &&& new.shared_registers.typer == old.shared_registers.typer
    &&& new.shared_registers.isenabler@ == old.shared_registers.isenabler@
    &&& new.shared_registers.itargetsr@.len() == old.shared_registers.itargetsr@.len()
    &&& forall|i: int|
        0 <= i < old.shared_registers.itargetsr@.len() ==> #[trigger] new.shared_registers.itargetsr@[i]
            == if i < spec_shared_target_words(old.shared_registers.typer) {
            target_word(old.banked_registers.itargetsr@[0])
        } else {
            old.shared_registers.itargetsr@[i]
        }
    &&& new.banked_registers == old.banked_registers
    &&& new.mmio_start_addr == old.mmio_start_addr
}

/// `new` is `old` with interrupt `n` enabled: bit `n` of the banked enable
/// word when `n < 32`, else bit `n % 32` of shared enable word `n / 32 - 1`;
/// every other register as it was.
pub open spec fn enabled_from(old: &GICD, new: &GICD, n: int) -> bool {
    &&& if n < 32 {
        &&& new.banked_registers.isenabler == old.banked_registers.isenabler | enable_bit(n)
        &&& new.shared_registers.isenabler@ == old.shared_registers.isenabler@
    } else {
        &&& new.banked_registers.isenabler == old.banked_registers.isenabler
        &&& new.shared_registers.isenabler@ == old.shared_registers.isenabler@.update(
            shared_enable_word(n),
            old.shared_registers.isenabler@[shared_enable_word(n)] | enable_bit(n),
        )
    }
    &&& new.shared_registers.ctlr == old.shared_registers.ctlr
    &&& new.shared_registers.typer == old.shared_registers.typer
    &&& new.shared_registers.itargetsr@ == old.shared_registers.itargetsr@
    &&& new.banked_registers.itargetsr@ == old.banked_registers.itargetsr@
    &&& new.mmio_start_addr == old.mmio_start_addr
}

impl GICD {
    /// The register arrays have their hardware lengths.
    pub open spec fn wf(&self) -> bool {
        &&& self.shared_registers.isenabler@.len() == SHARED_ISENABLER_WORDS
        &&& self.shared_registers.itargetsr@.len() == SHARED_ITARGETSR_WORDS
        &&& self.banked_registers.itargetsr@.len() == BANKED_ITARGETSR_WORDS
    }

    /// A handle on the block at `mmio_start_addr`, all registers clear.
    pub fn new(mmio_start_addr: usize) -> (r: GICD)
        ensures
            r.wf(),
            r.mmio_start_addr == mmio_start_addr,
            r.shared_registers.ctlr == 0,
            r.shared_registers.typer == 0,
            r.banked_registers.isenabler == 0,
            forall|i: int| 0 <= i < SHARED_ISENABLER_WORDS ==> #[trigger] r.shared_registers.isenabler@[i] == 0,
            forall|i: int| 0 <= i < SHARED_ITARGETSR_WORDS ==> #[trigger] r.shared_registers.itargetsr@[i] == 0,
            forall|i: int| 0 <= i < BANKED_ITARGETSR_WORDS ==> #[trigger] r.banked_registers.itargetsr@[i] == 0,
    {
        GICD {
            mmio_start_addr,
            shared_registers: DistributorSharedRegisters {
                ctlr: 0,
                typer: 0,
                isenabler: zeroed(SHARED_ISENABLER_WORDS),
                itargetsr: zeroed(SHARED_ITARGETSR_WORDS),
            },
            banked_registers: DistributorBankedRegisters {
                isenabler: 0,
                itargetsr: zeroed(BANKED_ITARGETSR_WORDS),
            },
        }
    }

    /// Number of interrupt lines this hardware implements, from the type
    /// register.
    fn num_irqs(&self) -> (r: usize)
        ensures
            r == spec_num_irqs(self.shared_registers.typer),
            32 <= r <= 1024,
    {
        let lines = field_read(0x1F, 0, self.shared_registers.typer);
        let typer = self.shared_registers.typer;
        assert((typer & (0x1Fu32 << 0u32)) >> 0u32 == typer & 0x1F) by (bit_vector);
        assert(typer & 0x1F <= 31) by (bit_vector);
        ((lines as usize) + 1) * 32
    }

    /// The current core's own routing mask, from its banked routing byte of
    /// interrupt 0.
    fn local_gic_target_mask(&self) -> (r: u32)
        requires
            self.wf(),
        ensures
            r == self.banked_registers.itargetsr@[0] & 0xFF,
    {
        let w = self.banked_registers.itargetsr[0];
        let r = field_read(0xFF, 0, w);
        assert((w & (0xFFu32 << 0u32)) >> 0u32 == w & 0xFF) by (bit_vector);
        r
    }

    /// Routes every implemented shared interrupt to the current (boot) core
    /// only and sets the distributor's global enable bit. Allowed only while
    /// the kernel initializes: with `in_init_phase` false it refuses and
    /// touches no register.
    pub fn boot_core_init(&mut self, in_init_phase: bool) -> (r: Result<(), &'static str>)
        requires
            old(self).wf(),
        ensures
            final(self).wf(),
            r is Ok <==> in_init_phase,
            r is Ok ==> routed_to_boot_core(old(self), final(self)),
            r matches Err(m) ==> m@ == INIT_PHASE_ONLY@ && *final(self) == *old(self),
    {
        if !in_init_phase {
            proof {
                reveal_strlit("Only allowed during kernel init phase");
            }
            return Err(INIT_PHASE_ONLY);
        }
        let mask = self.local_gic_target_mask();
        let m0 = self.banked_registers.itargetsr[0];
        let word = field_value(0xFF, 24, mask) | field_value(0xFF, 16, mask) | field_value(0xFF, 8, mask)
            | field_value(0xFF, 0, mask);
        assert(((m0 & 0xFF) & 0xFF) << 24u32 | ((m0 & 0xFF) & 0xFF) << 16u32 | ((m0 & 0xFF) & 0xFF)
            << 8u32 | ((m0 & 0xFF) & 0xFF) << 0u32 == ((m0 & 0xFF) << 24u32) | ((m0 & 0xFF) << 16u32)
            | ((m0 & 0xFF) << 8u32) | (m0 & 0xFF)) by (bit_vector);
        let count = (self.num_irqs() - 32) / 4;
        let ghost old_targets = self.shared_registers.itargetsr@;
        let ghost pre = *self;
        let mut i: usize = 0;
        while i < count
            invariant
                count == spec_shared_target_words(self.shared_registers.typer),
                count <= SHARED_ITARGETSR_WORDS,
                0 <= i <= count,
                word == target_word(m0),
                m0 == pre.banked_registers.itargetsr@[0],
                self.wf(),
                old_targets == pre.shared_registers.itargetsr@,
                self.shared_registers.ctlr == pre.shared_registers.ctlr,
                self.shared_registers.typer == pre.shared_registers.typer,
                self.shared_registers.isenabler@ == pre.shared_registers.isenabler@,
                self.banked_registers == pre.banked_registers,
                self.mmio_start_addr == pre.mmio_start_addr,
                forall|k: int|
                    0 <= k < SHARED_ITARGETSR_WORDS ==> #[trigger] self.shared_registers.itargetsr@[k]
                        == if k < i {
                        word
                    } else {
                        old_targets[k]
                    },
            decreases count - i,
        {
            self.shared_registers.itargetsr.set(i, word);
            i = i + 1;
        }
        let enable = field_value(1, 0, 1);
        assert((1u32 & 1u32) << 0u32 == 1u32) by (bit_vector);
        self.shared_registers.ctlr = enable;
        Ok(())
    }

    /// Marks interrupt `irq_num` deliverable. Numbers 0 to 31 set their bit
    /// in the banked enable word; higher numbers set bit `n % 32` of shared
    /// word `(n >> 5) - 1`. No other register changes.
    pub fn enable(&mut self, irq_num: &IRQNumber)
        requires
            old(self).wf(),
            irq_num.wf(),
        ensures
            final(self).wf(),
            enabled_from(old(self), final(self), irq_num.spec_get() as int),
    {
        let irq_num = irq_num.get();
        let enable_reg_index = irq_num >> 5;
        assert(irq_num >> 5 == irq_num / 32) by (bit_vector);
        let enable_bit: u32 = 1u32 << ((irq_num % 32) as u32);
        if irq_num <= 31 {
            self.banked_registers.isenabler = self.banked_registers.isenabler | enable_bit;
        } else {
            let enable_reg_index_shared = enable_reg_index - 1;
            let current = self.shared_registers.isenabler[enable_reg_index_shared];
            self.shared_registers.isenabler.set(enable_reg_index_shared, current | enable_bit);
        }
    }
}

/// A vector of `len` zero words.
fn zeroed(len: usize) -> (r: Vec<u32>)
    ensures
        r@.len() == len,
        forall|i: int| 0 <= i < len ==> #[trigger] r@[i] == 0,
{
    let mut v: Vec<u32> = Vec::new();
    let mut i: usize = 0;
    while i < len
        invariant
            i <= len,
            v@.len() == i,
            forall|k: int| 0 <= k < i ==> #[trigger] v@[k] == 0,
        decreases len - i,
    {
        v.push(0);
        i = i + 1;
    }
    v
}

} // verus!
