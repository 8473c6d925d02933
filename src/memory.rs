//! The kernel's virtual memory layout: translation descriptors for special
//! regions and the lookup of a virtual address's output address and
//! attributes.
use vstd::prelude::*;
use vstd::std_specs::bits::{axiom_u64_trailing_zeros, u64_trailing_zeros};

verus! {

/// Why the memory management unit could not be enabled.
#[derive(Debug, Clone, Copy)]
pub enum MMUEnableError {
    AlreadyEnabled,
    Other(&'static str),
}

impl MMUEnableError {
    /// Human-readable text of the error.
    pub fn message(&self) -> (r: &'static str)
        ensures
            self is AlreadyEnabled ==> r@ == "MMU is already enabled"@,
            self matches MMUEnableError::Other(x) ==> r == x,
    {
        proof {
            reveal_strlit("MMU is already enabled");
        }
        match self {
            MMUEnableError::AlreadyEnabled => "MMU is already enabled",
            MMUEnableError::Other(x) => x,
        }
    }
}

/// Memory management operations of an architecture.
pub trait MMU {
    /// Installs the translation tables of the kernel layout and turns the
    /// unit and caching on.
    fn enable_mmu_and_caching(&self) -> Result<(), MMUEnableError>;

    /// Whether the unit is enabled.
    fn is_enabled(&self) -> bool;
}

/// `n` is a power of two.
pub open spec fn is_power_of_two(n: u64) -> bool {
    n != 0 && n & ((n - 1) as u64) == 0
}

/// The base-two logarithm of a power of two.
fn log2_of_power(n: usize) -> (r: usize)
    requires
        is_power_of_two(n as u64),
    ensures
        r < 64,
        r == u64_trailing_zeros(n as u64),
{
    let t = (n as u64).trailing_zeros();
    proof {
        axiom_u64_trailing_zeros(n as u64);
    }
    t as usize
}

/// A translation granule of `GRANULE_SIZE` bytes.
pub struct TranslationGranule<const GRANULE_SIZE: usize>;

impl<const GRANULE_SIZE: usize> TranslationGranule<GRANULE_SIZE> {
    /// The granule's size, which must be a power of two.
    pub fn size_checked() -> (r: usize)
        requires
            is_power_of_two(GRANULE_SIZE as u64),
        ensures
            r == GRANULE_SIZE,
    {
        GRANULE_SIZE
    }

    /// The granule's shift, the base-two logarithm of its size.
    pub fn shift() -> (r: usize)
        requires
            is_power_of_two(GRANULE_SIZE as u64),
        ensures
            r == u64_trailing_zeros(GRANULE_SIZE as u64),
    {
        log2_of_power(GRANULE_SIZE)
    }
}

/// Size of one top-level translation table's reach: 512 MiB.
pub const GRANULE_512_MIB: usize = 0x2000_0000;

/// Largest address space the architecture supports: 48 bits.
pub const MAX_ADDRESS_SPACE_SIZE: u64 = 0x1_0000_0000_0000;

/// An address space of `AS_SIZE` bytes.
pub struct AddressSpace<const AS_SIZE: usize>;

impl<const AS_SIZE: usize> AddressSpace<AS_SIZE> {
    /// The address space size, which must be a power of two, a whole
    /// number of 512 MiB tables and at most 48 bits wide.
    pub fn size_checked() -> (r: usize)
        requires
            is_power_of_two(AS_SIZE as u64),
            AS_SIZE % GRANULE_512_MIB == 0,
            AS_SIZE as u64 <= MAX_ADDRESS_SPACE_SIZE,
        ensures
            r == AS_SIZE,
    {
        AS_SIZE
    }

    /// The address space shift, the base-two logarithm of its size.
    pub fn size_shift() -> (r: usize)
        requires
            is_power_of_two(AS_SIZE as u64),
        ensures
            r == u64_trailing_zeros(AS_SIZE as u64),
    {
        log2_of_power(AS_SIZE)
    }
}

/// How a region's physical addresses follow from its virtual ones.
#[derive(Debug, Clone, Copy, PartialEq, Eq, Structural)]
pub enum Translation {
    /// Physical equals virtual.
    Identity,
    /// The region starts at this physical address.
    Offset(usize),
}

/// Memory type of a region.
#[derive(Debug, Clone, Copy, PartialEq, Eq, Structural)]
pub enum MemAttributes {
    CacheableDRAM,
    Device,
}

/// Access permissions of a region.
#[derive(Debug, Clone, Copy, PartialEq, Eq, Structural)]
pub enum AccessPermissions {
    ReadOnly,
    ReadWrite,
}

/// Attributes of a region.
#[derive(Debug, Clone, Copy, PartialEq, Eq, Structural)]
pub struct AttributeFields {
    pub mem_attributes: MemAttributes,
    pub acc_perms: AccessPermissions,
    pub execute_never: bool,
}

/// Attributes of ordinary memory: cacheable, read-write, never executed.
pub open spec fn default_attributes() -> AttributeFields {
    AttributeFields {
        mem_attributes: MemAttributes::CacheableDRAM,
        acc_perms: AccessPermissions::ReadWrite,
        execute_never: true,
    }
}

impl Default for AttributeFields {
    fn default() -> (r: AttributeFields)
        ensures
            r == default_attributes(),
    {
        AttributeFields {
            mem_attributes: MemAttributes::CacheableDRAM,
            acc_perms: AccessPermissions::ReadWrite,
            execute_never: true,
        }
    }
}

/// A special region of the layout: its name, its inclusive virtual range,
/// its translation and its attributes.
#[derive(Clone, Copy)]
pub struct TranslationDescriptor {
    pub name: &'static str,
    pub virtual_start: usize,
    pub virtual_end: usize,
    pub physical_range_translation: Translation,
    pub attribute_fields: AttributeFields,
}

/// The parts of a descriptor's one-line summary.
pub struct DescriptorSummary {
    pub start: usize,
    pub end: usize,
    pub size: usize,
    pub unit: &'static str,
    pub attributes: &'static str,
    pub permissions: &'static str,
    pub execute: &'static str,
    pub name: &'static str,
}

/// Bytes in a kibibyte.
pub const KIB: usize = 1024;
/// Bytes in a mebibyte.
pub const MIB: usize = 1024 * 1024;
/// Bytes in a gibibyte.
pub const GIB: usize = 1024 * 1024 * 1024;

/// Size of the largest unit (GiB, MiB, KiB, byte) that holds at most `size`
/// bytes, or 1 below a KiB.
pub open spec fn human_unit(size: usize) -> int {
    if size / GIB > 0 {
        GIB as int
    } else if size / MIB > 0 {
        MIB as int
    } else if size / KIB > 0 {
        KIB as int
    } else {
        1
    }
}

/// Name of [`human_unit`].
pub open spec fn human_unit_name(size: usize) -> Seq<char> {
    if size / GIB > 0 {
        "GiB"@
    } else if size / MIB > 0 {
        "MiB"@
    } else if size / KIB > 0 {
        "KiB"@
    } else {
        "Byte"@
    }
}

/// Rounding up a division adds one exactly when there is a remainder.
proof fn lemma_div_ceil(s: int, u: int)
    requires
        s >= 0,
        u > 0,
    ensures
        (s + u - 1) / u == s / u + if s % u == 0 { 0int } else { 1int },
{
    let q = s / u;
    let r = s % u;
    assert(s == q * u + r && 0 <= r < u) by (nonlinear_arith)
        requires
            u > 0,
            q == s / u,
            r == s % u,
    ;
    if r == 0 {
        assert((q * u + u - 1) / u == q) by (nonlinear_arith)
            requires
                u > 0,
        ;
    } else {
        assert((q * u + r + u - 1) / u == q + 1) by (nonlinear_arith)
            requires
                u > 0,
                0 < r < u,
        ;
    }
}

/// `size` bytes in the largest unit that holds at least one, rounded up.
pub fn size_human_readable_ceil(size: usize) -> (r: (usize, &'static str))
    ensures
        r.0 == (size as int + human_unit(size) - 1) / human_unit(size),
        r.1@ == human_unit_name(size),
{
    proof {
        reveal_strlit("GiB");
        reveal_strlit("MiB");
        reveal_strlit("KiB");
        reveal_strlit("Byte");
        lemma_div_ceil(size as int, human_unit(size));
        assert(size / 1024 < usize::MAX) by (nonlinear_arith)
            requires
                size <= usize::MAX,
        ;
        assert(size / 1048576 <= size / 1024) by (nonlinear_arith);
        assert(size / 1073741824 <= size / 1024) by (nonlinear_arith);
    }
    if size / GIB > 0 {
        (size / GIB + if size % GIB == 0 { 0 } else { 1 }, "GiB")
    } else if size / MIB > 0 {
        (size / MIB + if size % MIB == 0 { 0 } else { 1 }, "MiB")
    } else if size / KIB > 0 {
        (size / KIB + if size % KIB == 0 { 0 } else { 1 }, "KiB")
    } else {
        (size, "Byte")
    }
}

impl TranslationDescriptor {
    /// The range is ordered, its size fits a `usize`, and an offset
    /// translation of its last address fits too.
    pub open spec fn wf(&self) -> bool {
        &&& self.virtual_start <= self.virtual_end
        &&& self.virtual_end - self.virtual_start < usize::MAX
        &&& self.physical_range_translation matches Translation::Offset(a) ==> a + (self.virtual_end
            - self.virtual_start) <= usize::MAX
    }

    /// An offset translation of `virt_addr` fits a `usize`.
    pub open spec fn fits(&self, virt_addr: usize) -> bool {
        self.physical_range_translation matches Translation::Offset(a) ==> a + (virt_addr
            - self.virtual_start) <= usize::MAX
    }

    /// Whether the region covers `virt_addr`.
    pub open spec fn contains(&self, virt_addr: usize) -> bool {
        self.virtual_start <= virt_addr <= self.virtual_end
    }

    /// The physical address of `virt_addr`, within the region.
    pub open spec fn translate(&self, virt_addr: usize) -> usize {
        match self.physical_range_translation {
            Translation::Identity => virt_addr,
            Translation::Offset(a) => (a + (virt_addr - self.virtual_start)) as usize,
        }
    }

    /// The parts of the region's one-line summary: its range, its size in
    /// a readable unit, and short names of its attributes.
    pub fn summary(&self) -> (r: DescriptorSummary)
        requires
            self.wf(),
        ensures
            r.start == self.virtual_start,
            r.end == self.virtual_end,
            r.size == (self.virtual_end - self.virtual_start + 1 + human_unit(
                (self.virtual_end - self.virtual_start + 1) as usize,
            ) - 1) / human_unit((self.virtual_end - self.virtual_start + 1) as usize),
            r.unit@ == human_unit_name((self.virtual_end - self.virtual_start + 1) as usize),
            r.attributes@ == if self.attribute_fields.mem_attributes is CacheableDRAM {
                "C"@
            } else {
                "Dev"@
            },
            r.permissions@ == if self.attribute_fields.acc_perms is ReadOnly {
                "RO"@
            } else {
                "RW"@
            },
            r.execute@ == if self.attribute_fields.execute_never {
                "PXN"@
            } else {
                "PX"@
            },
            r.name == self.name,
    {
        proof {
            reveal_strlit("C");
            reveal_strlit("Dev");
            reveal_strlit("RO");
            reveal_strlit("RW");
            reveal_strlit("PXN");
            reveal_strlit("PX");
        }
        let start = self.virtual_start;
        let end = self.virtual_end;
        let (size, unit) = size_human_readable_ceil(end - start + 1);
        let attributes = match self.attribute_fields.mem_attributes {
            MemAttributes::CacheableDRAM => "C",
            MemAttributes::Device => "Dev",
        };
        let permissions = match self.attribute_fields.acc_perms {
            AccessPermissions::ReadOnly => "RO",
            AccessPermissions::ReadWrite => "RW",
        };
        let execute = if self.attribute_fields.execute_never {
            "PXN"
        } else {
            "PX"
        };
        DescriptorSummary { start, end, size, unit, attributes, permissions, execute, name: self.name }
    }
}

/// Output address and attributes of `virt_addr` under the first region of
/// `inner` that covers it; identity and ordinary memory if none does.
pub open spec fn lookup(inner: Seq<TranslationDescriptor>, virt_addr: usize) -> (usize, AttributeFields)
    decreases inner.len(),
{
    if inner.len() == 0 {
        (virt_addr, default_attributes())
    } else if inner[0].contains(virt_addr) {
        (inner[0].translate(virt_addr), inner[0].attribute_fields)
    } else {
        lookup(inner.drop_first(), virt_addr)
    }
}

/// The kernel's virtual address space: its last address and its special
/// regions.
pub struct KernelVirtualLayout<const NUM_SPECIAL_RANGES: usize> {
    max_virt_addr_inclusive: usize,
    inner: [TranslationDescriptor; NUM_SPECIAL_RANGES],
}

impl<const NUM_SPECIAL_RANGES: usize> KernelVirtualLayout<NUM_SPECIAL_RANGES> {
    /// The last address of the address space.
    pub closed spec fn spec_max(&self) -> usize {
        self.max_virt_addr_inclusive
    }

    /// The special regions, in order.
    pub closed spec fn view(&self) -> Seq<TranslationDescriptor> {
        self.inner@
    }

    /// Every region that covers `virt_addr` translates it without overflow.
    pub open spec fn translates(&self, virt_addr: usize) -> bool {
        forall|i: int| 0 <= i < self@.len() && (#[trigger] self@[i]).contains(virt_addr) ==> self@[i].fits(virt_addr)
    }

    /// A layout ending at `max` with the regions `layout`.
    pub fn new(max: usize, layout: [TranslationDescriptor; NUM_SPECIAL_RANGES]) -> (r: Self)
        ensures
            r.spec_max() == max,
            r@ == layout@,
    {
        KernelVirtualLayout { max_virt_addr_inclusive: max, inner: layout }
    }

    /// The output address and attributes of `virt_addr`: an error above the
    /// last address; otherwise the first region that covers it decides, and
    /// an address in no region maps to itself as ordinary memory.
    pub fn virt_addr_properties(&self, virt_addr: usize) -> (r: Result<(usize, AttributeFields), &'static str>)
        requires
            virt_addr <= self.spec_max() ==> self.translates(virt_addr),
        ensures
            virt_addr > self.spec_max() ==> (r matches Err(m) && m@ == "Address out of range"@),
            virt_addr <= self.spec_max() ==> r == Ok::<(usize, AttributeFields), &'static str>(
                lookup(self@, virt_addr),
            ),
    {
        if virt_addr > self.max_virt_addr_inclusive {
            proof {
                reveal_strlit("Address out of range");
            }
            return Err("Address out of range");
        }
        let mut i: usize = 0;
        assert(self@.subrange(0, NUM_SPECIAL_RANGES as int) =~= self@);
        while i < NUM_SPECIAL_RANGES
            invariant
                virt_addr <= self.spec_max(),
                self.translates(virt_addr),
                self@.len() == NUM_SPECIAL_RANGES,
                0 <= i <= NUM_SPECIAL_RANGES,
                lookup(self@, virt_addr) == lookup(self@.subrange(i as int, NUM_SPECIAL_RANGES as int), virt_addr),
            decreases NUM_SPECIAL_RANGES - i,
        {
            let d = &self.inner[i];
            assert(self@.subrange(i as int, NUM_SPECIAL_RANGES as int)[0] == self@[i as int]);
            if d.virtual_start <= virt_addr && virt_addr <= d.virtual_end {
                assert(self@[i as int].contains(virt_addr));
                let output_addr = match d.physical_range_translation {
                    Translation::Identity => virt_addr,
                    Translation::Offset(a) => a + (virt_addr - d.virtual_start),
                };
                return Ok((output_addr, d.attribute_fields));
            }
            assert(self@.subrange(i as int, NUM_SPECIAL_RANGES as int).drop_first() =~= self@.subrange(
                i + 1,
                NUM_SPECIAL_RANGES as int,
            ));
            i = i + 1;
        }
        assert(self@.subrange(NUM_SPECIAL_RANGES as int, NUM_SPECIAL_RANGES as int).len() == 0);
        Ok((virt_addr, AttributeFields::default()))
    }

    /// The special regions, in order.
    pub fn descriptors(&self) -> (r: &[TranslationDescriptor; NUM_SPECIAL_RANGES])
        ensures
            r@ == self@,
    {
        &self.inner
    }
}

} // verus!
