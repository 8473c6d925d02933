use kernel_irq::memory::{
    size_human_readable_ceil, AccessPermissions, AddressSpace, AttributeFields, KernelVirtualLayout,
    MMUEnableError, MemAttributes, Translation, TranslationDescriptor, TranslationGranule,
};
use kernel_irq::version;

fn device() -> AttributeFields {
    AttributeFields {
        mem_attributes: MemAttributes::Device,
        acc_perms: AccessPermissions::ReadWrite,
        execute_never: true,
    }
}

fn layout() -> KernelVirtualLayout<2> {
    KernelVirtualLayout::new(
        0x3FFF_FFFF,
        [
            TranslationDescriptor {
                name: "Kernel code and RO data",
                virtual_start: 0x8_0000,
                virtual_end: 0xF_FFFF,
                physical_range_translation: Translation::Identity,
                attribute_fields: AttributeFields {
                    mem_attributes: MemAttributes::CacheableDRAM,
                    acc_perms: AccessPermissions::ReadOnly,
                    execute_never: false,
                },
            },
            TranslationDescriptor {
                name: "Device MMIO",
                virtual_start: 0x1FFF_0000,
                virtual_end: 0x1FFF_FFFF,
                physical_range_translation: Translation::Offset(0x3F00_0000),
                attribute_fields: device(),
            },
        ],
    )
}

#[test]
fn lookup_out_of_range() {
    assert_eq!(layout().virt_addr_properties(0x4000_0000).err(), Some("Address out of range"));
    assert_eq!(layout().virt_addr_properties(usize::MAX).err(), Some("Address out of range"));
}

#[test]
fn lookup_identity_offset_and_default() {
    let l = layout();
    let (a, attr) = l.virt_addr_properties(0x8_1000).unwrap();
    assert_eq!(a, 0x8_1000);
    assert_eq!(attr.acc_perms, AccessPermissions::ReadOnly);
    let (a, attr) = l.virt_addr_properties(0x1FFF_0010).unwrap();
    assert_eq!(a, 0x3F00_0010);
    assert_eq!(attr, device());
    let (a, attr) = l.virt_addr_properties(0x3FFF_FFFF).unwrap();
    assert_eq!(a, 0x3FFF_FFFF);
    assert_eq!(attr, AttributeFields::default());
    assert_eq!(AttributeFields::default().mem_attributes, MemAttributes::CacheableDRAM);
    assert!(AttributeFields::default().execute_never);
}

#[test]
fn human_readable_sizes() {
    assert_eq!(size_human_readable_ceil(512), (512, "Byte"));
    assert_eq!(size_human_readable_ceil(1024), (1, "KiB"));
    assert_eq!(size_human_readable_ceil(1025), (2, "KiB"));
    assert_eq!(size_human_readable_ceil(64 * 1024 * 1024), (64, "MiB"));
    assert_eq!(size_human_readable_ceil(3 * 1024 * 1024 * 1024 + 1), (4, "GiB"));
}

#[test]
fn descriptor_summary() {
    let l = layout();
    let s = l.descriptors()[1].summary();
    assert_eq!((s.start, s.end, s.size, s.unit), (0x1FFF_0000, 0x1FFF_FFFF, 64, "KiB"));
    assert_eq!((s.attributes, s.permissions, s.execute, s.name), ("Dev", "RW", "PXN", "Device MMIO"));
    let s = l.descriptors()[0].summary();
    assert_eq!((s.size, s.unit, s.attributes, s.permissions, s.execute), (512, "KiB", "C", "RO", "PX"));
}

#[test]
fn granule_and_address_space_checks() {
    assert_eq!(TranslationGranule::<65536>::size_checked(), 65536);
    assert_eq!(TranslationGranule::<65536>::shift(), 16);
    assert_eq!(TranslationGranule::<4096>::shift(), 12);
    assert_eq!(AddressSpace::<0x4000_0000>::size_checked(), 0x4000_0000);
    assert_eq!(AddressSpace::<0x4000_0000>::size_shift(), 30);
    assert_eq!(AddressSpace::<0x1_0000_0000_0000>::size_checked(), 0x1_0000_0000_0000);
}

#[test]
fn error_messages_and_version() {
    assert_eq!(MMUEnableError::AlreadyEnabled.message(), "MMU is already enabled");
    assert_eq!(MMUEnableError::Other("no tables").message(), "no tables");
    assert_eq!(version(), "kernel_irq version 0.1.0");
}
