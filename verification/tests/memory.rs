use rpi_kernel::layout::{
    AccessPermissions, AddressError, AttributeFields, KernelVirtualLayout, MemAttributes,
    TranslationDescriptor, VirtualRange,
};
use rpi_kernel::map::kernel_layout;
use rpi_kernel::mmu::{enable, is_enabled, MMUEnableError, SystemRegisters};
use rpi_kernel::translation_table::{PageDescriptor, TableDescriptor, TranslationTables,
    PAGES_PER_BLOCK};

fn attrs(
    mem_attributes: MemAttributes,
    acc_perms: AccessPermissions,
    execute_never: bool,
) -> AttributeFields {
    AttributeFields { mem_attributes, acc_perms, execute_never }
}

/// The two-descriptor space of a 512 MiB address space: a small read-only
/// code range, then a writable execute-never fallback covering everything.
fn small_layout() -> KernelVirtualLayout {
    KernelVirtualLayout::new(
        0x1FFF_FFFF,
        vec![
            TranslationDescriptor {
                name: "code",
                virtual_range: VirtualRange { start: 0, end: 0xFFFF },
                attribute_fields: attrs(
                    MemAttributes::CacheableDRAM,
                    AccessPermissions::ReadOnly,
                    false,
                ),
                map_to: None,
            },
            TranslationDescriptor {
                name: "rest",
                virtual_range: VirtualRange { start: 0, end: 0x1FFF_FFFF },
                attribute_fields: attrs(
                    MemAttributes::CacheableDRAM,
                    AccessPermissions::ReadWrite,
                    true,
                ),
                map_to: None,
            },
        ],
    )
}

/// The same space with a relocated device alias window ahead of the
/// fallback.
fn alias_layout() -> KernelVirtualLayout {
    KernelVirtualLayout::new(
        0x1FFF_FFFF,
        vec![
            TranslationDescriptor {
                name: "code",
                virtual_range: VirtualRange { start: 0, end: 0xFFFF },
                attribute_fields: attrs(
                    MemAttributes::CacheableDRAM,
                    AccessPermissions::ReadOnly,
                    false,
                ),
                map_to: None,
            },
            TranslationDescriptor {
                name: "alias",
                virtual_range: VirtualRange { start: 0x1FFF_0000, end: 0x1FFF_FFFF },
                attribute_fields: attrs(
                    MemAttributes::Device,
                    AccessPermissions::ReadWrite,
                    true,
                ),
                map_to: Some(0x1F20_0000),
            },
            TranslationDescriptor {
                name: "rest",
                virtual_range: VirtualRange { start: 0, end: 0x1FFF_FFFF },
                attribute_fields: attrs(
                    MemAttributes::CacheableDRAM,
                    AccessPermissions::ReadWrite,
                    true,
                ),
                map_to: None,
            },
        ],
    )
}

#[test]
fn resolve_first_match_wins() {
    let layout = small_layout();
    let (out, at) = layout.virt_addr_props(0x100).unwrap();
    assert_eq!(out, 0x100);
    assert_eq!(at.mem_attributes, MemAttributes::CacheableDRAM);
    assert_eq!(at.acc_perms, AccessPermissions::ReadOnly);
    assert!(!at.execute_never);

    let (out, at) = layout.virt_addr_props(0x20000).unwrap();
    assert_eq!(out, 0x20000);
    assert_eq!(at.acc_perms, AccessPermissions::ReadWrite);
    assert!(at.execute_never);
}

#[test]
fn resolve_relocated_alias() {
    let layout = alias_layout();
    let (out, at) = layout.virt_addr_props(0x1FFF_1000).unwrap();
    assert_eq!(out, 0x1F20_1000);
    assert_eq!(at.mem_attributes, MemAttributes::Device);
    assert_eq!(at.acc_perms, AccessPermissions::ReadWrite);
    assert!(at.execute_never);
}

#[test]
fn resolve_out_of_range() {
    let layout = small_layout();
    assert_eq!(layout.virt_addr_props(0x2000_0000), Err(AddressError::OutOfRange));
    assert_eq!(layout.virt_addr_props(u64::MAX), Err(AddressError::OutOfRange));
}

#[test]
fn resolve_in_range_boundaries() {
    let layout = small_layout();
    assert!(layout.virt_addr_props(0).is_ok());
    assert!(layout.virt_addr_props(0xFFFF).is_ok());
    assert!(layout.virt_addr_props(0x1FFF_FFFF).is_ok());
}

#[test]
fn resolve_unmapped_gap() {
    // A mis-declared space without a total fallback surfaces as Unmapped.
    let layout = KernelVirtualLayout::new(
        0x1FFF_FFFF,
        vec![TranslationDescriptor {
            name: "code",
            virtual_range: VirtualRange { start: 0, end: 0xFFFF },
            attribute_fields: attrs(
                MemAttributes::CacheableDRAM,
                AccessPermissions::ReadOnly,
                false,
            ),
            map_to: None,
        }],
    );
    assert_eq!(layout.virt_addr_props(0x10000), Err(AddressError::Unmapped));
}

#[test]
fn kernel_layout_shape() {
    let layout = kernel_layout(0x80000, 0xA0000);
    assert_eq!(layout.max_virt_addr(), 0xFFFF_FFFF);
    assert_eq!(layout.num_descriptors(), 4);

    // identity-mapped kernel code, first match
    let (out, at) = layout.virt_addr_props(0x80000).unwrap();
    assert_eq!(out, 0x80000);
    assert_eq!(at.acc_perms, AccessPermissions::ReadOnly);

    // the device window
    let (out, at) = layout.virt_addr_props(0xFE20_1000).unwrap();
    assert_eq!(out, 0xFE20_1000);
    assert_eq!(at.mem_attributes, MemAttributes::Device);

    // the re-mapped alias lands in the device region
    let (out, _) = layout.virt_addr_props(0x1FFF_1000).unwrap();
    assert_eq!(out, 0xFE20_1000);

    // everything else falls through to the writable default
    let (out, at) = layout.virt_addr_props(0x4000_0000).unwrap();
    assert_eq!(out, 0x4000_0000);
    assert_eq!(at.acc_perms, AccessPermissions::ReadWrite);
    assert!(at.execute_never);
}

#[test]
fn page_descriptor_encoding() {
    // Normal memory, read-write, execute-never, output address 0x20000:
    // valid+page bits, inner-sharable, attribute slot 1, access flag,
    // EL0-execute-never, execute-never, address field
    let at = attrs(MemAttributes::CacheableDRAM, AccessPermissions::ReadWrite, true);
    assert_eq!(PageDescriptor::from_addr(0x20000, at).value, 0x0060_0000_0002_0707);

    // Normal memory, read-only, executable, output address 0
    let at = attrs(MemAttributes::CacheableDRAM, AccessPermissions::ReadOnly, false);
    assert_eq!(PageDescriptor::from_addr(0, at).value, 0x0040_0000_0000_0787);

    // Device memory, read-write, execute-never, output address 0xFE20_0000
    let at = attrs(MemAttributes::Device, AccessPermissions::ReadWrite, true);
    assert_eq!(PageDescriptor::from_addr(0xFE20_0000, at).value, 0x0060_0000_FE20_0603);
}

#[test]
fn table_descriptor_encoding() {
    assert_eq!(TableDescriptor::from_addr(0x80000).value, 0x0008_0003);
    assert_eq!(TableDescriptor::new_zeroed().value, 0);
    assert_eq!(PageDescriptor::new_zeroed().value, 0);
}

#[test]
fn populate_fills_tables() {
    let layout = small_layout();
    let mut tables = TranslationTables::new(1, 0x10_0000);
    assert_eq!(tables.populate(&layout), Ok(()));

    // the single level-2 entry points at the level-3 table at the base
    assert_eq!(tables.lvl2_value(0), 0x0010_0003);
    assert_eq!(tables.phys_base_addr(), 0x11_0000);

    // virtual 0 resolves through the read-only code range
    assert_eq!(tables.lvl3_value(0, 0), 0x0040_0000_0000_0787);
    // virtual 0x20000 (slot 2) falls through to the writable default
    assert_eq!(tables.lvl3_value(0, 2), 0x0060_0000_0002_0707);
}

#[test]
fn populate_reports_unmapped() {
    let layout = KernelVirtualLayout::new(
        0x1FFF_FFFF,
        vec![TranslationDescriptor {
            name: "code",
            virtual_range: VirtualRange { start: 0, end: 0xFFFF },
            attribute_fields: attrs(
                MemAttributes::CacheableDRAM,
                AccessPermissions::ReadOnly,
                false,
            ),
            map_to: None,
        }],
    );
    let mut tables = TranslationTables::new(1, 0x10_0000);
    assert_eq!(tables.populate(&layout), Err(AddressError::Unmapped));
    // the slot before the failure kept its new contents
    assert_eq!(tables.lvl3_value(0, 0), 0x0040_0000_0000_0787);
    // the failing slot and everything after stayed zero
    assert_eq!(tables.lvl3_value(0, 1), 0);
    assert_eq!(tables.lvl3_value(0, PAGES_PER_BLOCK - 1), 0);
}

#[test]
fn populate_deterministic() {
    let layout = alias_layout();
    let mut t1 = TranslationTables::new(1, 0x10_0000);
    let mut t2 = TranslationTables::new(1, 0x10_0000);
    assert_eq!(t1.populate(&layout), t2.populate(&layout));
    for i in 0..t1.num_lvl2_entries() {
        assert_eq!(t1.lvl2_value(i), t2.lvl2_value(i));
        for j in 0..PAGES_PER_BLOCK {
            assert_eq!(t1.lvl3_value(i, j), t2.lvl3_value(i, j));
        }
    }
}

fn fresh_regs() -> SystemRegisters {
    SystemRegisters {
        id_aa64mmfr0_el1: 0,
        mair_el1: 0,
        ttbr0_el1: 0,
        tcr_el1: 0,
        sctlr_el1: 0,
    }
}

#[test]
fn enable_programs_registers() {
    let layout = small_layout();
    let mut tables = TranslationTables::new(1, 0x10_0000);
    let mut regs = fresh_regs();

    assert!(!is_enabled(&regs));
    assert_eq!(enable(&mut regs, &mut tables, &layout), Ok(()));
    assert!(is_enabled(&regs));

    assert_eq!(regs.mair_el1, 0xFF04);
    assert_eq!(regs.ttbr0_el1, 0x11_0000);
    assert_eq!(regs.sctlr_el1, 0x1005);
    // 40-bit IPA, 64 KiB granule, cacheable sharable walks, upper range
    // disabled, T0SZ = 64 - 29
    assert_eq!(regs.tcr_el1, 0x2_0080_7523);
}

#[test]
fn enable_twice_is_refused() {
    let layout = small_layout();
    let mut tables = TranslationTables::new(1, 0x10_0000);
    let mut regs = fresh_regs();
    assert_eq!(enable(&mut regs, &mut tables, &layout), Ok(()));

    let before = regs;
    let lvl2_before = tables.lvl2_value(0);
    assert_eq!(
        enable(&mut regs, &mut tables, &layout),
        Err(MMUEnableError::AlreadyEnabled)
    );
    assert_eq!(regs, before);
    assert_eq!(tables.lvl2_value(0), lvl2_before);
}

#[test]
fn enable_refuses_unsupported_granule() {
    let layout = small_layout();
    let mut tables = TranslationTables::new(1, 0x10_0000);
    let mut regs = fresh_regs();
    // bits 27:24 nonzero: the hardware reports no 64 KiB granule
    regs.id_aa64mmfr0_el1 = 0xF00_0000;

    let before = regs;
    assert_eq!(
        enable(&mut regs, &mut tables, &layout),
        Err(MMUEnableError::Granule64KNotSupported)
    );
    // no attribute, table, or control register changed
    assert_eq!(regs, before);
    assert_eq!(tables.lvl2_value(0), 0);
    assert_eq!(tables.lvl3_value(0, 0), 0);
    assert!(!is_enabled(&regs));
}

#[test]
fn enable_propagates_build_failure() {
    let layout = KernelVirtualLayout::new(
        0x1FFF_FFFF,
        vec![TranslationDescriptor {
            name: "code",
            virtual_range: VirtualRange { start: 0, end: 0xFFFF },
            attribute_fields: attrs(
                MemAttributes::CacheableDRAM,
                AccessPermissions::ReadOnly,
                false,
            ),
            map_to: None,
        }],
    );
    let mut tables = TranslationTables::new(1, 0x10_0000);
    let mut regs = fresh_regs();
    assert_eq!(
        enable(&mut regs, &mut tables, &layout),
        Err(MMUEnableError::TableBuildFailed(AddressError::Unmapped))
    );
    // the attribute table was programmed, but translation stays off
    assert_eq!(regs.mair_el1, 0xFF04);
    assert!(!is_enabled(&regs));
    assert_eq!(regs.sctlr_el1, 0);
    assert_eq!(regs.ttbr0_el1, 0);
    assert_eq!(regs.tcr_el1, 0);
}
