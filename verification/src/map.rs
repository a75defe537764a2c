//! The board's physical memory map and the kernel's declared virtual address
//! space: four ranges, most specific first, ending in a total fallback.

use vstd::prelude::*;

use crate::layout::{AccessPermissions, AttributeFields, KernelVirtualLayout, MemAttributes,
    TranslationDescriptor, VirtualRange};

verus! {

/// The highest virtual address of the kernel's address space: 4 GiB.
pub const END_INCLUSIVE: u64 = 0xFFFF_FFFF;

/// Start of the memory-mapped peripheral window.
pub const MMIO_START: u64 = 0xFE00_0000;

/// Last byte of the memory-mapped peripheral window.
pub const MMIO_END_INCLUSIVE: u64 = 0xFF84_FFFF;

/// Base of the GPIO controller's registers.
pub const GPIO_START: u64 = 0xFE20_0000;

/// Base of the first UART's registers.
pub const UART0_START: u64 = 0xFE20_1000;

/// Start of the re-mapped peripheral alias window.
pub const REMAP_MMIO_START: u64 = 0x1FFF_0000;

/// Last byte of the re-mapped peripheral alias window.
pub const REMAP_MMIO_END_INCLUSIVE: u64 = 0x1FFF_FFFF;

/// The descriptor list the kernel declares, as a function of the link-time
/// code boundaries: the kernel image read-only and executable, the
/// peripheral window as device memory, a small alias window relocated into
/// the peripheral region, and a read-write, execute-never fallback covering
/// the whole space.
pub open spec fn spec_kernel_layout(code_start: u64, code_end_exclusive: u64) -> Seq<
    TranslationDescriptor,
> {
    seq![
        TranslationDescriptor {
            name: "Kernel code and RO data",
            virtual_range: VirtualRange { start: code_start, end: (code_end_exclusive - 1) as u64 },
            attribute_fields: AttributeFields {
                mem_attributes: MemAttributes::CacheableDRAM,
                acc_perms: AccessPermissions::ReadOnly,
                execute_never: false,
            },
            map_to: None,
        },
        TranslationDescriptor {
            name: "Device MMIO",
            virtual_range: VirtualRange { start: MMIO_START, end: MMIO_END_INCLUSIVE },
            attribute_fields: AttributeFields {
                mem_attributes: MemAttributes::Device,
                acc_perms: AccessPermissions::ReadWrite,
                execute_never: true,
            },
            map_to: None,
        },
        TranslationDescriptor {
            name: "Remapped MMIO",
            virtual_range: VirtualRange {
                start: REMAP_MMIO_START,
                end: REMAP_MMIO_END_INCLUSIVE,
            },
            attribute_fields: AttributeFields {
                mem_attributes: MemAttributes::Device,
                acc_perms: AccessPermissions::ReadWrite,
                execute_never: true,
            },
            map_to: Some(GPIO_START),
        },
        TranslationDescriptor {
            name: "Other memory",
            virtual_range: VirtualRange { start: 0, end: END_INCLUSIVE },
            attribute_fields: AttributeFields {
                mem_attributes: MemAttributes::CacheableDRAM,
                acc_perms: AccessPermissions::ReadWrite,
                execute_never: true,
            },
            map_to: None,
        },
    ]
}

/// Build the kernel's address-space descriptor from the link-time code
/// boundaries, which only the loaded image knows.
pub fn kernel_layout(code_start: u64, code_end_exclusive: u64) -> (r: KernelVirtualLayout)
    requires
        0 < code_end_exclusive,
        code_start < code_end_exclusive,
    ensures
        r.wf(),
        r@ == spec_kernel_layout(code_start, code_end_exclusive),
        r.spec_max_virt_addr() == END_INCLUSIVE,
{
    let mut layouts: Vec<TranslationDescriptor> = Vec::new();
    layouts.push(
        TranslationDescriptor {
            name: "Kernel code and RO data",
            virtual_range: VirtualRange { start: code_start, end: code_end_exclusive - 1 },
            attribute_fields: AttributeFields {
                mem_attributes: MemAttributes::CacheableDRAM,
                acc_perms: AccessPermissions::ReadOnly,
                execute_never: false,
            },
            map_to: None,
        },
    );
    layouts.push(
        TranslationDescriptor {
            name: "Device MMIO",
            virtual_range: VirtualRange { start: MMIO_START, end: MMIO_END_INCLUSIVE },
            attribute_fields: AttributeFields {
                mem_attributes: MemAttributes::Device,
                acc_perms: AccessPermissions::ReadWrite,
                execute_never: true,
            },
            map_to: None,
        },
    );
    layouts.push(
        TranslationDescriptor {
            name: "Remapped MMIO",
            virtual_range: VirtualRange {
                start: REMAP_MMIO_START,
                end: REMAP_MMIO_END_INCLUSIVE,
            },
            attribute_fields: AttributeFields {
                mem_attributes: MemAttributes::Device,
                acc_perms: AccessPermissions::ReadWrite,
                execute_never: true,
            },
            map_to: Some(GPIO_START),
        },
    );
    layouts.push(
        TranslationDescriptor {
            name: "Other memory",
            virtual_range: VirtualRange { start: 0, end: END_INCLUSIVE },
            attribute_fields: AttributeFields {
                mem_attributes: MemAttributes::CacheableDRAM,
                acc_perms: AccessPermissions::ReadWrite,
                execute_never: true,
            },
            map_to: None,
        },
    );
    proof {
        assert(layouts@ =~= spec_kernel_layout(code_start, code_end_exclusive));
    }
    KernelVirtualLayout::new(END_INCLUSIVE, layouts)
}

/// The kernel's declared space is total: its last descriptor covers
/// everything up to the highest virtual address, so every in-bounds address
/// resolves to some descriptor.
pub proof fn lemma_kernel_layout_total(layout: KernelVirtualLayout, addr: u64)
    requires
        exists|cs: u64, ce: u64| layout@ == spec_kernel_layout(cs, ce),
        layout.spec_max_virt_addr() == END_INCLUSIVE,
        addr <= END_INCLUSIVE,
    ensures
        layout.spec_resolve(addr) is Ok,
{
    let (cs, ce) = choose|cs: u64, ce: u64| layout@ == spec_kernel_layout(cs, ce);
    assert(layout@ == spec_kernel_layout(cs, ce));
    assert(layout@[3].virtual_range.spec_contains(addr));
    crate::layout::lemma_first_match_total(layout@, addr);
}

} // verus!
