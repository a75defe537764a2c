//! The MMU enablement sequencer: capability check, memory-attribute
//! programming, table build, and the final register writes that switch
//! translation on, modelled over an explicit system-register state.

use vstd::prelude::*;

use crate::layout::{AddressError, KernelVirtualLayout};
use crate::translation_table::{first_fail, populate_post, spec_slot_err, TranslationTables,
    BLOCK_SIZE, PAGES_PER_BLOCK};

verus! {

broadcast use vstd::std_specs::bits::axiom_u64_trailing_zeros;

/// The system registers the sequencer reads and writes. The boot code copies
/// real register state in and out of this model; the sequencer itself only
/// ever sees these plain values.
#[derive(Clone, Copy, Debug, PartialEq, Eq, Structural)]
pub struct SystemRegisters {
    /// Memory-model feature register; bits 27:24 report 64 KiB-granule
    /// support, zero meaning supported.
    pub id_aa64mmfr0_el1: u64,
    /// Memory-attribute indirection table.
    pub mair_el1: u64,
    /// Base address of the level-2 table array.
    pub ttbr0_el1: u64,
    /// Translation-control register.
    pub tcr_el1: u64,
    /// System-control register; bit 0 enables translation.
    pub sctlr_el1: u64,
}

/// Why enabling the MMU failed.
#[derive(Clone, Copy, Debug, PartialEq, Eq, Structural)]
pub enum MMUEnableError {
    /// Translation was already active; nothing was touched.
    AlreadyEnabled,
    /// The hardware does not support the 64 KiB granule this table layout
    /// needs; nothing was touched.
    Granule64KNotSupported,
    /// The table build hit an address the layout cannot resolve; translation
    /// stays off.
    TableBuildFailed(AddressError),
}

/// Attribute 0: device memory, non-gathering, non-reordering, non-cacheable.
/// Attribute 1: normal memory, write-back non-transient, read/write-allocate.
pub const MAIR_VALUE: u64 = 0xFF04;

/// Translation on, data cache on, instruction cache on.
pub const SCTLR_ENABLE_VALUE: u64 = 0x1005;

/// Bits 27:24 of the feature register: 64 KiB-granule support, zero meaning
/// supported.
pub const GRANULE_64K_FIELD_MASK: u64 = 0xF00_0000;

pub open spec fn spec_is_enabled(regs: SystemRegisters) -> bool {
    regs.sctlr_el1 & 1 == 1
}

/// Whether the hardware reports the 64 KiB granule as supported.
pub open spec fn spec_granule_64k_supported(regs: SystemRegisters) -> bool {
    regs.id_aa64mmfr0_el1 & GRANULE_64K_FIELD_MASK == 0
}

/// The translation-control value for an address space of `size` bytes:
/// 40-bit intermediate physical addresses, 64 KiB granule, inner-sharable
/// cacheable table walks, the upper-range walk disabled, and `T0SZ` set to
/// the number of virtual-address bits left unused.
pub open spec fn spec_tcr_value(size: u64) -> u64 {
    (0b010u64 << 32) | (0b01u64 << 14) | (0b11u64 << 12) | (0b01u64 << 10) | (0b01u64 << 8) | (
    1u64 << 23) | ((64 - vstd::std_specs::bits::u64_trailing_zeros(size)) as u64 & 0x3F)
}

/// `size` is a power of two: exactly one bit set.
pub open spec fn spec_is_pow2(size: u64) -> bool {
    size != 0 && size & ((size - 1) as u64) == 0
}

pub fn is_enabled(regs: &SystemRegisters) -> (r: bool)
    ensures
        r == spec_is_enabled(*regs),
{
    (regs.sctlr_el1 & 1) == 1
}

/// Program the memory-attribute table: slot 0 device, slot 1 normal
/// cacheable. Page descriptors refer to these two slots by a one-bit index.
fn setup_mair(regs: &mut SystemRegisters)
    ensures
        *final(regs) == (SystemRegisters { mair_el1: MAIR_VALUE, ..*old(regs) }),
{
    // Attribute 1 - cacheable DRAM: write-back non-transient, allocate
    // reads and writes, inner and outer
    let attrib1: u64 = 0b1111_1111;

    // Attribute 0 - device memory: non-gathering, non-reordering,
    // non-cacheable
    let attrib0: u64 = 0b0000_0100;

    regs.mair_el1 = attrib0 | (attrib1 << 8);
    proof {
        assert(0b0000_0100u64 | (0b1111_1111u64 << 8) == 0xFF04) by (bit_vector);
    }
}

/// Program the translation-control register for an address space of `size`
/// bytes starting at zero.
fn configure_tcr(regs: &mut SystemRegisters, size: u64)
    requires
        spec_is_pow2(size),
        size % 2 == 0,
    ensures
        *final(regs) == (SystemRegisters { tcr_el1: spec_tcr_value(size), ..*old(regs) }),
{
    let num_bits = size.trailing_zeros();
    let t0sz = (64 - num_bits) as u64;

    // 40-bit intermediate physical addresses, 64 KiB granule, inner-sharable
    // cacheable table walks, upper-range walks disabled, and the unused
    // address bits
    let tcr: u64 = (0b010u64 << 32) | (0b01u64 << 14) | (0b11u64 << 12) | (0b01u64 << 10) | (
    0b01u64 << 8) | (1u64 << 23) | (t0sz & 0x3F);

    regs.tcr_el1 = tcr;
}

/// Enable address translation: refuse if it is already on, refuse if the
/// hardware lacks the 64 KiB granule, program the attribute table, build the
/// translation tables from the layout, point the table-base register at
/// them, program translation control for the configured address-space size,
/// and switch translation and the caches on. On the two precondition
/// failures nothing is touched; on a build failure the attribute table is
/// programmed but translation stays off.
pub fn enable(
    regs: &mut SystemRegisters,
    tables: &mut TranslationTables,
    layout: &KernelVirtualLayout,
) -> (r: Result<(), MMUEnableError>)
    requires
        old(tables).wf(),
        layout.wf(),
        layout.spec_max_virt_addr() + 1 == old(tables).num_tables() * BLOCK_SIZE,
        old(tables).num_tables() >= 1,
        spec_is_pow2((layout.spec_max_virt_addr() + 1) as u64),
    ensures
        enable_post(*old(regs), *final(regs), *old(tables), *final(tables), *layout, r),
{
    if is_enabled(regs) {
        return Err(MMUEnableError::AlreadyEnabled);
    }

    // Make sure the hardware supports 64 KiB granules
    if (regs.id_aa64mmfr0_el1 & GRANULE_64K_FIELD_MASK) != 0 {
        return Err(MMUEnableError::Granule64KNotSupported);
    }

    setup_mair(regs);

    match tables.populate(layout) {
        Ok(()) => {},
        Err(e) => {
            return Err(MMUEnableError::TableBuildFailed(e));
        },
    }

    regs.ttbr0_el1 = tables.phys_base_addr();

    let size = layout.max_virt_addr() + 1;
    configure_tcr(regs, size);

    // Turn translation and the caches on; the boot code follows this with an
    // instruction-synchronization barrier so later fetches see the new state
    let sctlr: u64 = 1u64 | (1u64 << 2) | (1u64 << 12);
    regs.sctlr_el1 = sctlr;
    proof {
        assert(1u64 | (1u64 << 2) | (1u64 << 12) == 0x1005) by (bit_vector);
        assert(0x1005u64 & 1 == 1) by (bit_vector);
    }

    Ok(())
}

/// Everything `enable` guarantees, as a relation between the register and
/// table state before and after the call, the layout, and the result.
pub open spec fn enable_post(
    regs_pre: SystemRegisters,
    regs_post: SystemRegisters,
    tables_pre: TranslationTables,
    tables_post: TranslationTables,
    layout: KernelVirtualLayout,
    r: Result<(), MMUEnableError>,
) -> bool {
    let total = tables_pre.num_tables() * PAGES_PER_BLOCK;
    if spec_is_enabled(regs_pre) {
        &&& r == Err::<(), MMUEnableError>(MMUEnableError::AlreadyEnabled)
        &&& regs_post == regs_pre
        &&& tables_unchanged(tables_pre, tables_post)
    } else if !spec_granule_64k_supported(regs_pre) {
        &&& r == Err::<(), MMUEnableError>(MMUEnableError::Granule64KNotSupported)
        &&& regs_post == regs_pre
        &&& tables_unchanged(tables_pre, tables_post)
    } else {
        match first_fail(layout, total) {
            Some(f) => {
                &&& r == Err::<(), MMUEnableError>(
                    MMUEnableError::TableBuildFailed(spec_slot_err(layout, f)),
                )
                &&& regs_post == (SystemRegisters { mair_el1: MAIR_VALUE, ..regs_pre })
                &&& populate_post(tables_pre, tables_post, layout, Err(spec_slot_err(layout, f)))
                &&& !spec_is_enabled(regs_post)
            },
            None => {
                &&& r == Ok::<(), MMUEnableError>(())
                &&& populate_post(tables_pre, tables_post, layout, Ok(()))
                &&& regs_post == (SystemRegisters {
                    mair_el1: MAIR_VALUE,
                    ttbr0_el1: tables_post.spec_phys_base_addr() as u64,
                    tcr_el1: spec_tcr_value((layout.spec_max_virt_addr() + 1) as u64),
                    sctlr_el1: SCTLR_ENABLE_VALUE,
                    ..regs_pre
                })
                &&& spec_is_enabled(regs_post)
            },
        }
    }
}

/// No table storage was touched.
pub open spec fn tables_unchanged(pre: TranslationTables, post: TranslationTables) -> bool {
    &&& post.spec_base_addr() == pre.spec_base_addr()
    &&& post.lvl2_view() == pre.lvl2_view()
    &&& post.lvl3_flat() == pre.lvl3_flat()
}

/// A successful `enable` leaves the hardware reporting translation active,
/// so a second call is refused as `AlreadyEnabled` before touching anything:
/// activation is a one-shot transition.
pub proof fn lemma_enable_idempotent(
    regs_pre: SystemRegisters,
    regs_post: SystemRegisters,
    tables_pre: TranslationTables,
    tables_post: TranslationTables,
    layout: KernelVirtualLayout,
)
    requires
        enable_post(regs_pre, regs_post, tables_pre, tables_post, layout, Ok(())),
    ensures
        spec_is_enabled(regs_post),
        forall|regs2: SystemRegisters, tables2: TranslationTables, r2: Result<(), MMUEnableError>|
            enable_post(regs_post, regs2, tables_post, tables2, layout, r2) ==> r2 == Err::<
                (),
                MMUEnableError,
            >(MMUEnableError::AlreadyEnabled) && regs2 == regs_post && tables_unchanged(
                tables_post,
                tables2,
            ),
{
    assert(SCTLR_ENABLE_VALUE & 1 == 1) by (bit_vector);
}

} // verus!
