//! The translation-table builder: hardware-shaped level-2 table descriptors,
//! each owning a level-3 table of page descriptors, populated once from the
//! address-space layout.

use vstd::prelude::*;

use crate::layout::{AccessPermissions, AddressError, AttributeFields, KernelVirtualLayout,
    MemAttributes};

verus! {

/// Bytes covered by one page (the 64 KiB translation granule).
pub const PAGE_SIZE: u64 = 0x1_0000;

/// Bytes covered by one level-2 entry: 8192 pages of 64 KiB, 512 MiB.
pub const BLOCK_SIZE: u64 = 0x2000_0000;

/// Pages per block: `BLOCK_SIZE / PAGE_SIZE`.
pub const PAGES_PER_BLOCK: usize = 8192;

/// A level-3 leaf entry in the exact bit layout the hardware walks.
#[derive(Clone, Copy, Debug, PartialEq, Eq, Structural)]
pub struct PageDescriptor {
    pub value: u64,
}

/// A level-2 entry pointing at a level-3 table, in hardware bit layout.
#[derive(Clone, Copy, Debug, PartialEq, Eq, Structural)]
pub struct TableDescriptor {
    pub value: u64,
}

/// The packed value of a leaf entry for output address `addr` with the given
/// attributes: the valid and page bits, sharability and memory-attribute
/// index chosen by the memory type, access permission, the execute-never bit
/// when requested, the always-set privileged-execute-only and access-flag
/// bits, and the granule-aligned output address in the address field.
pub open spec fn spec_page_descriptor(addr: u64, attribs: AttributeFields) -> u64 {
    (0b11u64 | (match attribs.mem_attributes {
        MemAttributes::CacheableDRAM => (0b11u64 << 8) | (1u64 << 2),
        MemAttributes::Device => (0b10u64 << 8),
    }) | (match attribs.acc_perms {
        AccessPermissions::ReadOnly => 0b10u64 << 6,
        AccessPermissions::ReadWrite => 0u64,
    }) | (if attribs.execute_never {
        1u64 << 53
    } else {
        0u64
    }) | (1u64 << 54) | (((addr >> 16) & 0xFFFF_FFFF) << 16) | (1u64 << 10))
}

/// The packed value of a level-2 entry pointing at the level-3 table that
/// starts at `next_table_addr`.
pub open spec fn spec_table_descriptor(next_table_addr: u64) -> u64 {
    0b11u64 | (((next_table_addr >> 16) & 0xFFFF_FFFF) << 16)
}

impl PageDescriptor {
    pub fn new_zeroed() -> (r: Self)
        ensures
            r.value == 0,
    {
        Self { value: 0 }
    }

    /// Encode a leaf entry for the page whose output address is `addr`.
    pub fn from_addr(addr: u64, attribs: AttributeFields) -> (r: Self)
        ensures
            r.value == spec_page_descriptor(addr, attribs),
    {
        let mem_bits: u64 = match attribs.mem_attributes {
            // Inner sharable, memory-attribute slot 1: normal memory
            MemAttributes::CacheableDRAM => (0b11u64 << 8) | (1u64 << 2),
            // Outer sharable, memory-attribute slot 0: device memory
            MemAttributes::Device => 0b10u64 << 8,
        };
        let acc_bits: u64 = match attribs.acc_perms {
            // Read only, only accessible from EL1
            AccessPermissions::ReadOnly => 0b10u64 << 6,
            // Read/write, only accessible from EL1
            AccessPermissions::ReadWrite => 0u64,
        };
        let xn_bits: u64 = if attribs.execute_never {
            1u64 << 53
        } else {
            0u64
        };

        // Valid page and page flag, the attribute bits above, never allow
        // execution from EL0, the granule-aligned output address, and the
        // access flag
        let value: u64 = 0b11u64 | mem_bits | acc_bits | xn_bits | (1u64 << 54) | (((addr >> 16)
            & 0xFFFF_FFFF) << 16) | (1u64 << 10);

        Self { value }
    }
}

impl TableDescriptor {
    pub fn new_zeroed() -> (r: Self)
        ensures
            r.value == 0,
    {
        Self { value: 0 }
    }

    /// Encode a level-2 entry that points at the level-3 table starting at
    /// `next_table_addr`.
    pub fn from_addr(next_table_addr: u64) -> (r: Self)
        ensures
            r.value == spec_table_descriptor(next_table_addr),
    {
        let value: u64 = 0b11 | (((next_table_addr >> 16) & 0xFFFF_FFFF) << 16);
        Self { value }
    }
}

/// Storage for the whole translation structure, modelling a granule-aligned
/// allocation at `base_addr`: level-3 table `i` occupies the granule at
/// `base_addr + i * PAGE_SIZE` (8192 entries of 8 bytes is exactly one
/// granule), and the level-2 entries follow the level-3 tables. The level-3
/// entries are stored flat, block by block.
pub struct TranslationTables {
    pub base_addr: u64,
    pub lvl3: Vec<PageDescriptor>,
    pub lvl2: Vec<TableDescriptor>,
}

impl TranslationTables {
    pub open spec fn spec_base_addr(self) -> u64 {
        self.base_addr
    }

    pub open spec fn num_tables(self) -> int {
        self.lvl2@.len() as int
    }

    pub open spec fn lvl2_view(self) -> Seq<TableDescriptor> {
        self.lvl2@
    }

    /// All level-3 entries, block by block: the entry for block `i`, slot `j`
    /// is at flat index `i * PAGES_PER_BLOCK + j`.
    pub open spec fn lvl3_flat(self) -> Seq<PageDescriptor> {
        self.lvl3@
    }

    /// Storage shape: one full level-3 table per level-2 entry, a
    /// granule-aligned base, and the whole structure and the address space it
    /// covers lie below the top of the address space.
    pub open spec fn wf(self) -> bool {
        &&& self.lvl3@.len() == self.num_tables() * PAGES_PER_BLOCK
        &&& self.base_addr % PAGE_SIZE == 0
        &&& self.base_addr + (self.num_tables() + 1) * PAGE_SIZE <= u64::MAX
        &&& self.num_tables() * BLOCK_SIZE <= u64::MAX
    }

    /// The modelled address of level-3 table `i`.
    pub open spec fn spec_lvl3_addr(self, i: int) -> int {
        self.base_addr + i * PAGE_SIZE
    }

    /// The modelled address of the level-2 table, after the level-3 tables.
    pub open spec fn spec_phys_base_addr(self) -> int {
        self.base_addr + self.num_tables() * PAGE_SIZE
    }

    /// All entries still hold the zero (invalid) encoding.
    pub open spec fn is_zeroed(self) -> bool {
        &&& forall|i: int| 0 <= i < self.lvl2@.len() ==> (#[trigger] self.lvl2@[i]).value == 0
        &&& forall|k: int| 0 <= k < self.lvl3@.len() ==> (#[trigger] self.lvl3@[k]).value == 0
    }

    /// Allocate zeroed storage for `tables` blocks, modelled at `base_addr`.
    pub fn new(tables: usize, base_addr: u64) -> (r: Self)
        requires
            base_addr % PAGE_SIZE == 0,
            base_addr + (tables + 1) * (PAGE_SIZE as int) <= u64::MAX,
            tables * (BLOCK_SIZE as int) <= u64::MAX,
        ensures
            r.wf(),
            r.spec_base_addr() == base_addr,
            r.num_tables() == tables,
            r.is_zeroed(),
    {
        let mut lvl3: Vec<PageDescriptor> = Vec::new();
        let mut lvl2: Vec<TableDescriptor> = Vec::new();
        let mut t: usize = 0;
        while t < tables
            invariant
                t <= tables,
                lvl2@.len() == t,
                lvl3@.len() == t * PAGES_PER_BLOCK,
                forall|i: int| 0 <= i < t ==> (#[trigger] lvl2@[i]).value == 0,
                forall|k: int| 0 <= k < lvl3@.len() ==> (#[trigger] lvl3@[k]).value == 0,
            decreases tables - t,
        {
            let mut p: usize = 0;
            while p < PAGES_PER_BLOCK
                invariant
                    p <= PAGES_PER_BLOCK,
                    lvl3@.len() == t * PAGES_PER_BLOCK + p,
                    forall|k: int| 0 <= k < lvl3@.len() ==> (#[trigger] lvl3@[k]).value == 0,
                decreases PAGES_PER_BLOCK - p,
            {
                lvl3.push(PageDescriptor::new_zeroed());
                p = p + 1;
            }
            lvl2.push(TableDescriptor::new_zeroed());
            t = t + 1;
        }
        Self { base_addr, lvl3, lvl2 }
    }

    /// The physical address of the level-2 table array, handed to the
    /// table-base register.
    pub fn phys_base_addr(&self) -> (r: u64)
        requires
            self.wf(),
        ensures
            r == self.spec_phys_base_addr(),
    {
        self.base_addr + (self.lvl2.len() as u64) * PAGE_SIZE
    }

    pub fn num_lvl2_entries(&self) -> (r: usize)
        ensures
            r == self.num_tables(),
    {
        self.lvl2.len()
    }

    /// The raw value of level-2 entry `i`.
    pub fn lvl2_value(&self, i: usize) -> (r: u64)
        requires
            i < self.num_tables(),
        ensures
            r == self.lvl2_view()[i as int].value,
    {
        self.lvl2[i].value
    }

    /// The raw value of the level-3 entry at block `i`, slot `j`.
    pub fn lvl3_value(&self, i: usize, j: usize) -> (r: u64)
        requires
            self.wf(),
            i < self.num_tables(),
            j < PAGES_PER_BLOCK,
        ensures
            r == self.lvl3_flat()[i as int * PAGES_PER_BLOCK + j as int].value,
    {
        let total = self.lvl3.len();
        proof {
            lemma_flat_index_in_range(self.num_tables(), i as int, j as int);
        }
        self.lvl3[i * PAGES_PER_BLOCK + j].value
    }

    /// Fill the tables from the layout: point each level-2 entry at its
    /// level-3 table, and encode one leaf per page slot from what the layout
    /// resolves the slot's virtual address to. The first address that fails
    /// to resolve stops the build and is reported; earlier slots keep their
    /// new contents, later slots are untouched.
    pub fn populate(&mut self, layout: &KernelVirtualLayout) -> (r: Result<(), AddressError>)
        requires
            old(self).wf(),
            layout.wf(),
        ensures
            populate_post(*old(self), *final(self), *layout, r),
    {
        let n = self.lvl2.len();
        let mut i: usize = 0;
        while i < n
            invariant
                self.wf(),
                layout.wf(),
                n == self.num_tables(),
                i <= n,
                self.base_addr == old(self).base_addr,
                self.num_tables() == old(self).num_tables(),
                old(self).wf(),
                first_fail(*layout, i as int * PAGES_PER_BLOCK as int) is None,
                forall|b: int|
                    0 <= b < i ==> (#[trigger] self.lvl2@[b]).value == spec_table_descriptor(
                        (old(self).spec_lvl3_addr(b)) as u64,
                    ),
                forall|b: int| i <= b < n ==> (#[trigger] self.lvl2@[b]) == old(self).lvl2@[b],
                forall|k: int|
                    0 <= k < i as int * PAGES_PER_BLOCK as int ==> (
                    #[trigger] self.lvl3@[k]).value == spec_populated_page(*layout, k),
                forall|k: int|
                    i as int * PAGES_PER_BLOCK as int <= k < self.lvl3@.len() ==> (
                    #[trigger] self.lvl3@[k]) == old(self).lvl3@[k],
            decreases n - i,
        {
            let table_addr = self.base_addr + (i as u64) * PAGE_SIZE;
            self.lvl2[i] = TableDescriptor::from_addr(table_addr);

            let mut j: usize = 0;
            while j < PAGES_PER_BLOCK
                invariant
                    self.wf(),
                    layout.wf(),
                    n == self.num_tables(),
                    i < n,
                    j <= PAGES_PER_BLOCK,
                    self.base_addr == old(self).base_addr,
                    self.num_tables() == old(self).num_tables(),
                    old(self).wf(),
                    first_fail(*layout, i as int * PAGES_PER_BLOCK as int + j as int) is None,
                    forall|b: int|
                        0 <= b <= i ==> (#[trigger] self.lvl2@[b]).value == spec_table_descriptor(
                            (old(self).spec_lvl3_addr(b)) as u64,
                        ),
                    forall|b: int| i < b < n ==> (#[trigger] self.lvl2@[b]) == old(self).lvl2@[b],
                    forall|k: int|
                        0 <= k < i as int * PAGES_PER_BLOCK as int + j as int ==> (
                        #[trigger] self.lvl3@[k]).value == spec_populated_page(*layout, k),
                    forall|k: int|
                        i as int * PAGES_PER_BLOCK as int + j as int <= k < self.lvl3@.len()
                            ==> (#[trigger] self.lvl3@[k]) == old(self).lvl3@[k],
                decreases PAGES_PER_BLOCK - j,
            {
                let ghost m = i as int * PAGES_PER_BLOCK as int + j as int;
                let total = self.lvl3.len();
                proof {
                    lemma_flat_index_in_range(n as int, i as int, j as int);
                }
                let virt_addr = (i as u64) * BLOCK_SIZE + (j as u64) * PAGE_SIZE;
                proof {
                    assert(virt_addr == m * PAGE_SIZE);
                }
                match layout.virt_addr_props(virt_addr) {
                    Ok((output_addr, attribs)) => {
                        self.lvl3[i * PAGES_PER_BLOCK + j] = PageDescriptor::from_addr(
                            output_addr,
                            attribs,
                        );
                        proof {
                            lemma_first_fail_extend(*layout, m);
                        }
                    },
                    Err(e) => {
                        proof {
                            lemma_first_fail_extend(*layout, m);
                            lemma_first_fail_frozen(*layout, m + 1, n as int * PAGES_PER_BLOCK as int);
                            assert(first_fail(*layout, old(self).num_tables() * PAGES_PER_BLOCK)
                                == Some(m));
                            assert(e == spec_slot_err(*layout, m));
                            assert forall|b: int|
                                0 <= b < n && b * PAGES_PER_BLOCK <= m implies (
                            #[trigger] self.lvl2@[b]).value == spec_table_descriptor(
                                (old(self).spec_lvl3_addr(b)) as u64,
                            ) by {
                                assert(b <= i);
                            }
                            assert forall|b: int|
                                0 <= b < n && b * PAGES_PER_BLOCK > m implies (
                            #[trigger] self.lvl2@[b]) == old(self).lvl2@[b] by {
                                assert(b > i);
                            }
                            assert(forall|k: int|
                                0 <= k < m ==> (#[trigger] self.lvl3@[k]).value
                                    == spec_populated_page(*layout, k));
                            assert(forall|k: int|
                                m <= k < old(self).num_tables() * PAGES_PER_BLOCK ==> (
                                #[trigger] self.lvl3@[k]) == old(self).lvl3@[k]);
                        }
                        return Err(e);
                    },
                }
                j = j + 1;
            }
            i = i + 1;
        }
        Ok(())
    }
}

/// A block index and a slot index give a flat index inside the level-3 store.
proof fn lemma_flat_index_in_range(n: int, i: int, j: int)
    requires
        0 <= i < n,
        0 <= j < PAGES_PER_BLOCK,
    ensures
        0 <= i * PAGES_PER_BLOCK + j < n * PAGES_PER_BLOCK,
        i * PAGES_PER_BLOCK + j < i * PAGES_PER_BLOCK + PAGES_PER_BLOCK,
{
    assert((i + 1) * PAGES_PER_BLOCK <= n * PAGES_PER_BLOCK) by (nonlinear_arith)
        requires
            i + 1 <= n,
    ;
}

/// The virtual address translated by the page at flat slot `k`.
pub open spec fn spec_slot_virt_addr(k: int) -> int {
    k * (PAGE_SIZE as int)
}

/// What the layout resolves the virtual address of flat slot `k` to.
pub open spec fn spec_resolve_slot(layout: KernelVirtualLayout, k: int) -> Result<
    (u64, AttributeFields),
    AddressError,
> {
    layout.spec_resolve(spec_slot_virt_addr(k) as u64)
}

/// The leaf value the builder stores for flat slot `k`, when the slot's
/// address resolves.
pub open spec fn spec_populated_page(layout: KernelVirtualLayout, k: int) -> u64 {
    match spec_resolve_slot(layout, k) {
        Ok((output_addr, attribs)) => spec_page_descriptor(output_addr, attribs),
        Err(_) => 0,
    }
}

/// The first flat slot among `0 .. n` whose virtual address the layout fails
/// to resolve, if any: the slot where the build stops.
pub open spec fn first_fail(layout: KernelVirtualLayout, n: int) -> Option<int>
    decreases n,
{
    if n <= 0 {
        None
    } else {
        match first_fail(layout, n - 1) {
            Some(k) => Some(k),
            None => if spec_resolve_slot(layout, n - 1) is Err {
                Some(n - 1)
            } else {
                None
            },
        }
    }
}

/// The error at a failing slot.
pub open spec fn spec_slot_err(layout: KernelVirtualLayout, k: int) -> AddressError {
    match spec_resolve_slot(layout, k) {
        Err(e) => e,
        Ok(_) => AddressError::Unmapped,
    }
}

/// Scanning one slot further keeps the earlier verdict, or finds the first
/// failure at the new slot.
proof fn lemma_first_fail_extend(layout: KernelVirtualLayout, m: int)
    requires
        m >= 0,
        first_fail(layout, m) is None,
    ensures
        spec_resolve_slot(layout, m) is Ok ==> first_fail(layout, m + 1) is None,
        spec_resolve_slot(layout, m) is Err ==> first_fail(layout, m + 1) == Some(m),
{
}

/// Once a first failure is found, scanning further does not change it.
proof fn lemma_first_fail_frozen(layout: KernelVirtualLayout, m: int, n: int)
    requires
        0 <= m <= n,
        first_fail(layout, m) is Some,
    ensures
        first_fail(layout, n) == first_fail(layout, m),
    decreases n - m,
{
    if m < n {
        lemma_first_fail_frozen(layout, m + 1, n);
    }
}

/// If scanning `0 .. n` finds no failure, every slot below `n` resolves.
pub proof fn lemma_first_fail_none_all_ok(layout: KernelVirtualLayout, n: int, k: int)
    requires
        first_fail(layout, n) is None,
        0 <= k < n,
    ensures
        spec_resolve_slot(layout, k) is Ok,
    decreases n,
{
    if k < n - 1 {
        lemma_first_fail_none_all_ok(layout, n - 1, k);
    }
}

/// Everything `populate` guarantees, as a relation between the tables before
/// the call, the tables after it, the layout, and the result. With no
/// failing slot the tables are fully populated and the build succeeds; with
/// a first failing slot `k` the build reports that slot's error, the slots
/// and level-2 entries written before reaching `k` hold their new values,
/// and everything else is untouched.
pub open spec fn populate_post(
    pre: TranslationTables,
    post: TranslationTables,
    layout: KernelVirtualLayout,
    r: Result<(), AddressError>,
) -> bool {
    let n = pre.num_tables();
    let total = n * PAGES_PER_BLOCK;
    &&& post.spec_base_addr() == pre.spec_base_addr()
    &&& post.num_tables() == n
    &&& post.lvl3_flat().len() == pre.lvl3_flat().len()
    &&& match first_fail(layout, total) {
        None => {
            &&& r == Ok::<(), AddressError>(())
            &&& forall|b: int|
                0 <= b < n ==> (#[trigger] post.lvl2_view()[b]).value == spec_table_descriptor(
                    (pre.spec_lvl3_addr(b)) as u64,
                )
            &&& forall|k: int|
                0 <= k < total ==> (#[trigger] post.lvl3_flat()[k]).value == spec_populated_page(
                    layout,
                    k,
                )
        },
        Some(f) => {
            &&& r == Err::<(), AddressError>(spec_slot_err(layout, f))
            &&& forall|b: int|
                0 <= b < n && b * PAGES_PER_BLOCK <= f ==> (
                #[trigger] post.lvl2_view()[b]).value == spec_table_descriptor(
                    (pre.spec_lvl3_addr(b)) as u64,
                )
            &&& forall|b: int|
                0 <= b < n && b * PAGES_PER_BLOCK > f ==> #[trigger] post.lvl2_view()[b]
                    == pre.lvl2_view()[b]
            &&& forall|k: int|
                0 <= k < f ==> (#[trigger] post.lvl3_flat()[k]).value == spec_populated_page(
                    layout,
                    k,
                )
            &&& forall|k: int|
                f <= k < total ==> #[trigger] post.lvl3_flat()[k] == pre.lvl3_flat()[k]
        },
    }
}

/// Building the tables is deterministic: two builds from identically placed,
/// identically sized, freshly zeroed storage with the same layout give the
/// same verdict and entry-for-entry identical tables.
pub proof fn lemma_populate_deterministic(
    pre1: TranslationTables,
    post1: TranslationTables,
    r1: Result<(), AddressError>,
    pre2: TranslationTables,
    post2: TranslationTables,
    r2: Result<(), AddressError>,
    layout: KernelVirtualLayout,
)
    requires
        pre1.wf(),
        pre2.wf(),
        pre1.is_zeroed(),
        pre2.is_zeroed(),
        pre1.spec_base_addr() == pre2.spec_base_addr(),
        pre1.num_tables() == pre2.num_tables(),
        populate_post(pre1, post1, layout, r1),
        populate_post(pre2, post2, layout, r2),
    ensures
        r1 == r2,
        post1.lvl2_view() =~= post2.lvl2_view(),
        post1.lvl3_flat() =~= post2.lvl3_flat(),
{
    let total = pre1.num_tables() * PAGES_PER_BLOCK;
    match first_fail(layout, total) {
        None => {
            assert(r1 == Ok::<(), AddressError>(()));
            assert(r2 == Ok::<(), AddressError>(()));
        },
        Some(f) => {
            assert(r1 == Err::<(), AddressError>(spec_slot_err(layout, f)));
            assert(r2 == Err::<(), AddressError>(spec_slot_err(layout, f)));
        },
    }
    assert forall|b: int| 0 <= b < post1.lvl2_view().len() implies post1.lvl2_view()[b]
        == post2.lvl2_view()[b] by {
        assert(pre1.lvl2_view()[b].value == 0);
        assert(pre2.lvl2_view()[b].value == 0);
    }
    assert forall|k: int| 0 <= k < post1.lvl3_flat().len() implies post1.lvl3_flat()[k]
        == post2.lvl3_flat()[k] by {
        assert(pre1.lvl3_flat()[k].value == 0);
        assert(pre2.lvl3_flat()[k].value == 0);
    }
}

} // verus!
