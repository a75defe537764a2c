//! The address-space descriptor: an ordered list of named virtual-address
//! ranges with memory attributes and optional physical relocation, resolved
//! with first-match-wins semantics.

use vstd::prelude::*;

verus! {

/// Memory type of a mapping: ordinary cacheable RAM or a device window.
#[derive(Clone, Copy, Debug, PartialEq, Eq, Structural)]
pub enum MemAttributes {
    CacheableDRAM,
    Device,
}

/// Access permission of a mapping, always relative to the kernel's own
/// privilege level.
#[derive(Clone, Copy, Debug, PartialEq, Eq, Structural)]
pub enum AccessPermissions {
    ReadOnly,
    ReadWrite,
}

/// The attributes a leaf descriptor carries for one mapped page.
#[derive(Clone, Copy, Debug, PartialEq, Eq, Structural)]
pub struct AttributeFields {
    pub mem_attributes: MemAttributes,
    pub acc_perms: AccessPermissions,
    pub execute_never: bool,
}

/// An inclusive `[start, end]` range of virtual addresses.
#[derive(Clone, Copy, Debug, PartialEq, Eq, Structural)]
pub struct VirtualRange {
    pub start: u64,
    pub end: u64,
}

impl VirtualRange {
    pub open spec fn wf(self) -> bool {
        self.start <= self.end
    }

    pub open spec fn spec_contains(self, addr: u64) -> bool {
        self.start <= addr && addr <= self.end
    }

    pub fn contains(&self, addr: u64) -> (r: bool)
        ensures
            r == self.spec_contains(addr),
    {
        self.start <= addr && addr <= self.end
    }
}

/// Why an address could not be resolved: it lies above the configured address
/// space, or no declared range contains it.
#[derive(Clone, Copy, Debug, PartialEq, Eq, Structural)]
pub enum AddressError {
    OutOfRange,
    Unmapped,
}

/// One named virtual range, its attributes, and an optional physical
/// relocation target. Without a relocation the range is identity-mapped.
pub struct TranslationDescriptor {
    pub name: &'static str,
    pub virtual_range: VirtualRange,
    pub map_to: Option<u64>,
    pub attribute_fields: AttributeFields,
}

impl TranslationDescriptor {
    /// The range is ordered, and a relocated range still ends below the top
    /// of the physical address space.
    pub open spec fn wf(self) -> bool {
        &&& self.virtual_range.wf()
        &&& match self.map_to {
            Some(p) => p + (self.virtual_range.end - self.virtual_range.start) <= u64::MAX,
            None => true,
        }
    }

    /// The physical address a virtual address inside this range maps to.
    pub open spec fn spec_output_addr(self, addr: u64) -> int {
        match self.map_to {
            Some(p) => p + (addr - self.virtual_range.start),
            None => addr as int,
        }
    }
}

/// The first descriptor, in declared order, whose range contains `addr`.
pub open spec fn first_match(descs: Seq<TranslationDescriptor>, addr: u64) -> Option<
    TranslationDescriptor,
>
    decreases descs.len(),
{
    if descs.len() == 0 {
        None
    } else if descs[0].virtual_range.spec_contains(addr) {
        Some(descs[0])
    } else {
        first_match(descs.skip(1), addr)
    }
}

/// The kernel's intended virtual address space: an ordered descriptor list
/// plus the highest virtual address the space reaches.
pub struct KernelVirtualLayout {
    pub max_virt_addr: u64,
    pub layouts: Vec<TranslationDescriptor>,
}

impl KernelVirtualLayout {
    pub open spec fn view(self) -> Seq<TranslationDescriptor> {
        self.layouts@
    }

    pub open spec fn spec_max_virt_addr(self) -> u64 {
        self.max_virt_addr
    }

    pub open spec fn wf(self) -> bool {
        forall|i: int| 0 <= i < self.layouts@.len() ==> (#[trigger] self.layouts@[i]).wf()
    }

    /// What resolution returns, as a mathematical function of the layout.
    pub open spec fn spec_resolve(self, addr: u64) -> Result<
        (u64, AttributeFields),
        AddressError,
    > {
        if addr > self.max_virt_addr {
            Err(AddressError::OutOfRange)
        } else {
            match first_match(self.layouts@, addr) {
                Some(d) => Ok((d.spec_output_addr(addr) as u64, d.attribute_fields)),
                None => Err(AddressError::Unmapped),
            }
        }
    }

    pub fn new(max_virt_addr: u64, layouts: Vec<TranslationDescriptor>) -> (r: Self)
        requires
            forall|i: int| 0 <= i < layouts@.len() ==> (#[trigger] layouts@[i]).wf(),
        ensures
            r.wf(),
            r@ == layouts@,
            r.spec_max_virt_addr() == max_virt_addr,
    {
        Self { max_virt_addr, layouts }
    }

    pub fn max_virt_addr(&self) -> (r: u64)
        ensures
            r == self.spec_max_virt_addr(),
    {
        self.max_virt_addr
    }

    pub fn num_descriptors(&self) -> (r: usize)
        ensures
            r == self@.len(),
    {
        self.layouts.len()
    }

    pub fn descriptor(&self, i: usize) -> (r: &TranslationDescriptor)
        requires
            i < self@.len(),
        ensures
            *r == self@[i as int],
    {
        &self.layouts[i]
    }

    /// Resolve a virtual address to its output physical address and
    /// attributes: reject an address above the configured space, otherwise
    /// return the first declared range that contains it.
    pub fn virt_addr_props(&self, virt_addr: u64) -> (r: Result<
        (u64, AttributeFields),
        AddressError,
    >)
        requires
            self.wf(),
        ensures
            r == self.spec_resolve(virt_addr),
    {
        if virt_addr > self.max_virt_addr {
            return Err(AddressError::OutOfRange);
        }
        let n = self.layouts.len();
        proof {
            assert(self.layouts@.skip(0) =~= self.layouts@);
        }
        for i in 0..n
            invariant
                n == self.layouts@.len(),
                self.wf(),
                virt_addr <= self.max_virt_addr,
                first_match(self.layouts@, virt_addr) == first_match(
                    self.layouts@.skip(i as int),
                    virt_addr,
                ),
        {
            let d = &self.layouts[i];
            proof {
                assert(self.layouts@.skip(i as int)[0] == self.layouts@[i as int]);
            }
            if d.contains_addr(virt_addr) {
                proof {
                    assert(first_match(self.layouts@.skip(i as int), virt_addr) == Some(
                        self.layouts@[i as int],
                    ));
                    assert(first_match(self.layouts@, virt_addr) == Some(
                        self.layouts@[i as int],
                    ));
                    assert(self.layouts@[i as int].wf());
                }
                let output_addr = match d.map_to {
                    Some(start) => start + (virt_addr - d.virtual_range.start),
                    None => virt_addr,
                };
                proof {
                    assert(output_addr == self.layouts@[i as int].spec_output_addr(virt_addr));
                    assert(virt_addr <= self.max_virt_addr);
                }
                return Ok((output_addr, d.attribute_fields));
            }
            proof {
                assert(self.layouts@.skip(i as int).skip(1) =~= self.layouts@.skip(i + 1));
            }
        }
        Err(AddressError::Unmapped)
    }
}

impl TranslationDescriptor {
    pub fn contains_addr(&self, addr: u64) -> (r: bool)
        ensures
            r == self.virtual_range.spec_contains(addr),
    {
        self.virtual_range.contains(addr)
    }
}

/// First match wins: if descriptor `i` contains `addr` and no earlier
/// descriptor does, resolution selects descriptor `i`.
pub proof fn lemma_first_match_is_first(descs: Seq<TranslationDescriptor>, addr: u64, i: int)
    requires
        0 <= i < descs.len(),
        descs[i].virtual_range.spec_contains(addr),
        forall|j: int| 0 <= j < i ==> !(#[trigger] descs[j]).virtual_range.spec_contains(addr),
    ensures
        first_match(descs, addr) == Some(descs[i]),
    decreases descs.len(),
{
    if i > 0 {
        lemma_first_match_is_first(descs.skip(1), addr, i - 1);
        assert(descs.skip(1)[i - 1] == descs[i]);
    }
}

/// If any descriptor contains `addr`, resolution finds one.
pub proof fn lemma_first_match_total(descs: Seq<TranslationDescriptor>, addr: u64)
    requires
        exists|i: int|
            0 <= i < descs.len() && (#[trigger] descs[i]).virtual_range.spec_contains(addr),
    ensures
        first_match(descs, addr) is Some,
    decreases descs.len(),
{
    let i = choose|i: int|
        0 <= i < descs.len() && (#[trigger] descs[i]).virtual_range.spec_contains(addr);
    if !descs[0].virtual_range.spec_contains(addr) {
        assert(descs.skip(1)[i - 1] == descs[i]);
        lemma_first_match_total(descs.skip(1), addr);
    }
}

/// Resolution correctness: every address inside the configured space that
/// some descriptor covers resolves successfully, to the output address and
/// attributes of the first covering descriptor in declared order.
pub proof fn lemma_resolve_in_range(layout: KernelVirtualLayout, addr: u64, i: int)
    requires
        layout.wf(),
        addr <= layout.spec_max_virt_addr(),
        0 <= i < layout@.len(),
        layout@[i].virtual_range.spec_contains(addr),
        forall|j: int| 0 <= j < i ==> !(#[trigger] layout@[j]).virtual_range.spec_contains(addr),
    ensures
        layout.spec_resolve(addr) == Ok::<(u64, AttributeFields), AddressError>(
            (layout@[i].spec_output_addr(addr) as u64, layout@[i].attribute_fields),
        ),
{
    lemma_first_match_is_first(layout@, addr, i);
}

/// Out-of-range rejection: every address above the configured space fails
/// with `OutOfRange`.
pub proof fn lemma_resolve_out_of_range(layout: KernelVirtualLayout, addr: u64)
    requires
        addr > layout.spec_max_virt_addr(),
    ensures
        layout.spec_resolve(addr) == Err::<(u64, AttributeFields), AddressError>(
            AddressError::OutOfRange,
        ),
{
}

/// Identity mapping: when resolution selects a descriptor without a
/// relocation target, the output address equals the input address.
pub proof fn lemma_resolve_identity(layout: KernelVirtualLayout, addr: u64, d: TranslationDescriptor)
    requires
        layout.wf(),
        addr <= layout.spec_max_virt_addr(),
        first_match(layout@, addr) == Some(d),
        d.map_to is None,
    ensures
        layout.spec_resolve(addr) == Ok::<(u64, AttributeFields), AddressError>(
            (addr, d.attribute_fields),
        ),
{
}

/// Relocation arithmetic: when resolution selects a descriptor with
/// relocation target `p` and range start `s`, the output address is
/// `p + (addr - s)`.
pub proof fn lemma_resolve_relocation(
    layout: KernelVirtualLayout,
    addr: u64,
    d: TranslationDescriptor,
    p: u64,
)
    requires
        layout.wf(),
        addr <= layout.spec_max_virt_addr(),
        first_match(layout@, addr) == Some(d),
        exists|i: int| 0 <= i < layout@.len() && layout@[i] == d,
        d.virtual_range.spec_contains(addr),
        d.map_to == Some(p),
    ensures
        layout.spec_resolve(addr) == Ok::<(u64, AttributeFields), AddressError>(
            ((p + (addr - d.virtual_range.start)) as u64, d.attribute_fields),
        ),
        p + (addr - d.virtual_range.start) <= u64::MAX,
{
    let i = choose|i: int| 0 <= i < layout@.len() && layout@[i] == d;
    assert(layout@[i].wf());
}

} // verus!
