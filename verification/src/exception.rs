//! Decoding of exception-related system-register values: the current
//! privilege level, and whether a syndrome value carries a fault address.
//! Reading the registers themselves is the boot code's business.

use vstd::prelude::*;

verus! {

/// The privilege level the core runs at.
#[derive(Clone, Copy, Debug, PartialEq, Eq, Structural)]
pub enum PrivilegeLevel {
    Application,
    Kernel,
    Hypervisor,
    Unknown,
}

/// What a current-exception-level register value means.
pub open spec fn spec_privilege_level(el: u64) -> PrivilegeLevel {
    if el == 0b0000 {
        PrivilegeLevel::Application
    } else if el == 0b0100 {
        PrivilegeLevel::Kernel
    } else if el == 0b1000 {
        PrivilegeLevel::Hypervisor
    } else {
        PrivilegeLevel::Unknown
    }
}

/// Decode the current-exception-level register value.
pub fn current_el(el: u64) -> (r: PrivilegeLevel)
    ensures
        r == spec_privilege_level(el),
{
    if el == 0b0000 {
        PrivilegeLevel::Application
    } else if el == 0b0100 {
        PrivilegeLevel::Kernel
    } else if el == 0b1000 {
        PrivilegeLevel::Hypervisor
    } else {
        PrivilegeLevel::Unknown
    }
}

/// The exception-class field of a syndrome-register value: bits 31:26.
pub open spec fn spec_exception_class(esr: u64) -> u64 {
    (esr >> 26) & 0x3F
}

/// The exception classes whose faults latch a fault address: instruction
/// aborts, PC alignment faults, data aborts, and watchpoints, from either
/// exception level.
pub open spec fn spec_class_has_fault_addr(ec: u64) -> bool {
    ec == 0b100000 || ec == 0b100001 || ec == 0b100010 || ec == 0b100100 || ec == 0b100101
        || ec == 0b110100 || ec == 0b110101
}

/// Whether a syndrome-register value belongs to an exception that latched a
/// fault address.
pub fn has_fault_addr(esr: u64) -> (r: bool)
    ensures
        r == spec_class_has_fault_addr(spec_exception_class(esr)),
{
    let ec = (esr >> 26) & 0x3F;
    ec == 0b100000 || ec == 0b100001 || ec == 0b100010 || ec == 0b100100 || ec == 0b100101
        || ec == 0b110100 || ec == 0b110101
}

} // verus!
