use vstd::prelude::*;
use x86_64::VirtAddr;

verus! {

/// The interrupt stack table slot used by the double fault handler.
pub const DOUBLE_FAULT_IST: u16 = 0;

/// Size of the double fault stack: 5 KiB, the least that lets the panic
/// message be printed.
pub const STACK_SIZE: usize = 5 * 1024;

/// A canonical x86_64 virtual address: bits 48 to 63 repeat bit 47.
pub open spec fn is_canonical(addr: u64) -> bool {
    addr < 0x0000_8000_0000_0000 || addr >= 0xffff_8000_0000_0000
}

/// Calls `VirtAddr::try_new`, which accepts exactly the canonical addresses
/// (those equal to their sign extension from bit 47) and keeps them as given.
#[verifier::external_body]
fn virt_addr_try_new(addr: u64) -> (r: Option<u64>)
    ensures
        r == (if is_canonical(addr) {
            Some(addr)
        } else {
            None::<u64>
        }),
{
    match VirtAddr::try_new(addr) {
        Ok(v) => Some(v.as_u64()),
        Err(_) => None,
    }
}

/// Calls `VirtAddr::new` on a canonical address and adds an offset with
/// `VirtAddr`'s `+`, which is plain addition; it panics on overflow or on a
/// non-canonical result, so both are excluded.
#[verifier::external_body]
fn virt_addr_add(addr: u64, offset: u64) -> (r: u64)
    requires
        is_canonical(addr),
        addr + offset <= u64::MAX,
        is_canonical((addr + offset) as u64),
    ensures
        r == addr + offset,
{
    (VirtAddr::new(addr) + offset).as_u64()
}

/// Whether `addr` is a canonical virtual address.
pub fn is_canonical_address(addr: u64) -> (b: bool)
    ensures
        b == is_canonical(addr),
{
    virt_addr_try_new(addr).is_some()
}

/// The top of the double fault stack that starts at `stack_start`; the stack
/// grows down from there.
pub fn double_fault_stack_end(stack_start: u64) -> (end: u64)
    requires
        is_canonical(stack_start),
        stack_start + STACK_SIZE <= u64::MAX,
        is_canonical((stack_start + STACK_SIZE) as u64),
    ensures
        end == stack_start + STACK_SIZE,
{
    virt_addr_add(stack_start, STACK_SIZE as u64)
}

/// The stack of the double fault handler, if the one placed at `stack_start`
/// can be addressed: `None` when its start or its end is not a canonical
/// address, or its end overflows.
pub fn checked_double_fault_stack_end(stack_start: u64) -> (end: Option<u64>)
    ensures
        end == (if is_canonical(stack_start) && stack_start + STACK_SIZE <= u64::MAX && is_canonical(
            (stack_start + STACK_SIZE) as u64,
        ) {
            Some((stack_start + STACK_SIZE) as u64)
        } else {
            None::<u64>
        }),
{
    if !is_canonical_address(stack_start) {
        return None;
    }
    match stack_start.checked_add(STACK_SIZE as u64) {
        None => None,
        Some(top) => if is_canonical_address(top) {
            Some(double_fault_stack_end(stack_start))
        } else {
            None
        },
    }
}

} // verus!
