//! Integer figures derived from the last values of counters, as `sar` derives them.
use vstd::prelude::*;
use crate::text::{decimal, push_decimal};

verus! {

/// Memory that `sar` counts as not used: free memory, buffers, page cache and slab,
/// at most all of memory.
pub open spec fn non_used_memory(memtotal: nat, memfree: nat, buffers: nat, cached: nat, slab: nat) -> nat {
    if memfree + buffers + cached + slab > memtotal {
        memtotal
    } else {
        memfree + buffers + cached + slab
    }
}

/// Memory in use as `sar -r` reports it: all memory less what is not used.
pub fn memory_used(memtotal: u64, memfree: u64, buffers: u64, cached: u64, slab: u64) -> (r: u64)
    ensures
        r == memtotal - non_used_memory(
            memtotal as nat,
            memfree as nat,
            buffers as nat,
            cached as nat,
            slab as nat,
        ),
        r <= memtotal,
{
    let sum = memfree as u128 + buffers as u128 + cached as u128 + slab as u128;
    if sum > memtotal as u128 {
        0
    } else {
        memtotal - (sum as u64)
    }
}

/// The `major:minor` device number of a block device.
pub fn device_major_minor(major: u64, minor: u64) -> (r: String)
    ensures
        r@ == decimal(major as nat) + seq![':'] + decimal(minor as nat),
{
    let mut s = String::new();
    push_decimal(major, &mut s);
    let ghost before = s@;
    proof { reveal_strlit(":"); }
    s.append(":");
    push_decimal(minor, &mut s);
    s
}

} // verus!
