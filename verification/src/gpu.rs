//! The dispatch plan of the GPU compute passes: how many workgroups cover a
//! batch of items, and how many bytes a results buffer needs.

use vstd::prelude::*;

verus! {

/// Threads in one workgroup of the compute shaders.
pub const WORKGROUP_SIZE: u32 = 64;

/// The workgroup grid that covers `count` items, 64 to a workgroup, laid out
/// along x: `(ceil(count / 64), 1, 1)`.
pub fn workgroups_for(count: u32) -> (groups: (u32, u32, u32))
    requires
        count + 63 <= u32::MAX,
    ensures
        groups.0 == (count + 63) / 64,
        groups.0 * 64 >= count,
        groups.0 * 64 < count + 64,
        groups.1 == 1,
        groups.2 == 1,
{
    ((count + 63) / WORKGROUP_SIZE, 1, 1)
}

/// The workgroups along x cover all `count` items, and one fewer would not.
pub proof fn lemma_workgroups_cover(count: u32)
    requires
        count + 63 <= u32::MAX,
    ensures
        ((count + 63) / 64) * 64 >= count,
        ((count + 63) / 64) * 64 < count + 64,
{
}

/// The size in bytes of a buffer holding `count` elements of `element_size`
/// bytes each.
pub fn storage_bytes(count: usize, element_size: usize) -> (bytes: u64)
    requires
        count * element_size <= usize::MAX,
    ensures
        bytes == count * element_size,
{
    (count * element_size) as u64
}

} // verus!
