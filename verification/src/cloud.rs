//! Sizing of the vertex buffer that receives the point cloud: capacity grows
//! by doubling, so a buffer is reallocated only logarithmically often as the
//! sample count is edited upward.

use vstd::prelude::*;

verus! {

/// The capacity the doubling scheme reaches from `capacity` when `current`
/// vertices must fit: doubled until it is no longer below `current`.
pub open spec fn spec_next_capacity_from(current: int, capacity: int) -> int
    decreases (if 1 <= capacity && capacity < current {
        current - capacity
    } else {
        0
    }),
{
    if 1 <= capacity && capacity < current {
        spec_next_capacity_from(current, 2 * capacity)
    } else {
        capacity
    }
}

/// The smallest power-of-two capacity (starting from one) that holds
/// `current` vertices.
pub fn next_capacity(current: usize) -> (r: usize)
    requires
        current <= usize::MAX / 2 + 1,
    ensures
        r == spec_next_capacity_from(current as int, 1),
        r >= current,
        r >= 1,
{
    let mut capacity: usize = 1;
    while capacity < current
        invariant
            1 <= capacity,
            current <= usize::MAX / 2 + 1,
            spec_next_capacity_from(current as int, capacity as int) == spec_next_capacity_from(
                current as int,
                1,
            ),
        decreases (if capacity < current {
            current - capacity
        } else {
            0int
        }),
    {
        capacity = capacity * 2;
    }
    capacity
}

} // verus!
