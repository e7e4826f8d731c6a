//! Logical device and queue allocation decisions.
//!
//! The device is created with exactly one queue per distinct required
//! family: graphics and present coincide on many devices and must not be
//! requested twice from the same family. After creation, each role's queue
//! is looked up in the returned queue list by family index, and a missing
//! queue is a role-tagged failure even though selection should have made
//! that impossible.

use vstd::prelude::*;

use crate::errors::{AppError, QueueFamilyType};
use crate::queue_families::QueueFamilyIndices;

verus! {

/// The deduplicated list of queue families the device must be created
/// with: the graphics family, and the present family only when distinct.
pub fn unique_queue_family_indices(indices: &QueueFamilyIndices) -> (r: Vec<u32>)
    ensures
        indices.graphics_family == indices.present_family ==> r@ == seq![
            indices.graphics_family,
        ],
        indices.graphics_family != indices.present_family ==> r@ == seq![
            indices.graphics_family,
            indices.present_family,
        ],
        r@.no_duplicates(),
{
    let mut families: Vec<u32> = Vec::new();
    families.push(indices.graphics_family);
    if indices.present_family != indices.graphics_family {
        families.push(indices.present_family);
        proof {
            assert(families@ =~= seq![indices.graphics_family, indices.present_family]);
        }
    } else {
        proof {
            assert(families@ =~= seq![indices.graphics_family]);
        }
    }
    families
}

/// Finds the queue serving `family` in the created device's queue list,
/// given as the family index of each returned queue, in order.
///
/// The first queue whose family matches is chosen; when none matches, the
/// lookup fails with the condition tagged by the requested role.
pub fn find_queue_position(queue_families: &Vec<u32>, family: u32, role: QueueFamilyType) -> (r:
    Result<usize, AppError>)
    ensures
        r matches Ok(i) ==> i < queue_families@.len() && queue_families@[i as int] == family
            && (forall|j: int| 0 <= j < i ==> queue_families@[j] != family),
        (exists|j: int| 0 <= j < queue_families@.len() && queue_families@[j] == family) <==> r
            is Ok,
        r matches Err(e) ==> e == AppError::QueueForDevice(role),
{
    let n = queue_families.len();
    let mut k: usize = 0;
    while k < n
        invariant
            n == queue_families@.len(),
            0 <= k <= n,
            forall|j: int| 0 <= j < k ==> queue_families@[j] != family,
        decreases n - k,
    {
        if queue_families[k] == family {
            return Ok(k);
        }
        k = k + 1;
    }
    Err(AppError::QueueForDevice(role))
}

} // verus!
