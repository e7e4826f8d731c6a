//! Physical device selection.
//!
//! Devices are considered in driver-reported order. A device is suitable
//! when it supports the mandatory device extensions, its queue-family scan
//! resolves both required roles, and its swapchain-support snapshot was
//! gathered successfully and is adequate. The first suitable device wins;
//! there is no scoring. A device whose support query failed, or whose
//! family scan ended in an error, is skipped, never aborting enumeration.

use vstd::prelude::*;

use crate::errors::AppError;
use crate::queue_families::{
    is_first_graphics, is_first_present, scan_complete, QueueFamilyIndices, QueueFamilyInfo,
};
use crate::swapchain::SwapChainSupportDetails;

verus! {

/// What selection reads of one enumerated physical device: whether it
/// supports the mandatory extension set, its queue families as the scan
/// sees them, and the outcome of the swapchain-support query (`None` when
/// the query itself failed).
#[derive(Debug, Clone, PartialEq, Eq)]
pub struct PhysicalDeviceInfo {
    pub supports_required_extensions: bool,
    pub queue_families: Vec<QueueFamilyInfo>,
    pub swapchain_support: Option<SwapChainSupportDetails>,
}

/// The outcome of selection: which device won, its resolved queue families,
/// and its support snapshot, reused by swapchain negotiation so the surface
/// is queried exactly once.
#[derive(Debug, Clone, PartialEq, Eq)]
pub struct SelectedDevice {
    pub device_index: usize,
    pub queue_family_indices: QueueFamilyIndices,
    pub swapchain_support: SwapChainSupportDetails,
}

/// A device passes every selection filter.
pub open spec fn suitable(d: PhysicalDeviceInfo) -> bool {
    &&& d.supports_required_extensions
    &&& scan_complete(d.queue_families@)
    &&& d.swapchain_support matches Some(s) && s.spec_is_adequate()
}

/// The position of the first suitable device, if any.
pub open spec fn first_suitable(devices: Seq<PhysicalDeviceInfo>) -> Option<int>
    decreases devices.len(),
{
    if devices.len() == 0 {
        None
    } else if suitable(devices[0]) {
        Some(0)
    } else {
        match first_suitable(devices.drop_first()) {
            Some(i) => Some(i + 1),
            None => None,
        }
    }
}

/// What `first_suitable` means pointwise: it names a suitable device with
/// no suitable device before it, and it is absent exactly when no device
/// is suitable.
pub proof fn lemma_first_suitable_characterization(devices: Seq<PhysicalDeviceInfo>)
    ensures
        match first_suitable(devices) {
            None => forall|j: int| 0 <= j < devices.len() ==> !suitable(devices[j]),
            Some(i) => 0 <= i < devices.len() && suitable(devices[i]) && (forall|j: int|
                0 <= j < i ==> !suitable(devices[j])),
        },
    decreases devices.len(),
{
    if devices.len() == 0 {
    } else if suitable(devices[0]) {
    } else {
        let rest = devices.drop_first();
        lemma_first_suitable_characterization(rest);
        assert(forall|j: int| 0 <= j < rest.len() ==> rest[j] == devices[j + 1]);
        match first_suitable(rest) {
            None => {
                assert forall|j: int| 0 <= j < devices.len() implies !suitable(devices[j]) by {
                    if j > 0 {
                        assert(!suitable(rest[j - 1]));
                    }
                }
            },
            Some(i) => {
                assert(suitable(devices[i + 1]));
                assert forall|j: int| 0 <= j < i + 1 implies !suitable(devices[j]) by {
                    if j > 0 {
                        assert(!suitable(rest[j - 1]));
                    }
                }
            },
        }
    }
}

/// The first device to pass every filter is selected, regardless of what
/// stands after it: whenever device `k` is suitable and no device before
/// `k` is, selection lands on `k`.
pub proof fn lemma_first_suitable_wins(devices: Seq<PhysicalDeviceInfo>, k: int)
    requires
        0 <= k < devices.len(),
        suitable(devices[k]),
        forall|j: int| 0 <= j < k ==> !suitable(devices[j]),
    ensures
        first_suitable(devices) == Some(k),
    decreases k,
{
    if k == 0 {
    } else {
        assert(!suitable(devices[0]));
        assert(forall|j: int|
            0 <= j < devices.drop_first().len() ==> devices.drop_first()[j] == devices[j + 1]);
        lemma_first_suitable_wins(devices.drop_first(), k - 1);
    }
}

/// A device whose swapchain-support query failed is skipped, not fatal:
/// it is never suitable itself, and a later device `k` that passes every
/// filter is still selected, so enumeration continues past the failure.
pub proof fn lemma_failed_query_is_skipped(devices: Seq<PhysicalDeviceInfo>, f: int, k: int)
    requires
        0 <= f < k < devices.len(),
        devices[f].swapchain_support is None,
        suitable(devices[k]),
        forall|j: int| 0 <= j < k && j != f ==> !suitable(devices[j]),
    ensures
        !suitable(devices[f]),
        first_suitable(devices) == Some(k),
{
    assert(!suitable(devices[f]));
    lemma_first_suitable_wins(devices, k);
}

/// Holds one device to the three selection filters in turn: mandatory
/// extension support, a queue-family scan resolving both roles (a scan that
/// ends in an error merely disqualifies the device), and an adequate
/// swapchain-support snapshot (a failed query likewise merely disqualifies
/// it). Its resolved queue families come back exactly when the device is
/// suitable, so enumeration can stop at the first such device.
pub fn evaluate_device(device: &PhysicalDeviceInfo) -> (r: Option<QueueFamilyIndices>)
    requires
        device.queue_families@.len() <= u32::MAX,
    ensures
        r is Some <==> suitable(*device),
        r matches Some(ix) ==> is_first_graphics(device.queue_families@, ix.graphics_family as int)
            && is_first_present(device.queue_families@, ix.present_family as int),
{
    if device.supports_required_extensions {
        match QueueFamilyIndices::find(&device.queue_families) {
            Ok(Some(indices)) => {
                match &device.swapchain_support {
                    Some(support) => {
                        if support.is_adequate() {
                            Some(indices)
                        } else {
                            None
                        }
                    },
                    None => None,
                }
            },
            _ => None,
        }
    } else {
        None
    }
}

/// Selects the first suitable physical device in enumeration order.
///
/// Each device is held to the three filters of `evaluate_device`. The
/// winner comes back with its resolved indices and its snapshot; when no
/// device passes, selection fails with the no-suitable-device condition.
pub fn pick_physical_device(devices: Vec<PhysicalDeviceInfo>) -> (r: Result<
    SelectedDevice,
    AppError,
>)
    requires
        forall|i: int|
            0 <= i < devices@.len() ==> (#[trigger] devices@[i].queue_families)@.len()
                <= u32::MAX,
    ensures
        first_suitable(devices@) matches Some(i) ==> (r matches Ok(sel) && {
            &&& sel.device_index == i
            &&& suitable(devices@[i])
            &&& is_first_graphics(
                devices@[i].queue_families@,
                sel.queue_family_indices.graphics_family as int,
            )
            &&& is_first_present(
                devices@[i].queue_families@,
                sel.queue_family_indices.present_family as int,
            )
            &&& devices@[i].swapchain_support == Some(sel.swapchain_support)
        }),
        first_suitable(devices@) is None ==> r == Err::<SelectedDevice, AppError>(
            AppError::PhysicalDevices,
        ),
{
    let ghost ds = devices@;
    let n = devices.len();
    let mut k: usize = 0;
    let mut winner: Option<(usize, QueueFamilyIndices)> = None;
    while k < n && winner.is_none()
        invariant
            n == ds.len(),
            devices@ == ds,
            0 <= k <= n,
            forall|i: int| 0 <= i < ds.len() ==> (#[trigger] ds[i].queue_families)@.len() <= u32::MAX,
            winner is None ==> forall|j: int| 0 <= j < k ==> !suitable(ds[j]),
            winner matches Some((w, q)) ==> {
                &&& w + 1 == k
                &&& suitable(ds[w as int])
                &&& (forall|j: int| 0 <= j < w ==> !suitable(ds[j]))
                &&& is_first_graphics(ds[w as int].queue_families@, q.graphics_family as int)
                &&& is_first_present(ds[w as int].queue_families@, q.present_family as int)
            },
        decreases n - k,
    {
        match evaluate_device(&devices[k]) {
            Some(indices) => {
                winner = Some((k, indices));
            },
            None => {
                assert(!suitable(ds[k as int]));
            },
        }
        k = k + 1;
    }
    match winner {
        Some((w, indices)) => {
            proof {
                lemma_first_suitable_wins(ds, w as int);
            }
            let mut devices = devices;
            let d = devices.remove(w);
            match d.swapchain_support {
                Some(support) => Ok(
                    SelectedDevice {
                        device_index: w,
                        queue_family_indices: indices,
                        swapchain_support: support,
                    },
                ),
                None => {
                    proof {
                        assert(suitable(ds[w as int]));
                        assert(false);
                    }
                    Err(AppError::PhysicalDevices)
                },
            }
        },
        None => {
            proof {
                lemma_first_suitable_characterization(ds);
                match first_suitable(ds) {
                    Some(i) => {
                        assert(suitable(ds[i]));
                        assert(false);
                    },
                    None => {},
                }
            }
            Err(AppError::PhysicalDevices)
        },
    }
}

} // verus!
