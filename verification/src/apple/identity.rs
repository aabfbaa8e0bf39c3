//! Pointer identities built from platform pointer and device identifiers.
use vstd::prelude::*;

use crate::pointer::{
    PersistentDeviceId, PointerId, PointerInfo, PointerType, PRIMARY_POINTER_ID,
};

verus! {

/// Offset applied to platform pointer identifiers before constructing
/// [`PointerId`] or [`PersistentDeviceId`] values.
///
/// The primary pointer id is reserved with the value `1`. Offsetting
/// platform id `0` by `2` makes the first platform-derived id `2`, avoiding
/// collisions with the synthetic primary pointer id.
pub const PLATFORM_POINTER_ID_OFFSET: u64 = 2;

/// The pointer id that a raw platform id becomes: the raw id shifted by
/// [`PLATFORM_POINTER_ID_OFFSET`], or no id when the shift overflows.
pub open spec fn platform_id_value(raw: Option<u64>) -> Option<u64> {
    match raw {
        Some(id) => if id + PLATFORM_POINTER_ID_OFFSET <= u64::MAX {
            Some((id + PLATFORM_POINTER_ID_OFFSET) as u64)
        } else {
            None
        },
        None => None,
    }
}

/// The value of an optional pointer id.
pub open spec fn pointer_id_value(id: Option<PointerId>) -> Option<u64> {
    match id {
        Some(p) => Some(p.value()),
        None => None,
    }
}

/// The value of an optional device id.
pub open spec fn device_id_value(id: Option<PersistentDeviceId>) -> Option<u64> {
    match id {
        Some(p) => Some(p.value()),
        None => None,
    }
}

fn offset_pointer_id(raw: Option<u64>) -> (r: Option<PointerId>)
    ensures
        pointer_id_value(r) == platform_id_value(raw),
{
    match raw {
        Some(id) => match id.checked_add(PLATFORM_POINTER_ID_OFFSET) {
            Some(v) => PointerId::new(v),
            None => None,
        },
        None => None,
    }
}

fn offset_device_id(raw: Option<u64>) -> (r: Option<PersistentDeviceId>)
    ensures
        device_id_value(r) == platform_id_value(raw),
{
    match raw {
        Some(id) => match id.checked_add(PLATFORM_POINTER_ID_OFFSET) {
            Some(v) => PersistentDeviceId::new(v),
            None => None,
        },
        None => None,
    }
}

/// Build a [`PointerInfo`] from a platform pointer identifier.
///
/// The resulting id is never the reserved primary id.
pub fn pointer_info_from_platform_pointer_id(pointer_type: PointerType, pointer_id: u64) -> (r:
    PointerInfo)
    ensures
        pointer_id_value(r.pointer_id) == platform_id_value(Some(pointer_id)),
        r.persistent_device_id == None::<PersistentDeviceId>,
        r.pointer_type == pointer_type,
        !crate::pointer::is_primary_id(r.pointer_id),
{
    PointerInfo {
        pointer_id: offset_pointer_id(Some(pointer_id)),
        persistent_device_id: None,
        pointer_type,
    }
}

/// Build a [`PointerInfo`] from platform pointer and device identifiers.
///
/// Neither resulting id collides with the reserved primary id.
pub fn pointer_info_from_platform_ids(
    pointer_type: PointerType,
    pointer_id: Option<u64>,
    device_id: Option<u64>,
) -> (r: PointerInfo)
    ensures
        pointer_id_value(r.pointer_id) == platform_id_value(pointer_id),
        device_id_value(r.persistent_device_id) == platform_id_value(device_id),
        r.pointer_type == pointer_type,
        !crate::pointer::is_primary_id(r.pointer_id),
{
    PointerInfo {
        pointer_id: offset_pointer_id(pointer_id),
        persistent_device_id: offset_device_id(device_id),
        pointer_type,
    }
}

/// Build a [`PointerInfo`] for the given [`PointerType`] with a primary id.
pub fn pointer_info_primary_for_type(pointer_type: PointerType) -> (r: PointerInfo)
    ensures
        pointer_id_value(r.pointer_id) == Some(PRIMARY_POINTER_ID),
        r.persistent_device_id == None::<PersistentDeviceId>,
        r.pointer_type == pointer_type,
{
    PointerInfo {
        pointer_id: Some(PointerId::primary()),
        persistent_device_id: None,
        pointer_type,
    }
}

} // verus!
