//! Users and the real-time-feedback status lookup.

use vstd::prelude::*;
use crate::LiftrightError;
use crate::device::DeviceId;

verus! {

/// A user as this service sees one: a device identifier and the
/// per-device real-time-feedback flag. The flag is read-only here; it
/// is mutated elsewhere.
#[derive(Debug, Clone, Copy, PartialEq, Eq, Structural)]
pub struct User {
    /// The device the user reports from.
    pub device_id: DeviceId,
    /// Whether real-time feedback is enabled for the device.
    pub rtfb_status: bool,
}

/// What the storage driver reported for a status lookup. The caller
/// performs the query and hands the outcome in as a plain value.
#[derive(Debug, Clone, Copy, PartialEq, Eq, Structural)]
pub enum RtfbLookup {
    /// The device is known and its flag holds this value.
    Found(bool),
    /// Storage answered, but knows no such device.
    UnknownDevice,
    /// Storage was unreachable or the query itself failed.
    StorageError,
}

/// How a lookup outcome is mapped into the service's error taxonomy:
/// a found flag is returned as is; an unknown device and a storage
/// failure surface as two distinct errors.
pub open spec fn spec_check_rtfb_status(outcome: RtfbLookup) -> Result<bool, LiftrightError> {
    match outcome {
        RtfbLookup::Found(b) => Ok(b),
        RtfbLookup::UnknownDevice => Err(LiftrightError::UnknownDeviceError),
        RtfbLookup::StorageError => Err(LiftrightError::DatabaseError),
    }
}

impl User {
    /// Maps the driver's answer to a status lookup into the service's
    /// error taxonomy. Never panics; every failure is surfaced as a
    /// typed error.
    pub fn check_rtfb_status(outcome: RtfbLookup) -> (r: Result<bool, LiftrightError>)
        ensures
            r == spec_check_rtfb_status(outcome),
    {
        match outcome {
            RtfbLookup::Found(b) => Ok(b),
            RtfbLookup::UnknownDevice => Err(LiftrightError::UnknownDeviceError),
            RtfbLookup::StorageError => Err(LiftrightError::DatabaseError),
        }
    }
}

/// A lookup that found no such device is distinguishable from one
/// that could not reach storage: the two outcomes map to two distinct
/// errors, and neither is a success.
pub proof fn lemma_lookup_failures_distinct()
    ensures
        spec_check_rtfb_status(RtfbLookup::UnknownDevice) is Err,
        spec_check_rtfb_status(RtfbLookup::StorageError) is Err,
        spec_check_rtfb_status(RtfbLookup::UnknownDevice) != spec_check_rtfb_status(
            RtfbLookup::StorageError,
        ),
{
}

} // verus!
