//! Paired inertial-measurement samples reported by a client device.

use vstd::prelude::*;

verus! {

/// One inertial sample. The three components are carried as raw
/// 64-bit encodings exactly as the device reported them; this service
/// stores samples and never interprets their numeric content.
#[derive(Debug, Clone, Copy, PartialEq, Eq, Structural)]
pub struct ImuRecord {
    /// Raw encoding of the sample's first component.
    pub x_bits: u64,
    /// Raw encoding of the sample's second component.
    pub y_bits: u64,
    /// Raw encoding of the sample's third component.
    pub z_bits: u64,
}

/// A pair of samples taken together: one from the accelerometer, one
/// from the gyroscope.
#[derive(Debug, Clone, Copy, PartialEq, Eq, Structural)]
pub struct ImuRecordPair {
    /// The accelerometer sample.
    pub accelerometer: ImuRecord,
    /// The gyroscope sample taken with it.
    pub gyroscope: ImuRecord,
}

} // verus!
