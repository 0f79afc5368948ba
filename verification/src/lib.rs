//! Data-collection service core for LiftRight fitness telemetry.
//!
//! The library holds the request-routing, validation and persistence
//! contracts of the service: the data model (repetitions, IMU record
//! pairs, surveys, users), the router that maps a method and path to a
//! handler, the handlers themselves, and the error taxonomy. Network
//! I/O, argument parsing and the database driver live outside; they
//! hand the library plain values and take plain values back.

use vstd::prelude::*;

pub mod decimal;
pub mod device;
pub mod filters;
pub mod handlers;
pub mod imurecords;
pub mod repetition;
pub mod strutil;
pub mod survey;
pub mod user;

verus! {

/// The service's error taxonomy.
///
/// Lookup failures distinguish a device that is simply absent
/// (`UnknownDeviceError`) from storage that is unreachable or a query
/// that failed (`DatabaseError`), so that callers can tell the two
/// apart.
#[derive(Debug, Clone, Copy, PartialEq, Eq, Structural)]
pub enum LiftrightError {
    /// Storage was unreachable or the query itself failed.
    DatabaseError,
    /// A payload could not be converted to its storage representation.
    SerializationError,
    /// The operation is intentionally not wired to storage.
    UnimplementedError,
    /// A request carried a malformed or missing required field, such as
    /// an empty or ill-formed device identifier.
    ValidationError,
    /// A lookup named a device identifier that storage does not know.
    UnknownDeviceError,
}

} // verus!
