//! One handler per endpoint. Each is a single stateless
//! request/response exchange: it receives plain values — the record a
//! body was parsed into, or the outcome of the storage lookup the
//! caller performed — and returns the response or the typed error.
//!
//! The repetition, survey and IMU-record handlers deliberately return
//! success without persisting anything: that is the service's current
//! externally observable contract, preserved here as is.

use vstd::prelude::*;
use crate::LiftrightError;
use crate::decimal::{spec_decimal, u64_to_decimal};
use crate::imurecords::ImuRecordPair;
use crate::repetition::Repetition;
use crate::survey::Survey;
use crate::user::{RtfbLookup, User, spec_check_rtfb_status};

verus! {

/// The JSON reply of a status lookup.
#[derive(Debug, Clone, Copy, PartialEq, Eq, Structural)]
pub struct RtfbJsonReply {
    /// The device's real-time-feedback flag.
    pub rtfb_status: bool,
}

/// The JSON text of a status reply.
pub open spec fn spec_rtfb_reply_text(status: bool) -> Seq<char> {
    if status {
        "{\"rtfb_status\":true}"@
    } else {
        "{\"rtfb_status\":false}"@
    }
}

impl RtfbJsonReply {
    /// Renders the reply as its JSON text.
    pub fn render(&self) -> (r: String)
        ensures
            r@ == spec_rtfb_reply_text(self.rtfb_status),
    {
        if self.rtfb_status {
            String::from_str("{\"rtfb_status\":true}")
        } else {
            String::from_str("{\"rtfb_status\":false}")
        }
    }
}

/// The heartbeat body: the given clock reading, seconds since the
/// Unix epoch, as decimal text. The caller reads the clock; a host
/// clock before the epoch is an unrecoverable environment fault and
/// is the caller's to fail on, so every reading handed in here is
/// answered.
pub fn heartbeat(now_epoch_secs: u64) -> (r: String)
    ensures
        r@ == spec_decimal(now_epoch_secs as nat),
{
    u64_to_decimal(now_epoch_secs)
}

/// Accepts a repetition record and unconditionally reports success
/// with an empty body. The record is never persisted: the storage
/// path is intentionally not wired up, and this always-success
/// behavior is the endpoint's published contract.
pub fn create_repetition(rep: &Repetition) -> (r: Result<(), LiftrightError>)
    ensures
        r == Ok::<(), LiftrightError>(()),
{
    let _ = rep;
    Ok(())
}

/// Accepts a survey and unconditionally reports success with an empty
/// body; nothing is persisted, as with repetitions.
pub fn submit_survey(survey: &Survey) -> (r: Result<(), LiftrightError>)
    ensures
        r == Ok::<(), LiftrightError>(()),
{
    let _ = survey;
    Ok(())
}

/// Accepts a sequence of IMU record pairs and unconditionally reports
/// success with an empty body; nothing is persisted, as with
/// repetitions.
pub fn add_imu_records(imurecords: &Vec<ImuRecordPair>) -> (r: Result<(), LiftrightError>)
    ensures
        r == Ok::<(), LiftrightError>(()),
{
    let _ = imurecords;
    Ok(())
}

/// Answers a status lookup from the storage outcome the caller
/// obtained: a found flag becomes the JSON reply, and each failure
/// surfaces as its typed error.
pub fn rtfb_status(outcome: RtfbLookup) -> (r: Result<RtfbJsonReply, LiftrightError>)
    ensures
        r matches Ok(reply) ==> spec_check_rtfb_status(outcome) == Ok::<bool, LiftrightError>(
            reply.rtfb_status,
        ),
        r matches Err(e) ==> spec_check_rtfb_status(outcome) == Err::<bool, LiftrightError>(e),
{
    match User::check_rtfb_status(outcome) {
        Ok(b) => Ok(RtfbJsonReply { rtfb_status: b }),
        Err(e) => Err(e),
    }
}

} // verus!
