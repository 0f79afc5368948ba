use std::time::{SystemTime, UNIX_EPOCH};

use liftright_data_server::LiftrightError;
use liftright_data_server::handlers::{
    RtfbJsonReply, add_imu_records, create_repetition, heartbeat, rtfb_status, submit_survey,
};
use liftright_data_server::imurecords::{ImuRecord, ImuRecordPair};
use liftright_data_server::repetition::Repetition;
use liftright_data_server::survey::{IncomingSurvey, Survey};
use liftright_data_server::user::{RtfbLookup, User};

#[test]
fn heartbeat_renders_exact_decimal() {
    assert_eq!(heartbeat(0), "0");
    assert_eq!(heartbeat(7), "7");
    assert_eq!(heartbeat(1_600_000_000), "1600000000");
    assert_eq!(heartbeat(u64::MAX), "18446744073709551615");
}

#[test]
fn heartbeat_twice_is_non_decreasing() {
    let first = SystemTime::now()
        .duration_since(UNIX_EPOCH)
        .expect("System time is before epoch!")
        .as_secs();
    let second = SystemTime::now()
        .duration_since(UNIX_EPOCH)
        .expect("System time is before epoch!")
        .as_secs();
    let a: u64 = heartbeat(first).parse().expect("decimal text");
    let b: u64 = heartbeat(second).parse().expect("decimal text");
    assert!(a <= b);
}

#[test]
fn create_repetition_accepts_minimal_record() {
    assert_eq!(create_repetition(&Repetition::default()), Ok(()));
}

#[test]
fn create_repetition_accepts_full_record() {
    let rep = Repetition {
        exercise: Some(String::from("bicep curl")),
        number: Some(12),
        duration_ms: Some(1800),
    };
    assert_eq!(create_repetition(&rep), Ok(()));
}

#[test]
fn submit_survey_accepts_any_valid_survey() {
    let survey = Survey::from_incoming(IncomingSurvey {
        device_id: uuid::Uuid::new_v4().to_string(),
        submitted: None,
        survey_data: Vec::new(),
    })
    .expect("valid survey");
    assert_eq!(submit_survey(&survey), Ok(()));
}

#[test]
fn add_imu_records_accepts_any_batch() {
    let sample = ImuRecord {
        x_bits: 1.0f64.to_bits(),
        y_bits: (-2.5f64).to_bits(),
        z_bits: 0.25f64.to_bits(),
    };
    let pair = ImuRecordPair { accelerometer: sample, gyroscope: sample };
    assert_eq!(add_imu_records(&vec![pair, pair]), Ok(()));
    assert_eq!(add_imu_records(&Vec::new()), Ok(()));
}

#[test]
fn rtfb_status_returns_found_flag() {
    assert_eq!(
        rtfb_status(RtfbLookup::Found(true)),
        Ok(RtfbJsonReply { rtfb_status: true })
    );
    assert_eq!(
        rtfb_status(RtfbLookup::Found(false)),
        Ok(RtfbJsonReply { rtfb_status: false })
    );
}

#[test]
fn rtfb_lookup_failures_are_distinguishable() {
    let unknown = rtfb_status(RtfbLookup::UnknownDevice);
    let unavailable = rtfb_status(RtfbLookup::StorageError);
    assert_eq!(unknown, Err(LiftrightError::UnknownDeviceError));
    assert_eq!(unavailable, Err(LiftrightError::DatabaseError));
    assert_ne!(unknown, unavailable);
}

#[test]
fn check_rtfb_status_maps_each_outcome() {
    assert_eq!(User::check_rtfb_status(RtfbLookup::Found(true)), Ok(true));
    assert_eq!(
        User::check_rtfb_status(RtfbLookup::UnknownDevice),
        Err(LiftrightError::UnknownDeviceError)
    );
    assert_eq!(
        User::check_rtfb_status(RtfbLookup::StorageError),
        Err(LiftrightError::DatabaseError)
    );
}

#[test]
fn rtfb_reply_renders_json() {
    assert_eq!(RtfbJsonReply { rtfb_status: true }.render(), "{\"rtfb_status\":true}");
    assert_eq!(RtfbJsonReply { rtfb_status: false }.render(), "{\"rtfb_status\":false}");
}
