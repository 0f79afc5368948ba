use liftright_data_server::device::{DeviceId, parse_device_id};
use liftright_data_server::filters::{MAX_BODY_BYTES, RequestPlan, Route, plan_request, route_request};

#[test]
fn heartbeat_route_matches() {
    assert_eq!(route_request("GET", "/v1/heartbeat"), Route::Heartbeat);
}

#[test]
fn add_repetition_route_matches() {
    assert_eq!(route_request("PUT", "/v1/add_repetition"), Route::AddRepetition);
}

#[test]
fn submit_survey_route_matches() {
    assert_eq!(route_request("POST", "/v1/submit_survey"), Route::SubmitSurvey);
}

#[test]
fn add_imu_records_route_matches() {
    assert_eq!(route_request("PUT", "/v1/add_imu_records"), Route::AddImuRecords);
}

#[test]
fn wrong_method_is_not_found() {
    assert_eq!(route_request("GET", "/v1/add_repetition"), Route::NotFound);
    assert_eq!(route_request("PUT", "/v1/heartbeat"), Route::NotFound);
    assert_eq!(route_request("PUT", "/v1/submit_survey"), Route::NotFound);
}

#[test]
fn unknown_path_is_not_found() {
    assert_eq!(route_request("GET", "/v1/unknown"), Route::NotFound);
    assert_eq!(route_request("GET", "/"), Route::NotFound);
    assert_eq!(route_request("GET", ""), Route::NotFound);
}

#[test]
fn rtfb_route_with_valid_uuid() {
    let u = uuid::Uuid::new_v4();
    let path = format!("/v1/rtfb_status/{}", u);
    assert_eq!(
        route_request("GET", &path),
        Route::RtfbStatus(DeviceId { value: u.as_u128() })
    );
}

#[test]
fn rtfb_route_with_bad_uuid_is_client_error() {
    assert_eq!(route_request("GET", "/v1/rtfb_status/not-a-uuid"), Route::InvalidDeviceId);
}

#[test]
fn rtfb_route_with_empty_segment_is_not_found() {
    assert_eq!(route_request("GET", "/v1/rtfb_status/"), Route::NotFound);
}

#[test]
fn rtfb_route_with_extra_segment_is_not_found() {
    let u = uuid::Uuid::new_v4();
    let path = format!("/v1/rtfb_status/{}/extra", u);
    assert_eq!(route_request("GET", &path), Route::NotFound);
}

#[test]
fn parse_device_id_accepts_canonical_form() {
    let u = uuid::Uuid::new_v4();
    let id = parse_device_id(&u.to_string()).expect("canonical form must parse");
    assert_eq!(id.value, u.as_u128());
}

#[test]
fn parse_device_id_accepts_upper_case() {
    let id = parse_device_id("00000000-0000-0000-C000-000000000046").expect("upper case hex");
    assert_eq!(id.value, 0xC000_0000_0000_0046u128);
}

#[test]
fn hyphenated_matches_the_canonical_crate_rendering() {
    let u = uuid::Uuid::new_v4();
    let id = DeviceId { value: u.as_u128() };
    assert_eq!(id.hyphenated(), u.to_string());
}

#[test]
fn hyphenated_keeps_leading_zeros() {
    let id = DeviceId { value: 0 };
    assert_eq!(id.hyphenated(), "00000000-0000-0000-0000-000000000000");
}

#[test]
fn hyphenated_then_parsed_is_identity() {
    let id = DeviceId { value: 0x0123_4567_89ab_cdef_0011_2233_4455_6677u128 };
    let text = id.hyphenated();
    assert_eq!(text, "01234567-89ab-cdef-0011-223344556677");
    assert_eq!(parse_device_id(&text), Some(id));
}

#[test]
fn parse_device_id_rejects_malformed_text() {
    assert!(parse_device_id("").is_none());
    assert!(parse_device_id("not-a-uuid").is_none());
    assert!(parse_device_id("00000000-0000-0000-0000-00000000000").is_none());
    assert!(parse_device_id("00000000-0000-0000-0000-0000000000000").is_none());
    assert!(parse_device_id("00000000000000000000000000000000").is_none());
    assert!(parse_device_id("0000000000000-0000-0000-000000000046").is_none());
    assert!(parse_device_id("g0000000-0000-0000-0000-000000000046").is_none());
}

#[test]
fn oversized_body_is_rejected_before_dispatch() {
    assert_eq!(
        plan_request("PUT", "/v1/add_repetition", MAX_BODY_BYTES + 1),
        RequestPlan::RejectTooLarge
    );
    assert_eq!(
        plan_request("POST", "/v1/submit_survey", MAX_BODY_BYTES + 1),
        RequestPlan::RejectTooLarge
    );
    assert_eq!(
        plan_request("PUT", "/v1/add_imu_records", MAX_BODY_BYTES + 1),
        RequestPlan::RejectTooLarge
    );
}

#[test]
fn body_at_limit_is_dispatched() {
    assert_eq!(
        plan_request("PUT", "/v1/add_repetition", MAX_BODY_BYTES),
        RequestPlan::Dispatch(Route::AddRepetition)
    );
}

#[test]
fn bodyless_routes_ignore_the_limit() {
    assert_eq!(
        plan_request("GET", "/v1/heartbeat", MAX_BODY_BYTES + 1),
        RequestPlan::Dispatch(Route::Heartbeat)
    );
}
