//! The router: maps an HTTP method and path to one of the service's
//! five endpoints, validates the device-identifier path segment of a
//! status lookup, and enforces the request body size limit before any
//! handler runs.

use vstd::prelude::*;
use crate::device::{
    DeviceId, lemma_uuid_value_bound, parse_device_id, spec_is_uuid, spec_uuid_value,
};
use crate::strutil::{contains_char, str_eq};

verus! {

/// Largest request body accepted on a body-carrying route: one
/// mebibyte. Larger bodies are rejected before the body is parsed.
pub const MAX_BODY_BYTES: usize = 1048576;

/// What the router decided for a request line.
#[derive(Debug, Clone, Copy, PartialEq, Eq, Structural)]
pub enum Route {
    /// `GET /v1/heartbeat`.
    Heartbeat,
    /// `PUT /v1/add_repetition`.
    AddRepetition,
    /// `GET /v1/rtfb_status/{device}` with a well-formed identifier.
    RtfbStatus(DeviceId),
    /// `POST /v1/submit_survey`.
    SubmitSurvey,
    /// `PUT /v1/add_imu_records`.
    AddImuRecords,
    /// A status lookup whose path segment is not a well-formed device
    /// identifier: a client error, reported before any storage access.
    InvalidDeviceId,
    /// No route matches the method and path.
    NotFound,
}

/// Whether `p` is a status-lookup path: the fixed prefix
/// `/v1/rtfb_status/` followed by one non-empty segment.
pub open spec fn spec_is_rtfb_path(p: Seq<char>) -> bool {
    &&& p.len() > 16
    &&& p.subrange(0, 16) == "/v1/rtfb_status/"@
    &&& !p.subrange(16, p.len() as int).contains('/')
}

/// The device-identifier segment of a status-lookup path.
pub open spec fn spec_rtfb_segment(p: Seq<char>) -> Seq<char> {
    p.subrange(16, p.len() as int)
}

/// The routing table: the first matching method and path wins; no two
/// routes share a pair. A wrong method on a known path falls through
/// to `NotFound`, as does everything outside the five routes.
pub open spec fn spec_route(m: Seq<char>, p: Seq<char>) -> Route {
    if m == "GET"@ && p == "/v1/heartbeat"@ {
        Route::Heartbeat
    } else if m == "PUT"@ && p == "/v1/add_repetition"@ {
        Route::AddRepetition
    } else if m == "POST"@ && p == "/v1/submit_survey"@ {
        Route::SubmitSurvey
    } else if m == "PUT"@ && p == "/v1/add_imu_records"@ {
        Route::AddImuRecords
    } else if m == "GET"@ && spec_is_rtfb_path(p) {
        if spec_is_uuid(spec_rtfb_segment(p)) {
            Route::RtfbStatus(DeviceId { value: spec_uuid_value(spec_rtfb_segment(p)) as u128 })
        } else {
            Route::InvalidDeviceId
        }
    } else {
        Route::NotFound
    }
}

/// Whether the route carries a request body.
pub open spec fn spec_route_accepts_body(r: Route) -> bool {
    r is AddRepetition || r is SubmitSurvey || r is AddImuRecords
}

/// What the service does with a request before any handler runs.
#[derive(Debug, Clone, Copy, PartialEq, Eq, Structural)]
pub enum RequestPlan {
    /// The body exceeds the size limit on a body-carrying route; the
    /// request is rejected without parsing the body or running a
    /// handler.
    RejectTooLarge,
    /// Hand the request to the routed handler.
    Dispatch(Route),
}

/// The pre-handler decision: oversized bodies on body-carrying routes
/// are rejected, everything else is dispatched as routed.
pub open spec fn spec_plan(m: Seq<char>, p: Seq<char>, body_len: nat) -> RequestPlan {
    if spec_route_accepts_body(spec_route(m, p)) && body_len > MAX_BODY_BYTES {
        RequestPlan::RejectTooLarge
    } else {
        RequestPlan::Dispatch(spec_route(m, p))
    }
}

/// Routes one request line.
pub fn route_request(method: &str, path: &str) -> (r: Route)
    ensures
        r == spec_route(method@, path@),
{
    if str_eq(method, "GET") && str_eq(path, "/v1/heartbeat") {
        return Route::Heartbeat;
    }
    if str_eq(method, "PUT") && str_eq(path, "/v1/add_repetition") {
        return Route::AddRepetition;
    }
    if str_eq(method, "POST") && str_eq(path, "/v1/submit_survey") {
        return Route::SubmitSurvey;
    }
    if str_eq(method, "PUT") && str_eq(path, "/v1/add_imu_records") {
        return Route::AddImuRecords;
    }
    if str_eq(method, "GET") {
        let plen = path.unicode_len();
        if plen > 16 {
            let head = path.substring_char(0, 16);
            if str_eq(head, "/v1/rtfb_status/") {
                let seg = path.substring_char(16, plen);
                if !contains_char(seg, '/') {
                    assert(spec_is_rtfb_path(path@));
                    match parse_device_id(seg) {
                        Some(id) => {
                            proof {
                                lemma_uuid_value_bound(seg@);
                            }
                            return Route::RtfbStatus(id);
                        },
                        None => {
                            return Route::InvalidDeviceId;
                        },
                    }
                }
            }
        }
    }
    Route::NotFound
}

/// Decides what to do with a request before its body is read: returns
/// the routed handler, or the size rejection for an oversized body on
/// a body-carrying route.
pub fn plan_request(method: &str, path: &str, body_len: usize) -> (r: RequestPlan)
    ensures
        r == spec_plan(method@, path@, body_len as nat),
{
    let route = route_request(method, path);
    let accepts_body = match route {
        Route::AddRepetition => true,
        Route::SubmitSurvey => true,
        Route::AddImuRecords => true,
        _ => false,
    };
    if accepts_body && body_len > MAX_BODY_BYTES {
        RequestPlan::RejectTooLarge
    } else {
        RequestPlan::Dispatch(route)
    }
}

/// A status lookup whose path segment is not a well-formed device
/// identifier is answered with a client error by the router itself:
/// no handler and no storage access is involved.
pub proof fn lemma_invalid_device_rejected(m: Seq<char>, p: Seq<char>)
    requires
        m == "GET"@,
        spec_is_rtfb_path(p),
        !spec_is_uuid(spec_rtfb_segment(p)),
    ensures
        spec_route(m, p) == Route::InvalidDeviceId,
{
    reveal_strlit("GET");
    reveal_strlit("PUT");
    reveal_strlit("POST");
    reveal_strlit("/v1/heartbeat");
    assert(m != "PUT"@) by {
        assert("GET"@[0] == 'G' && "PUT"@[0] == 'P');
    }
    assert(m != "POST"@) by {
        assert("GET"@.len() == 3 && "POST"@.len() == 4);
    }
    assert(p != "/v1/heartbeat"@) by {
        assert("/v1/heartbeat"@.len() == 13);
    }
}

/// A request whose body exceeds the size limit on a body-carrying
/// route is rejected before the handler is invoked, whatever the body
/// holds.
pub proof fn lemma_oversized_body_rejected(m: Seq<char>, p: Seq<char>, body_len: nat)
    requires
        spec_route_accepts_body(spec_route(m, p)),
        body_len > MAX_BODY_BYTES,
    ensures
        spec_plan(m, p, body_len) == RequestPlan::RejectTooLarge,
{
}

} // verus!
