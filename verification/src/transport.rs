//! The decision half of the HTTP POST helper: status validation, body
//! parsing, and the exact failure message for every transport outcome.
//! The send itself is I/O and lives with the caller of this crate.

use vstd::prelude::*;

use crate::error::Error;
use crate::json::{json_parse, parse_json, Json};
use crate::text::{dec_digits, u16_to_string};
use vstd::string::StringExecFns;

verus! {

/// What one attempted HTTP exchange came to, as observed by the caller:
/// the send failed, the status was reported bad, the body could not be
/// read, or a body text arrived.
pub enum FetchOutcome {
    SendFailed(String),
    BadStatus(u16),
    ReadFailed(String),
    Body(String),
}

/// A status code in the HTTP success range.
pub open spec fn spec_status_ok(status: u16) -> bool {
    200 <= status < 300
}

/// Decides whether `status` is a success, exactly as `spec_status_ok` says.
/// A response with any other status is rejected without reading its body.
pub fn status_ok(status: u16) -> (r: bool)
    ensures
        r == spec_status_ok(status),
{
    200 <= status && status < 300
}

/// The message reported when the request could not be sent at all.
pub open spec fn spec_send_failed_msg(cause: Seq<char>) -> Seq<char> {
    "Failed to send request: "@ + cause
}

/// The message reported for a non-success status; it carries the literal
/// decimal status code.
pub open spec fn spec_status_msg(status: u16) -> Seq<char> {
    "Request failed with status code: "@ + dec_digits(status as nat)
}

/// The message reported when the response body could not be read.
pub open spec fn spec_read_failed_msg(cause: Seq<char>) -> Seq<char> {
    "Failed to read response: "@ + cause
}

/// Whether `p` is a prefix of `s`.
pub open spec fn spec_has_prefix(s: Seq<char>, p: Seq<char>) -> bool {
    p.len() <= s.len() && s.subrange(0, p.len() as int) == p
}

/// Turns a transport outcome into parsed JSON or the helper's error:
/// a send failure, a non-success status and a failed body read each give
/// their own message, and a body that is not valid JSON gives a
/// parse-failure message carrying the parser's own text.
pub fn post_finish(outcome: FetchOutcome) -> (r: Result<Json, Error>)
    ensures
        outcome matches FetchOutcome::SendFailed(m) ==> (r matches Err(e) && e.message@
            == spec_send_failed_msg(m@)),
        outcome matches FetchOutcome::BadStatus(st) ==> (r matches Err(e) && e.message@
            == spec_status_msg(st)),
        outcome matches FetchOutcome::ReadFailed(m) ==> (r matches Err(e) && e.message@
            == spec_read_failed_msg(m@)),
        outcome matches FetchOutcome::Body(text) ==> (match json_parse(text@) {
            Some(j) => r matches Ok(v) && v == j,
            None => r matches Err(e) && spec_has_prefix(
                e.message@,
                "Failed to parse response: "@,
            ),
        }),
        r is Ok <==> (outcome matches FetchOutcome::Body(text) && json_parse(text@) is Some),
{
    match outcome {
        FetchOutcome::SendFailed(m) => {
            let mut s: String = "Failed to send request: ".to_owned();
            s.append(m.as_str());
            Err(Error { message: s })
        },
        FetchOutcome::BadStatus(st) => {
            let mut s: String = "Request failed with status code: ".to_owned();
            let d = u16_to_string(st);
            s.append(d.as_str());
            Err(Error { message: s })
        },
        FetchOutcome::ReadFailed(m) => {
            let mut s: String = "Failed to read response: ".to_owned();
            s.append(m.as_str());
            Err(Error { message: s })
        },
        FetchOutcome::Body(text) => {
            match parse_json(text.as_str()) {
                Ok(j) => Ok(j),
                Err(m) => {
                    let mut s: String = "Failed to parse response: ".to_owned();
                    s.append(m.as_str());
                    proof {
                        let p = "Failed to parse response: "@;
                        assert((p + m@).subrange(0, p.len() as int) =~= p);
                    }
                    Err(Error { message: s })
                },
            }
        },
    }
}

} // verus!
