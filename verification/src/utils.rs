//! Helpers shared by the commands: instants as text, and the message for a
//! failure that the remote service reported.

use crate::error::AppError;
use crate::error::AppErrorView;
use crate::text::decimal;
use crate::text::decimal_text;
use crate::timestamp::parse_refusal;
use crate::timestamp::parsed_instant;
use crate::timestamp::Timestamp;
use vstd::prelude::*;
use vstd::string::StringExecFns;

verus! {

/// The body with which the remote service reports a failure.
#[derive(Debug, PartialEq, Eq)]
pub struct ErrorResponse {
    pub error: String,
    pub message: String,
}

impl Clone for ErrorResponse {
    fn clone(&self) -> (copy: Self)
        ensures
            copy == *self,
    {
        ErrorResponse { error: self.error.clone(), message: self.message.clone() }
    }
}

/// The text of an instant for display, such as `2015-05-15 00:00:00 UTC`.
pub fn format_timestamp(dt: Timestamp) -> (text: String)
    ensures
        text@ == dt.display(),
{
    dt.to_display()
}

/// Reads an instant from a text such as `2015-05-15 00:00:00 +0000`.  A text
/// that is no date, time of day and offset in this form is refused with an
/// error that carries `chrono`'s reason, in its own words.
pub fn parse_timestamp(s: &str) -> (parsed: Result<Timestamp, AppError>)
    ensures
        parsed is Ok <==> parsed_instant(s@) is Some,
        parsed matches Ok(t) ==> parsed_instant(s@) == Some((t.seconds(), t.subsec_nanos())),
        parsed matches Err(e) ==> e@ == AppErrorView::Anyhow(parse_refusal(s@)),
{
    match Timestamp::parse(s) {
        Ok(t) => Ok(t),
        Err(reason) => Err(AppError::Anyhow(reason)),
    }
}

/// The message for a failed call: the status in decimal, then the detail.
pub open spec fn api_error_text(status: nat, detail: Seq<char>) -> Seq<char> {
    "API Error ("@ + decimal_text(status) + "): "@ + detail
}

/// The error for a call that the remote service answered with the status
/// `status` and the body `body`.  Where the body could be decoded as an
/// `ErrorResponse`, `decoded` holds it and its message is the detail;
/// otherwise the detail is the body as it came.
pub fn handle_api_error(status: u16, body: &str, decoded: Option<ErrorResponse>) -> (failure: AppError)
    ensures
        failure@ == AppErrorView::Anyhow(
            api_error_text(
                status as nat,
                match decoded {
                    Some(response) => response.message@,
                    None => body@,
                },
            ),
        ),
{
    let start = "API Error (".to_owned().concat(decimal(status as u64).as_str()).concat("): ");
    let text = match decoded {
        Some(response) => start.concat(response.message.as_str()),
        None => start.concat(body),
    };
    AppError::Anyhow(text)
}

} // verus!
