//! The answer the edge sends for the outcome of the request pipeline.
//!
//! A pipeline that passes is answered with 200 `pipeline passed` (nothing is
//! forwarded upstream yet), an immediate response is sent as it is, and a
//! failure is answered with 500 `internal error`.
use vstd::prelude::*;

use crate::compositor::SequenceOutcome;
use crate::phase::{
    bytes_from_vec, bytes_view, content_type_name, header_entries, header_name_text, header_value_static,
    header_value_text, no_headers, status_code, status_number, ImmediateResponse,
};

verus! {

/// `r` has the status `code`, a plain-text content type and `body` as its bytes.
pub open spec fn is_text_response(r: ImmediateResponse, code: u16, body: Seq<char>) -> bool {
    &&& status_number(r.status) == code
    &&& exists|n: http::HeaderName, v: http::HeaderValue|
        header_name_text(n) == "content-type"@ && header_value_text(v) == Some("text/plain; charset=utf-8"@)
            && #[trigger] header_entries(r.headers) == no_headers().insert(n, v)
    &&& bytes_view(r.body) == vstd::utf8::encode_utf8(body)
}

/// A plain-text response.
fn text_response(code: u16, body: &str) -> (r: ImmediateResponse)
    requires
        100 <= code <= 999,
    ensures
        is_text_response(r, code, body@),
{
    proof {
        reveal_strlit("text/plain; charset=utf-8");
    }
    let bytes = body.as_bytes_vec();
    ImmediateResponse::with_status(status_code(code)).body(bytes_from_vec(bytes)).header(
        content_type_name(),
        header_value_static("text/plain; charset=utf-8"),
    )
}

/// The response to send for the outcome of the request headers phase.
pub fn final_response(outcome: SequenceOutcome) -> (r: ImmediateResponse)
    ensures
        outcome is Continue ==> is_text_response(r, 200, "pipeline passed"@),
        outcome matches SequenceOutcome::Respond(resp) ==> r == resp,
        outcome is Error ==> is_text_response(r, 500, "internal error"@),
{
    match outcome {
        SequenceOutcome::Continue(_) => text_response(200, "pipeline passed"),
        SequenceOutcome::Respond(resp) => resp,
        SequenceOutcome::Error(_) => text_response(500, "internal error"),
    }
}

} // verus!
