//! What the exporter's clients get to see.

use vstd::prelude::*;
use vstd::string::{StrSliceExecFns, StringSliceAdditionalSpecFns};

verus! {

/// The port that the exporter listens on unless it is configured otherwise.
pub const DEFAULT_PORT: u16 = 8080;

/// An answer to a request.
#[derive(Debug)]
pub struct Response {
    pub status: u16,
    pub content_type: &'static str,
    pub body: Vec<u8>,
}

/// The constant `prometheus::TEXT_FORMAT`: the content type of the text format.
#[verifier::external_body]
fn text_format() -> (content_type: &'static str)
    ensures
        content_type@ == "text/plain; version=0.0.4"@,
{
    prometheus::TEXT_FORMAT
}

/// The answer to a request for metrics: their text, or the reason why there is none.
pub fn respond(outcome: Result<Vec<u8>, String>) -> (response: Response)
    ensures
        match outcome {
            Ok(text) => {
                &&& response.status == 200
                &&& response.content_type@ == "text/plain; version=0.0.4"@
                &&& response.body@ == text@
            },
            Err(reason) => {
                &&& response.status == 500
                &&& response.content_type@ == "text/plain"@
                &&& response.body@ == vstd::utf8::encode_utf8(reason@)
            },
        },
{
    match outcome {
        Ok(text) => Response { status: 200, content_type: text_format(), body: text },
        Err(reason) => Response {
            status: 500,
            content_type: "text/plain",
            body: reason.as_str().as_bytes_vec(),
        },
    }
}

/// The answer to the question whether the exporter is alive.
pub fn health() -> (answer: &'static str)
    ensures
        answer@ == "OK\n"@,
{
    "OK\n"
}

/// The port to listen on.
pub fn listen_port(configured: Option<u16>) -> (port: u16)
    ensures
        port == match configured {
            Some(p) => p,
            None => DEFAULT_PORT,
        },
        configured matches Some(p) ==> port == p,
        configured is None ==> port == 8080,
{
    match configured {
        Some(p) => p,
        None => DEFAULT_PORT,
    }
}

} // verus!
