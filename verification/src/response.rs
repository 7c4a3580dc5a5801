//! The response envelope handed back by the transport layer.

use crate::SimklError;
use std::collections::HashMap;
use vstd::prelude::*;

verus! {

/// Declares serde_json::Value, the opaque document that `json_value`
/// hands back.
#[verifier::external_type_specification]
#[verifier::external_body]
pub struct ExJsonValue(serde_json::Value);

/// An HTTP response from the API: status, headers and raw body. The
/// transport layer that fills it is outside this crate.
pub struct SimklResponse {
    pub status_code: u16,
    pub headers: HashMap<String, String>,
    pub body: String,
}

/// Relies on serde_json::from_str::<Value>: parses the text as a JSON
/// document.
#[verifier::external_body]
fn parse_json_value(s: &str) -> (r: Result<serde_json::Value, serde_json::Error>) {
    serde_json::from_str(s)
}

impl SimklResponse {
    pub fn new(status_code: u16, headers: HashMap<String, String>, body: String) -> (r: Self)
        ensures
            r.status_code == status_code,
            r.headers == headers,
            r.body == body,
    {
        Self { status_code, headers, body }
    }

    /// The body as a JSON document; a failure to parse comes back as the
    /// `Json` error.
    pub fn json_value(&self) -> (r: Result<serde_json::Value, SimklError>)
        ensures
            r is Err ==> r->Err_0 is Json,
    {
        match parse_json_value(self.body.as_str()) {
            Ok(v) => Ok(v),
            Err(e) => Err(SimklError::from(e)),
        }
    }

    pub fn is_success(&self) -> (r: bool)
        ensures
            r == (200 <= self.status_code < 300),
    {
        200 <= self.status_code && self.status_code < 300
    }

    pub fn is_client_error(&self) -> (r: bool)
        ensures
            r == (400 <= self.status_code < 500),
    {
        400 <= self.status_code && self.status_code < 500
    }

    pub fn is_server_error(&self) -> (r: bool)
        ensures
            r == (500 <= self.status_code < 600),
    {
        500 <= self.status_code && self.status_code < 600
    }
}

} // verus!
