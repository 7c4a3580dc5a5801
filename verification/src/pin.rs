//! PIN authentication for devices with limited UI.

use crate::API_URL;
use vstd::prelude::*;

verus! {

/// Request a device code URL.
pub fn get_pin_request(client_id: String, redirect_url: String) -> (r: String)
    ensures
        r@ == API_URL@ + "oauth/pin?client_id="@ + client_id@ + "&redirect="@ + redirect_url@,
{
    let mut result = String::from_str(API_URL);
    result.append("oauth/pin?client_id=");
    result.append(client_id.as_str());
    result.append("&redirect=");
    result.append(redirect_url.as_str());
    result
}

#[derive(Default, Debug, Clone, PartialEq)]
pub struct PinResponse {
    pub result: String,
    pub device_code: String,
    pub user_code: String,
    pub verification_url: String,
    pub expires_in: u16,
    pub interval: u8,
}

/// Polled while the user enters the code; `result` stays `"KO"` until the
/// access token arrives, with `message` explaining the wait.
#[derive(Default, Debug, Clone, PartialEq)]
pub struct CodeResponse {
    pub result: String,
    pub message: Option<String>,
    pub access_token: Option<String>,
}

pub fn get_code_status_request(user_code: String, client_id: String) -> (r: String)
    ensures
        r@ == API_URL@ + "oauth/pin/"@ + user_code@ + "?client_id="@ + client_id@,
{
    let mut result = String::from_str(API_URL);
    result.append("oauth/pin/");
    result.append(user_code.as_str());
    result.append("?client_id=");
    result.append(client_id.as_str());
    result
}

} // verus!
