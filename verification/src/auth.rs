//! OAuth token exchange payloads.

use vstd::prelude::*;

verus! {

#[derive(Debug)]
pub struct DeviceCodeRequest {
    pub client_id: String,
    pub redirect_uri: Option<String>,
}

#[derive(Debug)]
pub struct DeviceCodeResponse {
    pub device_code: String,
    pub user_code: String,
    pub verification_url: String,
    pub expires_in: u32,
    pub interval: u32,
}

#[derive(Debug)]
pub struct TokenRequest {
    pub code: String,
    pub client_id: String,
    pub client_secret: String,
    pub redirect_uri: Option<String>,
    /// `"authorization_code"`
    pub grant_type: String,
}

#[derive(Debug)]
pub struct TokenResponse {
    pub access_token: String,
    /// `"bearer"`
    pub token_type: String,
    pub scope: Option<String>,
}

} // verus!
