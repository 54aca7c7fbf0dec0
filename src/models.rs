//! Request and response records that the collaborators exchange with the
//! control plane.
use vstd::prelude::*;
use crate::security::TokenPair;

verus! {

/// A per-session configuration entry.
#[derive(Debug)]
pub struct UserSettings {
    pub session_id: String,
    pub config_key: String,
    pub config_value: Option<String>,
}

#[derive(Debug)]
pub struct RegisterRequest {
    pub phone_number: String,
    pub password: String,
}

#[derive(Debug)]
pub struct LoginRequest {
    pub phone_number: String,
    pub password: String,
    pub crypto_hash: String,
}

/// The tokens of a successful sign-in.
#[derive(Debug)]
pub struct TokenResponse {
    pub access_token: String,
    pub refresh_token: String,
    pub expires_in: i64,
}

impl TokenResponse {
    /// The tokens of a pair, with the pair's lifetime.
    pub fn from_pair(p: TokenPair) -> (r: TokenResponse)
        ensures
            r.access_token == p.access_token,
            r.refresh_token == p.refresh_token,
            r.expires_in == p.expires_in,
    {
        TokenResponse { access_token: p.access_token, refresh_token: p.refresh_token, expires_in: p.expires_in }
    }
}

/// A signed sign-in answer.
#[derive(Debug)]
pub struct SecureAuthResponse {
    pub code: u32,
    pub status: u8,
    pub tokens: Option<TokenResponse>,
    pub data: Option<String>,
    pub timestamp: i64,
    pub signature: String,
}

#[derive(Debug)]
pub struct PasskeyRegisterRequest {
    pub user_id: String,
    pub credential_id: String,
    pub public_key: String,
    pub device_name: Option<String>,
}

#[derive(Debug)]
pub struct PasskeyLoginRequest {
    pub credential_id: String,
    pub authenticator_data: String,
    pub client_data_json: String,
    pub signature: String,
}

#[derive(Debug)]
pub struct AdminLoginRequest {
    pub password: String,
}

#[derive(Debug)]
pub struct SuspendUserRequest {
    pub suspended: bool,
}

#[derive(Debug)]
pub struct LimitUserRequest {
    pub limit: i32,
}

#[derive(Debug)]
pub struct UpdateSupportRequest {
    pub status: String,
}

#[derive(Debug)]
pub struct SupportRequestPayload {
    pub email: String,
    pub subject: String,
    pub message: String,
}

#[derive(Debug)]
pub struct CreateInstanceRequest {
    pub phone_number: String,
    pub name: Option<String>,
}

/// A command tool offered to users.
#[derive(Debug)]
pub struct ToolInfo {
    pub id: String,
    pub name: String,
    pub description: String,
    pub icon: String,
    pub category: String,
}

/// A one-click action offered to users.
#[derive(Debug)]
pub struct QuickAction {
    pub id: String,
    pub label: String,
    pub icon: String,
    pub color: String,
    pub confirm: bool,
}

} // verus!
