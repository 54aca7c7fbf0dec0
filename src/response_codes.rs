//! Numeric codes of signed responses.
use vstd::prelude::*;

verus! {

pub const AUTH_SUCCESS: u32 = 0x1A3F;
pub const AUTH_FAILED: u32 = 0x2B4E;
pub const TOKEN_VALID: u32 = 0x3C5D;
pub const TOKEN_INVALID: u32 = 0x4D6C;
pub const TOKEN_EXPIRED: u32 = 0x5E7B;
pub const ACCESS_DENIED: u32 = 0x6F8A;
pub const ORIGIN_BLOCKED: u32 = 0x7099;
pub const RATE_LIMITED: u32 = 0x81A8;
pub const INVALID_REQUEST: u32 = 0x92B7;
pub const USER_CREATED: u32 = 0xA3C6;
pub const USER_EXISTS: u32 = 0xB4D5;
pub const VALIDATION_ERROR: u32 = 0xC5E4;
pub const INTERNAL_ERROR: u32 = 0xD6F3;
pub const SESSION_CREATED: u32 = 0xE702;
pub const OPERATION_OK: u32 = 0xF811;
pub const PASSKEY_OK: u32 = 0x0920;

} // verus!
