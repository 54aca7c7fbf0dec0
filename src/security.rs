//! Token and cookie helpers for the collaborators that authenticate callers.
use vstd::prelude::*;
use vstd::string::*;
use crate::text::{chars_of, joined, owned};

verus! {

/// Seconds an access token stays valid.
pub const ACCESS_TOKEN_SECS: i64 = 3600;

/// Seconds a refresh token stays valid.
pub const REFRESH_TOKEN_SECS: i64 = 604800;

/// The claims that a signed token carries.
#[derive(Debug)]
pub struct Claims {
    pub sub: String,
    pub role: String,
    pub iat: i64,
    pub exp: i64,
    pub jti: String,
    pub sid: String,
}

/// An access token and a refresh token handed out together.
#[derive(Debug)]
pub struct TokenPair {
    pub access_token: String,
    pub refresh_token: String,
    pub token_type: String,
    pub expires_in: i64,
}

/// A response with a numeric code, a success flag, optional encoded data, a
/// timestamp and a signature over them.
#[derive(Debug)]
pub struct SecureResponse {
    pub code: u32,
    pub status: u8,
    pub data: Option<String>,
    pub timestamp: i64,
    pub signature: String,
}

/// The claims of a token issued at `now` that expires `lifetime` seconds later.
fn claims_for(user_id: &str, role: &str, now: i64, lifetime: i64, jti: String, sid: String) -> (r: Claims)
    requires
        0 <= lifetime,
        now <= i64::MAX - lifetime,
    ensures
        r.sub@ == user_id@,
        r.role@ == role@,
        r.iat == now,
        r.exp == now + lifetime,
        r.jti == jti,
        r.sid == sid,
{
    Claims { sub: owned(user_id), role: owned(role), iat: now, exp: now + lifetime, jti, sid }
}

/// The claims of an access token issued at `now`: valid for one hour.
pub fn access_claims(user_id: &str, role: &str, now: i64, jti: String, sid: String) -> (r: Claims)
    requires
        now <= i64::MAX - ACCESS_TOKEN_SECS,
    ensures
        r.sub@ == user_id@,
        r.role@ == role@,
        r.iat == now,
        r.exp == now + ACCESS_TOKEN_SECS,
        r.jti == jti,
        r.sid == sid,
{
    claims_for(user_id, role, now, ACCESS_TOKEN_SECS, jti, sid)
}

/// The claims of a refresh token issued at `now`: valid for seven days.
pub fn refresh_claims(user_id: &str, role: &str, now: i64, jti: String, sid: String) -> (r: Claims)
    requires
        now <= i64::MAX - REFRESH_TOKEN_SECS,
    ensures
        r.sub@ == user_id@,
        r.role@ == role@,
        r.iat == now,
        r.exp == now + REFRESH_TOKEN_SECS,
        r.jti == jti,
        r.sid == sid,
{
    claims_for(user_id, role, now, REFRESH_TOKEN_SECS, jti, sid)
}

/// Pairs two signed tokens as a bearer token pair that expires with the
/// access token.
pub fn generate_token_pair(access_token: String, refresh_token: String) -> (r: TokenPair)
    ensures
        r.access_token == access_token,
        r.refresh_token == refresh_token,
        r.token_type@ == "Bearer"@,
        r.expires_in == ACCESS_TOKEN_SECS,
{
    TokenPair { access_token, refresh_token, token_type: owned("Bearer"), expires_in: ACCESS_TOKEN_SECS }
}

/// Compares two strings byte by byte without stopping at the first
/// difference.
pub fn constant_time_compare(a: &str, b: &str) -> (r: bool)
    ensures
        r == (a.spec_bytes() == b.spec_bytes()),
{
    let x = a.as_bytes();
    let y = b.as_bytes();
    if x.len() != y.len() {
        return false;
    }
    let mut acc: u8 = 0;
    let mut i: usize = 0;
    while i < x.len()
        invariant
            x@ == a.spec_bytes(),
            y@ == b.spec_bytes(),
            x@.len() == y@.len(),
            i <= x@.len(),
            (acc == 0) == (forall|j: int| 0 <= j < i ==> x@[j] == y@[j]),
        decreases x@.len() - i,
    {
        let p = x[i];
        let q = y[i];
        let next = acc | (p ^ q);
        assert((next == 0) == (acc == 0 && p == q)) by (bit_vector)
            requires
                next == acc | (p ^ q),
        ;
        proof {
            if next == 0 {
                assert forall|j: int| 0 <= j < i + 1 implies x@[j] == y@[j] by {
                    if j < i {
                    }
                }
            }
        }
        acc = next;
        i = i + 1;
    }
    proof {
        if acc == 0 {
            assert(x@ =~= y@);
        }
    }
    acc == 0
}

/// The token of an `Authorization` header value of the form `Bearer <token>`.
pub open spec fn bearer_spec(h: Seq<char>) -> Option<Seq<char>> {
    if h.len() >= 7 && h.take(7) == "Bearer "@ {
        Some(h.skip(7))
    } else {
        None
    }
}

/// The token of an `Authorization` header value, if it is a bearer token.
pub fn extract_bearer_token<'a>(auth_header: &'a str) -> (r: Option<&'a str>)
    ensures
        match r {
            Some(t) => bearer_spec(auth_header@) == Some(t@),
            None => bearer_spec(auth_header@).is_none(),
        },
{
    let h = chars_of(auth_header);
    let p = chars_of("Bearer ");
    proof {
        reveal_strlit("Bearer ");
    }
    if h.len() < 7 {
        return None;
    }
    let mut i: usize = 0;
    while i < 7
        invariant
            h@ == auth_header@,
            p@ == "Bearer "@,
            p@.len() == 7,
            h@.len() >= 7,
            i <= 7,
            forall|j: int| 0 <= j < i ==> h@[j] == p@[j],
        decreases 7 - i,
    {
        if h[i] != p[i] {
            assert(h@.take(7)[i as int] != p@[i as int]);
            return None;
        }
        i = i + 1;
    }
    assert(h@.take(7) =~= p@);
    Some(auth_header.substring_char(7, h.len()))
}

/// The cookie that carries the session token for an hour; marked `Secure` in
/// production.
pub open spec fn auth_cookie_spec(token: Seq<char>, is_production: bool) -> Seq<char> {
    "whatsaly_token="@ + token + "; Path=/; Max-Age=3600; HttpOnly; SameSite=Strict"@ + if is_production {
        "; Secure"@
    } else {
        Seq::empty()
    }
}

/// The `Set-Cookie` value that stores the session token.
pub fn create_auth_cookie(token: &str, is_production: bool) -> (r: String)
    ensures
        r@ == auth_cookie_spec(token@, is_production),
{
    let head = joined("whatsaly_token=", token);
    let cookie = joined(head.as_str(), "; Path=/; Max-Age=3600; HttpOnly; SameSite=Strict");
    if is_production {
        joined(cookie.as_str(), "; Secure")
    } else {
        assert(cookie@ + Seq::<char>::empty() =~= cookie@);
        cookie
    }
}

/// The `Set-Cookie` value that clears the session token.
pub fn create_logout_cookie() -> (r: String)
    ensures
        r@ == "whatsaly_token=; Path=/; Max-Age=0; HttpOnly; SameSite=Strict"@,
{
    owned("whatsaly_token=; Path=/; Max-Age=0; HttpOnly; SameSite=Strict")
}

} // verus!
