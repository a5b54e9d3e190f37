//! The claims of the JSON Web Token by which an app proves who it is.

use vstd::prelude::*;

verus! {

/// The identifier of a GitHub App, as text.
pub type GithubAppId = String;

/// For how many seconds a token is valid after it was issued: ten minutes.
pub const TOKEN_LIFETIME: u64 = 600;

/// The claims that GitHub asks for, times in seconds since the Unix epoch.
#[derive(Debug)]
pub struct Claims {
    /// When the token was issued.
    pub iat: u64,
    /// When the token expires.
    pub exp: u64,
    /// Who issued the token: the identifier of the app.
    pub iss: GithubAppId,
}

impl Claims {
    /// The token expires `TOKEN_LIFETIME` seconds after it was issued.
    pub open spec fn wf(&self) -> bool {
        self.exp == self.iat + TOKEN_LIFETIME
    }

    /// The claims of a token that the app `app_id` issues at `issued_at`.
    /// The time of expiry must fit in a `u64`.
    pub fn new(issued_at: u64, app_id: &String) -> (c: Claims)
        requires
            issued_at + TOKEN_LIFETIME <= u64::MAX,
        ensures
            c.iat == issued_at,
            c.exp == issued_at + TOKEN_LIFETIME,
            c.iss@ == app_id@,
            c.wf(),
    {
        Claims { iat: issued_at, exp: issued_at + TOKEN_LIFETIME, iss: app_id.clone() }
    }
}

} // verus!
