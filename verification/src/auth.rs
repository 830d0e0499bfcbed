//! The auth callback: token extraction and the auth state machine.
//!
//! One route of the control plane receives a redirect URL from the external
//! auth flow.  Everything after the last `?token=` marker is the token; a
//! URL without the marker is malformed and fails that request with status
//! 400, leaving the auth state untouched.  The token is handed to the
//! external auth client; only a successful exchange turns the state to
//! authorised.

use crate::text::chars_of;
use crate::text::matches_at;
use crate::text::occurs_at;
use crate::text::tail_string;
use vstd::prelude::*;

verus! {

/// The token of a callback URL: everything after the last occurrence of the
/// `?token=` marker, searched from index `i` downwards.
pub open spec fn token_from(s: Seq<char>, i: int) -> Option<Seq<char>>
    decreases i + 1,
{
    if i < 0 {
        None
    } else if occurs_at(s, i, "?token="@) {
        Some(s.skip(i + "?token="@.len()))
    } else {
        token_from(s, i - 1)
    }
}

/// The token of a callback URL: everything after the last occurrence of the
/// `?token=` marker, or nothing for a URL without the marker.
pub open spec fn token_of(s: Seq<char>) -> Option<Seq<char>> {
    token_from(s, s.len() - "?token="@.len())
}

/// Extracts the token of a callback URL.
pub fn extract_token(url: &str) -> (r: Option<String>)
    ensures
        match r {
            Some(t) => token_of(url@) == Some(t@),
            None => token_of(url@) is None,
        },
{
    proof {
        reveal_strlit("?token=");
    }
    let v = chars_of(url);
    let marker = chars_of("?token=");
    if v.len() < marker.len() {
        return None;
    }
    let n = v.len();
    let mut i: usize = v.len() - marker.len();
    loop
        invariant
            marker@ == "?token="@,
            marker@.len() == 7,
            v@ == url@,
            n == v@.len(),
            i + marker@.len() <= v@.len(),
            token_of(v@) == token_from(v@, i as int),
        decreases i,
    {
        if matches_at(&v, i, &marker) {
            assert(token_from(v@, i as int) == Some(v@.skip(i + "?token="@.len())));
            let t = tail_string(&v, i + marker.len());
            return Some(t);
        }
        assert(token_from(v@, i as int) == token_from(v@, i - 1));
        if i == 0 {
            assert(token_from(v@, -1) is None);
            return None;
        }
        i = i - 1;
    }
}

/// The authentication state toward the external scrobbling service.
pub enum AuthState {
    /// No token exchange has succeeded.
    Unauthenticated,
    /// A token exchange succeeded.
    Authorised,
    /// The auth flow failed for the given reason.
    Error { reason: String },
}

/// The auth state owned by the application context, driven only by the
/// callback handler.
pub struct AuthSession {
    state: AuthState,
}

impl AuthSession {
    /// The current auth state.
    pub closed spec fn state(&self) -> AuthState {
        self.state
    }

    /// A fresh session: unauthenticated.
    pub fn new() -> (r: AuthSession)
        ensures
            r.state() is Unauthenticated,
    {
        AuthSession { state: AuthState::Unauthenticated }
    }

    /// Whether a token exchange has succeeded.
    pub fn is_authorised(&self) -> (r: bool)
        ensures
            r == (self.state() is Authorised),
    {
        match self.state {
            AuthState::Authorised => true,
            _ => false,
        }
    }

    /// Begins handling one callback URL: the token to hand to the external
    /// auth client, or status 400 for a URL without the marker.  Extraction
    /// never changes the auth state.
    pub fn begin_callback(&self, url: &str) -> (r: Result<String, u16>)
        ensures
            match r {
                Ok(t) => token_of(url@) == Some(t@),
                Err(status) => token_of(url@) is None && status == 400,
            },
    {
        match extract_token(url) {
            Some(t) => Ok(t),
            None => Err(400),
        }
    }

    /// Applies the outcome of the external token exchange: success turns
    /// the state to authorised and answers 204; failure leaves the state
    /// unchanged and answers 400.
    pub fn apply_exchange(&mut self, ok: bool) -> (status: u16)
        ensures
            ok ==> final(self).state() is Authorised && status == 204,
            !ok ==> final(self).state() == old(self).state() && status == 400,
    {
        if ok {
            self.state = AuthState::Authorised;
            204
        } else {
            400
        }
    }
}

} // verus!
