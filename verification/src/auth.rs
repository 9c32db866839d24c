//! The credential pair for the streaming platform, and the rule for
//! filling missing pieces from the environment.
//!
//! Reading the cached pair from disk, validating it against the platform
//! and persisting a refreshed pair are the caller's work; the only logic
//! here is which value wins when a stored token is empty.

use vstd::prelude::*;

verus! {

/// An access/refresh token pair.
#[derive(Debug, Clone)]
pub struct TwitchToken {
    pub access_token: String,
    pub refresh_token: String,
}

impl TwitchToken {
    /// Fills an empty stored token from the environment's value, if one
    /// was provided; a non-empty stored token always wins.
    pub fn with_env_fallback(self, access: Option<String>, refresh: Option<String>) -> (r:
        TwitchToken)
        ensures
            r.access_token@ == if self.access_token@.len() == 0 && access is Some {
                access->0@
            } else {
                self.access_token@
            },
            r.refresh_token@ == if self.refresh_token@.len() == 0 && refresh is Some {
                refresh->0@
            } else {
                self.refresh_token@
            },
    {
        let access_token = if self.access_token.as_str().is_empty() {
            match access {
                Some(a) => a,
                None => self.access_token,
            }
        } else {
            self.access_token
        };
        let refresh_token = if self.refresh_token.as_str().is_empty() {
            match refresh {
                Some(t) => t,
                None => self.refresh_token,
            }
        } else {
            self.refresh_token
        };
        TwitchToken { access_token, refresh_token }
    }

    /// Whether both pieces are present.
    pub fn is_complete(&self) -> (r: bool)
        ensures
            r == (self.access_token@.len() > 0 && self.refresh_token@.len() > 0),
    {
        !self.access_token.as_str().is_empty() && !self.refresh_token.as_str().is_empty()
    }
}

} // verus!
