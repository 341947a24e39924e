use vstd::prelude::*;
use vstd::string::*;
use crate::error::{AcmeError, Error};
use crate::jws::opt_view;
use crate::nonce::{offer_spec, NonceCache};
use crate::text::{str_eq, str_starts_with};

verus! {

/// How many signed POSTs one logical request may take, retries included.
pub const MAX_ATTEMPTS: u32 = 3;

/// The media type of RFC 7807 problem documents.
pub const PROBLEM_CONTENT_TYPE: &'static str = "application/problem+json";

/// The problem type of a rejected nonce.
pub const BAD_NONCE_TYPE: &'static str = "urn:ietf:params:acme:error:badNonce";

/// What the client reads of a response before deciding what to do with it.
#[derive(Debug)]
pub struct ResponseMeta {
    pub status: u16,
    pub content_type: Option<String>,
    pub replay_nonce: Option<String>,
    /// The problem document, where the body parsed as one.
    pub problem: Option<AcmeError>,
}

/// The next move of a request after a response.
#[derive(Debug)]
pub enum Step {
    /// The body is the expected resource.
    Success,
    /// The nonce was rejected: sign again with a fresh nonce and resend.
    Retry,
    /// The request failed.
    Failure(Error),
}

/// The statuses that answer a request successfully: 200 or 202 for a request
/// that triggers a challenge, 200, 201 or 204 for any other request.
pub open spec fn is_success_status(status: u16, trigger: bool) -> bool {
    if trigger {
        status == 200 || status == 202
    } else {
        status == 200 || status == 201 || status == 204
    }
}

/// A 4xx problem document of type `badNonce`.
pub open spec fn is_bad_nonce(resp: ResponseMeta) -> bool {
    &&& 400 <= resp.status < 500
    &&& resp.content_type matches Some(ct) && PROBLEM_CONTENT_TYPE@.is_prefix_of(ct@)
    &&& resp.problem matches Some(p) && p.typ matches Some(t) && t@ == BAD_NONCE_TYPE@
}

/// The state of one authenticated request: how many signed POSTs it has sent.
pub struct Exchange {
    attempts: u32,
}

impl Exchange {
    pub closed spec fn attempts(&self) -> nat {
        self.attempts as nat
    }

    pub fn new() -> (r: Exchange)
        ensures
            r.attempts() == 0,
    {
        Exchange { attempts: 0 }
    }

    /// The nonce for the next POST: the cached one, or `None` when a fresh one
    /// must be fetched from `newNonce`.
    pub fn next_nonce(&self, cache: &mut NonceCache) -> (r: Option<String>)
        ensures
            opt_view(r) == old(cache)@,
            final(cache)@ is None,
    {
        cache.consume()
    }

    /// Absorbs the response to a signed POST; `trigger` tells whether the POST
    /// asked the server to validate a challenge. The response's `Replay-Nonce`,
    /// if any, goes into the cache whatever the status. A rejected nonce is
    /// retried until `MAX_ATTEMPTS` POSTs were sent; then the server's problem
    /// is the error.
    pub fn on_response(&mut self, cache: &mut NonceCache, resp: ResponseMeta, trigger: bool) -> (r: Step)
        ensures
            final(cache)@ == offer_spec(old(cache)@, opt_view(resp.replay_nonce)),
            final(self).attempts() == if old(self).attempts() < MAX_ATTEMPTS {
                old(self).attempts() + 1 as int
            } else {
                old(self).attempts() as int
            },
            r is Success <==> is_success_status(resp.status, trigger),
            r is Retry <==> !is_success_status(resp.status, trigger) && is_bad_nonce(resp)
                && old(self).attempts() + 1 < MAX_ATTEMPTS,
            r is Failure ==> match resp.problem {
                Some(p) => r == Step::Failure(Error::Server(p)),
                None => r->Failure_0 is Protocol,
            },
    {
        let ResponseMeta { status, content_type, replay_nonce, problem } = resp;
        cache.offer(replay_nonce);
        let old_attempts = self.attempts;
        if self.attempts < MAX_ATTEMPTS {
            self.attempts = self.attempts + 1;
        }
        let success = if trigger {
            status == 200 || status == 202
        } else {
            status == 200 || status == 201 || status == 204
        };
        if success {
            return Step::Success;
        }
        let bad_nonce = 400 <= status && status < 500 && match &content_type {
            Some(ct) => str_starts_with(ct.as_str(), PROBLEM_CONTENT_TYPE),
            None => false,
        } && match &problem {
            Some(p) => p.has_type(BAD_NONCE_TYPE),
            None => false,
        };
        if bad_nonce && self.attempts < MAX_ATTEMPTS && old_attempts + 1 < MAX_ATTEMPTS {
            return Step::Retry;
        }
        match problem {
            Some(p) => Step::Failure(Error::Server(p)),
            None => Step::Failure(
                Error::Protocol(String::from_str("unexpected status without a problem document")),
            ),
        }
    }
}

} // verus!
