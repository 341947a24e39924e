use vstd::prelude::*;
use vstd::string::*;
use vstd::utf8::encode_utf8;
use crate::account::Account;
use crate::codec::{b64, b64url_of};
use crate::error::{AcmeError, Error};
use crate::jws::{is_jws_of, opt_view};
use crate::key::{sha256, sha256_of};
use crate::resources::{Identifier, Observation, Poll};
use crate::text::str_eq;

verus! {

/// The payload that asks the server to validate a challenge.
pub const TRIGGER_PAYLOAD: &'static str = "{}";

/// The payload of an authenticated read (POST-as-GET).
pub const POST_AS_GET: &'static str = "";

/// Where an http-01 response is served, below the identifier's host.
pub const HTTP01_PREFIX: &'static str = "/.well-known/acme-challenge/";

/// The status of an authorization.
#[derive(PartialEq, Eq, Structural, Debug, Clone, Copy)]
pub enum AuthorizationStatus {
    Pending,
    Valid,
    Invalid,
    Deactivated,
    Expired,
    Revoked,
}

impl AuthorizationStatus {
    pub open spec fn is_terminal(self) -> bool {
        self != AuthorizationStatus::Pending
    }

    /// A pending authorization may move to any state; the others do not change.
    pub open spec fn may_become_spec(self, next: AuthorizationStatus) -> bool {
        self == next || self == AuthorizationStatus::Pending
    }

    pub fn may_become(&self, next: &AuthorizationStatus) -> (r: bool)
        ensures
            r == self.may_become_spec(*next),
    {
        *self == *next || *self == AuthorizationStatus::Pending
    }

    /// Pending authorizations are waited on; every other state is final.
    pub open spec fn poll_spec(self) -> Poll {
        match self {
            AuthorizationStatus::Pending => Poll::Wait,
            AuthorizationStatus::Valid => Poll::Done,
            _ => Poll::Failed,
        }
    }

    pub fn poll(&self) -> (r: Poll)
        ensures
            r == self.poll_spec(),
    {
        match self {
            AuthorizationStatus::Pending => Poll::Wait,
            AuthorizationStatus::Valid => Poll::Done,
            _ => Poll::Failed,
        }
    }

    /// The status named `name` on the wire.
    pub open spec fn from_name_spec(name: Seq<char>) -> Option<AuthorizationStatus> {
        if name == "pending"@ {
            Some(AuthorizationStatus::Pending)
        } else if name == "valid"@ {
            Some(AuthorizationStatus::Valid)
        } else if name == "invalid"@ {
            Some(AuthorizationStatus::Invalid)
        } else if name == "deactivated"@ {
            Some(AuthorizationStatus::Deactivated)
        } else if name == "expired"@ {
            Some(AuthorizationStatus::Expired)
        } else if name == "revoked"@ {
            Some(AuthorizationStatus::Revoked)
        } else {
            None
        }
    }

    pub fn from_name(name: &str) -> (r: Option<AuthorizationStatus>)
        ensures
            r == Self::from_name_spec(name@),
    {
        if str_eq(name, "pending") {
            Some(AuthorizationStatus::Pending)
        } else if str_eq(name, "valid") {
            Some(AuthorizationStatus::Valid)
        } else if str_eq(name, "invalid") {
            Some(AuthorizationStatus::Invalid)
        } else if str_eq(name, "deactivated") {
            Some(AuthorizationStatus::Deactivated)
        } else if str_eq(name, "expired") {
            Some(AuthorizationStatus::Expired)
        } else if str_eq(name, "revoked") {
            Some(AuthorizationStatus::Revoked)
        } else {
            None
        }
    }
}

/// The status of a challenge: `Pending -> Processing -> (Valid | Invalid)`.
#[derive(PartialEq, Eq, Structural, Debug, Clone, Copy)]
pub enum ChallengeStatus {
    Pending,
    Processing,
    Valid,
    Invalid,
}

impl ChallengeStatus {
    /// Position along `Pending -> Processing -> Valid`.
    pub open spec fn rank(self) -> int {
        match self {
            ChallengeStatus::Pending => 0,
            ChallengeStatus::Processing => 1,
            ChallengeStatus::Valid => 2,
            ChallengeStatus::Invalid => 3,
        }
    }

    pub open spec fn is_terminal(self) -> bool {
        self == ChallengeStatus::Valid || self == ChallengeStatus::Invalid
    }

    /// Whether a later observation of a challenge may show `next`.
    pub open spec fn may_become_spec(self, next: ChallengeStatus) -> bool {
        self == next || (!self.is_terminal() && (next == ChallengeStatus::Invalid || self.rank() < next.rank()))
    }

    pub fn may_become(&self, next: &ChallengeStatus) -> (r: bool)
        ensures
            r == self.may_become_spec(*next),
    {
        let terminal = *self == ChallengeStatus::Valid || *self == ChallengeStatus::Invalid;
        let forward = match (self, next) {
            (ChallengeStatus::Pending, ChallengeStatus::Processing) => true,
            (ChallengeStatus::Pending, ChallengeStatus::Valid) => true,
            (ChallengeStatus::Processing, ChallengeStatus::Valid) => true,
            _ => false,
        };
        *self == *next || (!terminal && (*next == ChallengeStatus::Invalid || forward))
    }

    pub open spec fn poll_spec(self) -> Poll {
        match self {
            ChallengeStatus::Pending | ChallengeStatus::Processing => Poll::Wait,
            ChallengeStatus::Valid => Poll::Done,
            ChallengeStatus::Invalid => Poll::Failed,
        }
    }

    pub fn poll(&self) -> (r: Poll)
        ensures
            r == self.poll_spec(),
    {
        match self {
            ChallengeStatus::Pending | ChallengeStatus::Processing => Poll::Wait,
            ChallengeStatus::Valid => Poll::Done,
            ChallengeStatus::Invalid => Poll::Failed,
        }
    }
}

/// A way of proving control of an identifier.
#[derive(Debug)]
pub struct Challenge {
    /// The type of challenge, such as `http-01` or `dns-01`.
    pub typ: String,
    /// The URL to which a response can be posted.
    pub url: String,
    /// The status of this challenge.
    pub status: ChallengeStatus,
    /// The time at which the server validated this challenge.
    pub validated: Option<String>,
    /// A random value that uniquely identifies the challenge.
    pub token: Option<String>,
    /// The identifier value this challenge belongs to, where known.
    pub domain: Option<String>,
    /// The problem that made validation fail, if the server gave one.
    pub error: Option<AcmeError>,
}

/// `token || "." || thumbprint`.
pub open spec fn key_authorization_of(token: Seq<char>, thumbprint: Seq<char>) -> Seq<char> {
    token + "."@ + thumbprint
}

/// The dns-01 TXT record value: base64url of the SHA-256 of the key authorization.
pub open spec fn dns_txt_of(key_authorization: Seq<char>) -> Seq<char> {
    b64url_of(sha256_of(encode_utf8(key_authorization)))
}

/// The TXT record value of a dns-01 challenge with the given key authorization.
pub fn dns_txt_value(key_authorization: &str) -> (r: Result<String, Error>)
    ensures
        match r {
            Ok(v) => v@ == dns_txt_of(key_authorization@),
            Err(e) => e is Crypto,
        },
{
    match sha256(key_authorization.as_bytes()) {
        Ok(d) => Ok(b64(d.as_slice())),
        Err(_) => Err(Error::Crypto),
    }
}

impl Challenge {
    pub fn domain(&self) -> (r: Option<String>)
        ensures
            opt_view(r) == opt_view(self.domain),
    {
        match &self.domain {
            Some(d) => Some(d.clone()),
            None => None,
        }
    }

    /// Returns the challenge type, usually `http-01` or `dns-01`.
    pub fn ctype(&self) -> (r: &str)
        ensures
            r@ == self.typ@,
    {
        self.typ.as_str()
    }

    /// Returns the challenge token.
    pub fn token(&self) -> (r: Option<String>)
        ensures
            opt_view(r) == opt_view(self.token),
    {
        match &self.token {
            Some(t) => Some(t.clone()),
            None => None,
        }
    }

    /// The key authorization for the account key with the given thumbprint;
    /// `None` when the token is not known.
    pub fn key_authorization_with(&self, thumbprint: &str) -> (r: Option<String>)
        ensures
            match self.token {
                Some(t) => r matches Some(k) && k@ == key_authorization_of(t@, thumbprint@),
                None => r is None,
            },
    {
        match &self.token {
            Some(t) => {
                let mut k = t.clone();
                k.append(".");
                k.append(thumbprint);
                Some(k)
            },
            None => None,
        }
    }

    /// The key authorization of this challenge for `account`:
    /// `token || "." || base64url(SHA-256(canonical JWK))`.
    pub fn key_authorization(&self, account: &Account) -> (r: Result<Option<String>, Error>)
        ensures
            match r {
                Ok(o) => match self.token {
                    Some(t) => o matches Some(k) && k@ == key_authorization_of(
                        t@,
                        account.key_spec().jwk_spec().thumbprint_spec(),
                    ),
                    None => o is None,
                },
                Err(e) => e is Crypto,
            },
    {
        let thumbprint = account.key().jwk().thumbprint()?;
        Ok(self.key_authorization_with(thumbprint.as_str()))
    }

    /// Gets the DNS validation value: the TXT record to publish under
    /// `_acme-challenge.<domain>` for a dns-01 challenge.
    pub fn signature(&self, account: &Account) -> (r: Result<Option<String>, Error>)
        ensures
            match r {
                Ok(o) => match self.token {
                    Some(t) => o matches Some(v) && v@ == dns_txt_of(
                        key_authorization_of(t@, account.key_spec().jwk_spec().thumbprint_spec()),
                    ),
                    None => o is None,
                },
                Err(e) => e is Crypto,
            },
    {
        match self.key_authorization(account)? {
            Some(k) => Ok(Some(dns_txt_value(k.as_str())?)),
            None => Ok(None),
        }
    }

    /// The path at which an http-01 challenge expects the key authorization.
    pub fn http01_path(&self) -> (r: Option<String>)
        ensures
            match self.token {
                Some(t) => r matches Some(p) && p@ == HTTP01_PREFIX@ + t@,
                None => r is None,
            },
    {
        match &self.token {
            Some(t) => {
                let mut p = String::from_str(HTTP01_PREFIX);
                p.append(t.as_str());
                Some(p)
            },
            None => None,
        }
    }

    /// Judges a polled challenge: an `Invalid` one fails with the server's problem.
    pub fn observe(self) -> (r: Observation<Challenge>)
        ensures
            match self.status.poll_spec() {
                Poll::Wait => r == Observation::Wait(self),
                Poll::Done => r == Observation::Done(self),
                Poll::Failed => r == Observation::<Challenge>::Failed(Error::TerminalFailure(self.error)),
            },
    {
        match self.status.poll() {
            Poll::Wait => Observation::Wait(self),
            Poll::Done => Observation::Done(self),
            Poll::Failed => Observation::Failed(Error::TerminalFailure(self.error)),
        }
    }

    /// What polling this challenge should do next.
    pub fn poll_step(&self) -> (r: Poll)
        ensures
            r == self.status.poll_spec(),
    {
        self.status.poll()
    }

    /// The JWS that asks the server to validate this challenge.
    pub fn validate_request(&self, account: &Account, nonce: String) -> (r: Result<String, Error>)
        ensures
            match r {
                Ok(s) => is_jws_of(s@, account.key_spec(), nonce@, self.url@, Some(account.kid_spec()), TRIGGER_PAYLOAD@),
                Err(e) => e is Crypto || e is Protocol,
            },
    {
        account.sign_request(self.url.as_str(), nonce, TRIGGER_PAYLOAD)
    }

    /// The JWS of a POST-as-GET that polls this challenge.
    pub fn poll_request(&self, account: &Account, nonce: String) -> (r: Result<String, Error>)
        ensures
            match r {
                Ok(s) => is_jws_of(s@, account.key_spec(), nonce@, self.url@, Some(account.kid_spec()), POST_AS_GET@),
                Err(e) => e is Crypto || e is Protocol,
            },
    {
        account.sign_request(self.url.as_str(), nonce, POST_AS_GET)
    }
}

/// The server's authorization of an account to represent an identifier.
#[derive(Debug)]
pub struct Authorization {
    /// The identifier that the account is authorized to represent.
    pub identifier: Identifier,
    /// The status of this authorization.
    pub status: AuthorizationStatus,
    /// When the server will consider this authorization invalid.
    pub expires: Option<String>,
    /// The challenges the client can fulfill, or the one that was attempted.
    pub challenges: Vec<Challenge>,
    pub wildcard: Option<bool>,
}

/// The problem reported by the first challenge that reports one.
pub open spec fn first_error(cs: Seq<Challenge>) -> Option<AcmeError>
    decreases cs.len(),
{
    if cs.len() == 0 {
        None
    } else if cs[0].error is Some {
        cs[0].error
    } else {
        first_error(cs.drop_first())
    }
}

impl Authorization {
    /// Judges a polled authorization. A failed one carries the problem of its
    /// first challenge that reports one.
    pub fn observe(self) -> (r: Observation<Authorization>)
        ensures
            match self.status.poll_spec() {
                Poll::Wait => r == Observation::Wait(self),
                Poll::Done => r == Observation::Done(self),
                Poll::Failed => r == Observation::<Authorization>::Failed(
                    Error::TerminalFailure(first_error(self.challenges@)),
                ),
            },
    {
        match self.status.poll() {
            Poll::Wait => Observation::Wait(self),
            Poll::Done => Observation::Done(self),
            Poll::Failed => {
                let mut challenges = self.challenges;
                let mut problem: Option<AcmeError> = None;
                let ghost all = challenges@;
                while problem.is_none() && challenges.len() > 0
                    invariant
                        problem is None ==> first_error(all) == first_error(challenges@),
                        problem is Some ==> problem == first_error(all),
                    decreases challenges.len(),
                {
                    let ghost before = challenges@;
                    let c = challenges.remove(0);
                    assert(challenges@ =~= before.drop_first());
                    problem = c.error;
                }
                Observation::Failed(Error::TerminalFailure(problem))
            },
        }
    }

    /// What polling this authorization should do next.
    pub fn poll_step(&self) -> (r: Poll)
        ensures
            r == self.status.poll_spec(),
    {
        self.status.poll()
    }

    /// The first challenge of type `typ`.
    pub fn challenge(&self, typ: &str) -> (r: Option<&Challenge>)
        ensures
            match r {
                Some(c) => exists|i: int|
                    0 <= i < self.challenges@.len() && *c == self.challenges@[i] && c.typ@ == typ@
                        && forall|j: int| 0 <= j < i ==> #[trigger] self.challenges@[j].typ@ != typ@,
                None => forall|j: int|
                    0 <= j < self.challenges@.len() ==> #[trigger] self.challenges@[j].typ@ != typ@,
            },
    {
        let mut i: usize = 0;
        while i < self.challenges.len()
            invariant
                i <= self.challenges@.len(),
                forall|j: int| 0 <= j < i ==> #[trigger] self.challenges@[j].typ@ != typ@,
            decreases self.challenges@.len() - i,
        {
            if str_eq(self.challenges[i].typ.as_str(), typ) {
                return Some(&self.challenges[i]);
            }
            i = i + 1;
        }
        None
    }
}

/// An authorization as some servers report it, with the status as text.
#[derive(Debug)]
pub struct CheckResponse {
    pub status: String,
    pub expires: String,
    pub identifier: Identifier,
    pub challenges: Vec<Challenge>,
}

impl CheckResponse {
    /// The status, where it names one.
    pub fn authorization_status(&self) -> (r: Option<AuthorizationStatus>)
        ensures
            r == AuthorizationStatus::from_name_spec(self.status@),
    {
        AuthorizationStatus::from_name(self.status.as_str())
    }
}

/// Terminal authorization and challenge states are absorbing, and polling
/// never waits on one.
pub proof fn lemma_terminal_absorbing(a: AuthorizationStatus, b: AuthorizationStatus, c: ChallengeStatus, d: ChallengeStatus)
    ensures
        a.is_terminal() && a != b ==> !a.may_become_spec(b),
        a.is_terminal() ==> a.poll_spec() != Poll::Wait,
        c.is_terminal() && c != d ==> !c.may_become_spec(d),
        c.is_terminal() ==> c.poll_spec() != Poll::Wait,
{
}

} // verus!
