use vstd::prelude::*;
use vstd::string::*;

verus! {

/// An RFC 7807 problem document, as returned by an ACME server.
#[derive(Debug)]
pub struct AcmeError {
    /// The problem type URI, e.g. `urn:ietf:params:acme:error:badNonce`.
    pub typ: Option<String>,
    pub title: Option<String>,
    pub status: Option<u16>,
    pub detail: Option<String>,
}

/// The text of an optional field, or nothing when it is absent.
pub open spec fn or_empty(s: Option<String>) -> Seq<char> {
    match s {
        Some(t) => t@,
        None => Seq::empty(),
    }
}

fn append_or_empty(buf: &mut String, s: &Option<String>)
    ensures
        final(buf)@ == old(buf)@ + or_empty(*s),
{
    match s {
        Some(t) => buf.append(t.as_str()),
        None => {
            assert(old(buf)@ + Seq::<char>::empty() =~= old(buf)@);
        },
    }
}

impl AcmeError {
    /// The human readable form of the problem: `AcmeError(type): title: detail`.
    pub open spec fn message_spec(&self) -> Seq<char> {
        "AcmeError("@ + or_empty(self.typ) + "): "@ + or_empty(self.title) + ": "@ + or_empty(
            self.detail,
        )
    }

    pub fn message(&self) -> (r: String)
        ensures
            r@ == self.message_spec(),
    {
        let mut buf = String::from_str("AcmeError(");
        append_or_empty(&mut buf, &self.typ);
        buf.append("): ");
        append_or_empty(&mut buf, &self.title);
        buf.append(": ");
        append_or_empty(&mut buf, &self.detail);
        buf
    }

    /// Whether the problem type is exactly `type_uri`.
    pub fn has_type(&self, type_uri: &str) -> (r: bool)
        ensures
            r == (self.typ is Some && self.typ->0@ == type_uri@),
    {
        match &self.typ {
            Some(t) => crate::text::str_eq(t.as_str(), type_uri),
            None => false,
        }
    }
}

/// The kinds of failure of the client.
#[derive(Debug)]
pub enum Error {
    /// Network failure or an I/O error of the HTTP client.
    Transport(String),
    /// A malformed server response, a missing mandatory header, a decoding failure.
    Protocol(String),
    /// The server answered with a problem document.
    Server(AcmeError),
    /// The account key is neither RSA nor EC on P-256.
    UnsupportedKey,
    /// The operation is not allowed in the current state of the resource.
    InvalidState(String),
    /// Polling observed a state from which the resource will not succeed.
    TerminalFailure(Option<AcmeError>),
    /// The cryptographic library failed.
    Crypto,
}

/// A server answer: either the expected resource or a problem document.
#[derive(Debug)]
pub enum AcmeResult<T> {
    Success(T),
    Problem(AcmeError),
}

impl<T> AcmeResult<T> {
    /// Lifts the problem arm into an error of the client.
    pub fn into_result(self) -> (r: Result<T, Error>)
        ensures
            match self {
                AcmeResult::Success(t) => r == Ok::<T, Error>(t),
                AcmeResult::Problem(e) => r == Err::<T, Error>(Error::Server(e)),
            },
    {
        match self {
            AcmeResult::Success(t) => Ok(t),
            AcmeResult::Problem(e) => Err(Error::Server(e)),
        }
    }
}

} // verus!
