use vstd::prelude::*;
use vstd::string::*;
use std::sync::Arc;
use crate::account::Account;
use crate::authorization::POST_AS_GET;
use crate::codec::{b64, b64url_of};
use crate::error::{AcmeError, Error};
use crate::json::{json_array, json_object, json_string, json_string_of, ArrayWriter, ObjectWriter};
use crate::jws::{is_jws_of, str_member};
use crate::resources::{Identifier, Observation, Poll};

verus! {

/// The status of an order: `Pending -> Ready -> Processing -> (Valid | Invalid)`,
/// and `Invalid` from any state.
#[derive(PartialEq, Eq, Structural, Debug, Clone, Copy)]
pub enum OrderStatus {
    Pending,
    Ready,
    Processing,
    Valid,
    Invalid,
}

impl OrderStatus {
    /// Position along `Pending -> Ready -> Processing -> Valid`.
    pub open spec fn rank(self) -> int {
        match self {
            OrderStatus::Pending => 0,
            OrderStatus::Ready => 1,
            OrderStatus::Processing => 2,
            OrderStatus::Valid => 3,
            OrderStatus::Invalid => 4,
        }
    }

    pub open spec fn is_terminal(self) -> bool {
        self == OrderStatus::Valid || self == OrderStatus::Invalid
    }

    /// Whether a later observation of an order may show `next`: it stays, moves
    /// forward (polling may miss intermediate states), or fails; terminal
    /// states do not change.
    pub open spec fn may_become_spec(self, next: OrderStatus) -> bool {
        self == next || (!self.is_terminal() && (next == OrderStatus::Invalid || self.rank() < next.rank()))
    }

    pub fn may_become(&self, next: &OrderStatus) -> (r: bool)
        ensures
            r == self.may_become_spec(*next),
    {
        let terminal = *self == OrderStatus::Valid || *self == OrderStatus::Invalid;
        *self == *next || (!terminal && (*next == OrderStatus::Invalid || self.position() < next.position()))
    }

    fn position(&self) -> (k: u8)
        ensures
            k == self.rank(),
    {
        match self {
            OrderStatus::Pending => 0,
            OrderStatus::Ready => 1,
            OrderStatus::Processing => 2,
            OrderStatus::Valid => 3,
            OrderStatus::Invalid => 4,
        }
    }

    /// Polling waits while the server works on the order, and stops once it is
    /// ready for finalization or issued.
    pub open spec fn poll_spec(self) -> Poll {
        match self {
            OrderStatus::Pending | OrderStatus::Processing => Poll::Wait,
            OrderStatus::Ready | OrderStatus::Valid => Poll::Done,
            OrderStatus::Invalid => Poll::Failed,
        }
    }

    pub fn poll(&self) -> (r: Poll)
        ensures
            r == self.poll_spec(),
    {
        match self {
            OrderStatus::Pending | OrderStatus::Processing => Poll::Wait,
            OrderStatus::Ready | OrderStatus::Valid => Poll::Done,
            OrderStatus::Invalid => Poll::Failed,
        }
    }
}

/// A request for a certificate, tracked through to issuance.
#[derive(Debug)]
pub struct Order {
    /// The status of this order.
    pub status: OrderStatus,
    /// When the server will consider this order invalid.
    pub expires: Option<String>,
    /// The identifiers that the order pertains to.
    pub identifiers: Vec<Identifier>,
    /// The requested value of the notBefore field in the certificate.
    pub not_before: Option<String>,
    /// The requested value of the notAfter field in the certificate.
    pub not_after: Option<String>,
    /// The authorizations the client needs to complete, or completed.
    pub authorization_urls: Vec<String>,
    /// Where a CSR is posted once all authorizations are satisfied.
    pub finalize_url: String,
    /// Where the issued certificate can be fetched.
    pub certificate_url: Option<String>,
    /// The problem that made the order invalid, if the server gave one.
    pub error: Option<AcmeError>,
}

/// The payload that finalizes an order with a DER-encoded CSR.
pub open spec fn finalize_payload_of(csr_der: Seq<u8>) -> Seq<char> {
    json_object(seq![str_member("csr"@, b64url_of(csr_der))])
}

impl Order {
    /// Judges a polled order: an `Invalid` one fails with the server's problem.
    pub fn observe(self) -> (r: Observation<Order>)
        ensures
            match self.status.poll_spec() {
                Poll::Wait => r == Observation::Wait(self),
                Poll::Done => r == Observation::Done(self),
                Poll::Failed => r == Observation::<Order>::Failed(Error::TerminalFailure(self.error)),
            },
    {
        match self.status.poll() {
            Poll::Wait => Observation::Wait(self),
            Poll::Done => Observation::Done(self),
            Poll::Failed => Observation::Failed(Error::TerminalFailure(self.error)),
        }
    }

    /// What polling this order should do next.
    pub fn poll_step(&self) -> (r: Poll)
        ensures
            r == self.status.poll_spec(),
    {
        self.status.poll()
    }

    /// The payload `{"csr": base64url(der)}`; only a `Ready` order can be finalized.
    pub fn finalize_payload(&self, csr_der: &[u8]) -> (r: Result<String, Error>)
        ensures
            match r {
                Ok(p) => self.status == OrderStatus::Ready && p@ == finalize_payload_of(csr_der@),
                Err(e) => e is InvalidState && self.status != OrderStatus::Ready,
            },
    {
        if self.status != OrderStatus::Ready {
            return Err(Error::InvalidState(String::from_str("order is not ready for finalization")));
        }
        let csr = b64(csr_der);
        let v = json_string(csr.as_str());
        let mut w = ObjectWriter::new();
        w.member("csr", v.as_str());
        assert(w.members() =~= seq![str_member("csr"@, b64url_of(csr_der@))]);
        Ok(w.finish())
    }

    /// The JWS that finalizes this order with a DER-encoded CSR.
    pub fn finalize_request(&self, account: &Account, nonce: String, csr_der: &[u8]) -> (r: Result<String, Error>)
        ensures
            match r {
                Ok(s) => self.status == OrderStatus::Ready && is_jws_of(
                    s@,
                    account.key_spec(),
                    nonce@,
                    self.finalize_url@,
                    Some(account.kid_spec()),
                    finalize_payload_of(csr_der@),
                ),
                Err(e) => e is InvalidState && self.status != OrderStatus::Ready || e is Crypto
                    || e is Protocol,
            },
    {
        let payload = self.finalize_payload(csr_der)?;
        account.sign_request(self.finalize_url.as_str(), nonce, payload.as_str())
    }

    /// The URL of the issued certificate; only a `Valid` order has one.
    pub fn certificate_location(&self) -> (r: Result<String, Error>)
        ensures
            match r {
                Ok(u) => self.status == OrderStatus::Valid && (self.certificate_url matches Some(c)
                    && u@ == c@),
                Err(e) => e is InvalidState && !(self.status == OrderStatus::Valid
                    && self.certificate_url is Some),
            },
    {
        if self.status != OrderStatus::Valid {
            return Err(Error::InvalidState(String::from_str("order is not valid")));
        }
        match &self.certificate_url {
            Some(u) => Ok(u.clone()),
            None => Err(Error::InvalidState(String::from_str("order has no certificate URL"))),
        }
    }

    /// The JWS of a POST-as-GET that fetches the issued certificate chain.
    pub fn certificate_request(&self, account: &Account, nonce: String) -> (r: Result<String, Error>)
        ensures
            match r {
                Ok(s) => self.status == OrderStatus::Valid && (self.certificate_url matches Some(c)
                    && is_jws_of(s@, account.key_spec(), nonce@, c@, Some(account.kid_spec()), POST_AS_GET@)),
                Err(e) => e is InvalidState && !(self.status == OrderStatus::Valid
                    && self.certificate_url is Some) || e is Crypto || e is Protocol,
            },
    {
        let url = self.certificate_location()?;
        account.sign_request(url.as_str(), nonce, POST_AS_GET)
    }

    /// The subject common name and the subject alternative names of a CSR for
    /// this order: the first identifier value, and every identifier value.
    pub fn csr_names(&self) -> (r: Result<(String, Vec<String>), Error>)
        ensures
            match r {
                Ok((cn, sans)) => {
                    &&& self.identifiers@.len() > 0
                    &&& cn@ == self.identifiers@[0].value@
                    &&& sans@.len() == self.identifiers@.len()
                    &&& forall|i: int| 0 <= i < sans@.len() ==> #[trigger] sans@[i]@ == self.identifiers@[i].value@
                },
                Err(e) => e is InvalidState && self.identifiers@.len() == 0,
            },
    {
        if self.identifiers.len() == 0 {
            return Err(Error::InvalidState(String::from_str("You need to supply at least one or more domain names")));
        }
        let cn = self.identifiers[0].value.clone();
        let mut sans: Vec<String> = Vec::new();
        let mut i: usize = 0;
        while i < self.identifiers.len()
            invariant
                i <= self.identifiers@.len(),
                sans@.len() == i,
                forall|j: int| 0 <= j < i ==> #[trigger] sans@[j]@ == self.identifiers@[j].value@,
            decreases self.identifiers@.len() - i,
        {
            sans.push(self.identifiers[i].value.clone());
            i = i + 1;
        }
        Ok((cn, sans))
    }
}

/// The JSON text of an identifier.
pub open spec fn identifier_json(id: Identifier) -> Seq<char> {
    json_object(seq![str_member("type"@, id.typ@), str_member("value"@, id.value@)])
}

/// Writes the JSON text of an identifier.
pub fn write_identifier(id: &Identifier) -> (r: String)
    ensures
        r@ == identifier_json(*id),
{
    let mut w = ObjectWriter::new();
    let t = json_string(id.typ.as_str());
    w.member("type", t.as_str());
    let v = json_string(id.value.as_str());
    w.member("value", v.as_str());
    assert(w.members() =~= seq![str_member("type"@, id.typ@), str_member("value"@, id.value@)]);
    w.finish()
}

/// Creates an [`Order`] for an account.
pub struct OrderBuilder {
    account: Arc<Account>,
    identifiers: Vec<Identifier>,
}

impl OrderBuilder {
    pub closed spec fn identifiers_spec(&self) -> Seq<Identifier> {
        self.identifiers@
    }

    pub closed spec fn account_spec(&self) -> Account {
        *self.account
    }

    /// The `newOrder` payload: `{"identifiers": [...]}`.
    pub open spec fn payload_spec(&self) -> Seq<char> {
        json_object(
            seq![("identifiers"@, json_array(self.identifiers_spec().map_values(|id: Identifier| identifier_json(id))))],
        )
    }

    pub fn new(account: Arc<Account>) -> (r: Self)
        ensures
            r.account_spec() == *account,
            r.identifiers_spec() == Seq::<Identifier>::empty(),
    {
        OrderBuilder { account, identifiers: Vec::new() }
    }

    pub fn set_identifiers(&mut self, identifiers: Vec<Identifier>) -> (r: &mut Self)
        ensures
            r.identifiers_spec() == identifiers@,
            r.account_spec() == old(self).account_spec(),
            *final(self) == *final(r),
    {
        self.identifiers = identifiers;
        self
    }

    /// Adds a `dns` identifier.
    pub fn add_dns_identifier(&mut self, fqdn: String) -> (r: &mut Self)
        ensures
            r.identifiers_spec().len() == old(self).identifiers_spec().len() + 1,
            r.identifiers_spec().drop_last() == old(self).identifiers_spec(),
            r.identifiers_spec().last().typ@ == "dns"@,
            r.identifiers_spec().last().value == fqdn,
            r.account_spec() == old(self).account_spec(),
            *final(self) == *final(r),
    {
        self.identifiers.push(Identifier::dns(fqdn));
        assert(self.identifiers@.drop_last() =~= old(self).identifiers@);
        self
    }

    /// The JSON payload of the `newOrder` request.
    pub fn payload(&self) -> (r: String)
        ensures
            r@ == self.payload_spec(),
    {
        let mut a = ArrayWriter::new();
        let mut i: usize = 0;
        while i < self.identifiers.len()
            invariant
                i <= self.identifiers@.len(),
                a.wf(),
                a.items() == self.identifiers@.subrange(0, i as int).map_values(|id: Identifier| identifier_json(id)),
            decreases self.identifiers@.len() - i,
        {
            let t = write_identifier(&self.identifiers[i]);
            a.element(t.as_str());
            i = i + 1;
            assert(a.items() =~= self.identifiers@.subrange(0, i as int).map_values(|id: Identifier| identifier_json(id)));
        }
        assert(self.identifiers@.subrange(0, self.identifiers@.len() as int) =~= self.identifiers@);
        let list = a.finish();
        let mut w = ObjectWriter::new();
        w.member("identifiers", list.as_str());
        assert(w.members() =~= seq![("identifiers"@, json_array(self.identifiers_spec().map_values(|id: Identifier| identifier_json(id))))]);
        w.finish()
    }

    /// The JWS of the `newOrder` request, signed by the account.
    pub fn request(&self, nonce: String) -> (r: Result<String, Error>)
        ensures
            match r {
                Ok(s) => is_jws_of(
                    s@,
                    self.account_spec().key_spec(),
                    nonce@,
                    self.account_spec().directory_spec().new_order_url@,
                    Some(self.account_spec().kid_spec()),
                    self.payload_spec(),
                ),
                Err(e) => e is Crypto || e is Protocol,
            },
    {
        let payload = self.payload();
        let url = &self.account.directory().new_order_url;
        self.account.sign_request(url.as_str(), nonce, payload.as_str())
    }
}

/// Terminal order states are absorbing, and no observation leads back to `Pending`.
pub proof fn lemma_order_terminal_absorbing(s: OrderStatus, t: OrderStatus)
    ensures
        s.is_terminal() && s != t ==> !s.may_become_spec(t),
        s != OrderStatus::Pending ==> !s.may_become_spec(OrderStatus::Pending),
        s.is_terminal() ==> s.poll_spec() != Poll::Wait,
{
}

} // verus!
