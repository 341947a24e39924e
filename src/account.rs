use vstd::prelude::*;
use vstd::string::*;
use std::sync::Arc;
use openssl::pkey::{PKey, Private};
use crate::directory::Directory;
use crate::error::Error;
use crate::json::{json_array, json_object, json_opt_bool, json_string, json_string_of, ArrayWriter, ObjectWriter};
use crate::jws::{is_key_jwk, is_jws_of, jws, AccountKey};
use crate::key::{generate_rsa_key, share_key};

verus! {

/// Size in bits of the RSA key generated for an account that brings none.
pub const GENERATED_KEY_BITS: u32 = 4096;

/// The status of an [`Account`]: "deactivated" is client-initiated, "revoked"
/// server-initiated.
#[derive(PartialEq, Eq, Structural, Debug, Clone, Copy)]
pub enum AccountStatus {
    Valid,
    Deactivated,
    Revoked,
}

/// An ACME account: a subscriber known to the server by its key identifier.
pub struct Account {
    /// The status of this account.
    pub status: AccountStatus,
    /// URLs the server can use to contact the client.
    pub contact: Option<Vec<String>>,
    /// Whether the client agreed to the terms of service.
    pub terms_of_service_agreed: Option<bool>,
    directory: Arc<Directory>,
    key: AccountKey,
    private_key_id: String,
}

/// The JSON text of an optional list of strings: an array of literals, or `null`.
pub open spec fn json_opt_strings(v: Option<Vec<String>>) -> Seq<char> {
    match v {
        Some(items) => json_array(items@.map_values(|s: String| json_string_of(s@))),
        None => "null"@,
    }
}

/// Writes the JSON text of an optional list of strings.
pub fn write_opt_strings(v: &Option<Vec<String>>) -> (r: String)
    ensures
        r@ == json_opt_strings(*v),
{
    match v {
        None => String::from_str("null"),
        Some(items) => {
            let mut w = ArrayWriter::new();
            let mut i: usize = 0;
            while i < items.len()
                invariant
                    i <= items@.len(),
                    w.wf(),
                    w.items() == items@.subrange(0, i as int).map_values(|s: String| json_string_of(s@)),
                decreases items@.len() - i,
            {
                let lit = json_string(items[i].as_str());
                w.element(lit.as_str());
                i = i + 1;
                assert(w.items() =~= items@.subrange(0, i as int).map_values(|s: String| json_string_of(s@)));
            }
            assert(items@.subrange(0, items@.len() as int) =~= items@);
            w.finish()
        },
    }
}

fn write_opt_bool(b: Option<bool>) -> (r: String)
    ensures
        r@ == json_opt_bool(b),
{
    match b {
        Some(true) => String::from_str("true"),
        Some(false) => String::from_str("false"),
        None => String::from_str("null"),
    }
}

impl Account {
    /// The key identifier: the account URL the server returned at creation.
    pub closed spec fn kid_spec(&self) -> Seq<char> {
        self.private_key_id@
    }

    pub closed spec fn status_spec(&self) -> AccountStatus {
        self.status
    }

    pub closed spec fn contact_spec(&self) -> Option<Vec<String>> {
        self.contact
    }

    pub closed spec fn terms_spec(&self) -> Option<bool> {
        self.terms_of_service_agreed
    }

    pub closed spec fn key_spec(&self) -> AccountKey {
        self.key
    }

    pub closed spec fn directory_spec(&self) -> Directory {
        *self.directory
    }

    pub fn kid(&self) -> (r: &str)
        ensures
            r@ == self.kid_spec(),
    {
        self.private_key_id.as_str()
    }

    pub fn key(&self) -> (r: &AccountKey)
        ensures
            *r == self.key_spec(),
    {
        &self.key
    }

    pub fn directory(&self) -> (r: &Directory)
        ensures
            *r == self.directory_spec(),
    {
        &*self.directory
    }

    /// Retrieve the private key for this account.
    pub fn private_key(&self) -> PKey<Private> {
        self.key.private_key()
    }

    /// A JWS for a request of this account: signed with its key, naming the
    /// account by its `kid`.
    pub fn sign_request(&self, url: &str, nonce: String, payload: &str) -> (r: Result<String, Error>)
        ensures
            match r {
                Ok(s) => is_jws_of(s@, self.key_spec(), nonce@, url@, Some(self.kid_spec()), payload@),
                Err(e) => e is Crypto || e is Protocol,
            },
    {
        let kid = self.private_key_id.clone();
        jws(url, nonce, payload, &self.key, Some(kid))
    }
}

/// Creates or looks up an [`Account`].
pub struct AccountBuilder {
    directory: Arc<Directory>,
    private_key: Option<PKey<Private>>,
    contact: Option<Vec<String>>,
    terms_of_service_agreed: Option<bool>,
    only_return_existing: Option<bool>,
}

impl AccountBuilder {
    /// The configured private key, if any.
    pub closed spec fn key_spec(&self) -> Option<PKey<Private>> {
        self.private_key
    }

    pub open spec fn has_key(&self) -> bool {
        self.key_spec() is Some
    }

    pub closed spec fn contact_spec(&self) -> Option<Vec<String>> {
        self.contact
    }

    pub closed spec fn terms_spec(&self) -> Option<bool> {
        self.terms_of_service_agreed
    }

    pub closed spec fn only_existing_spec(&self) -> Option<bool> {
        self.only_return_existing
    }

    pub closed spec fn directory_spec(&self) -> Directory {
        *self.directory
    }

    /// The `newAccount` payload: the configuration, with `null` for what is unset.
    pub open spec fn payload_spec(&self) -> Seq<char> {
        json_object(
            seq![
                ("contact"@, json_opt_strings(self.contact_spec())),
                ("termsOfServiceAgreed"@, json_opt_bool(self.terms_spec())),
                ("onlyReturnExisting"@, json_opt_bool(self.only_existing_spec())),
            ],
        )
    }

    /// A builder with nothing configured. Without a private key, a fresh
    /// 4096-bit RSA key is generated when the account is requested.
    pub fn new(directory: Arc<Directory>) -> (r: Self)
        ensures
            r.directory_spec() == *directory,
            !r.has_key(),
            r.contact_spec() is None,
            r.terms_spec() is None,
            r.only_existing_spec() is None,
    {
        AccountBuilder {
            directory,
            private_key: None,
            contact: None,
            terms_of_service_agreed: None,
            only_return_existing: None,
        }
    }

    /// The private key that signs requests to the ACME server.
    pub fn private_key(&mut self, private_key: PKey<Private>) -> (r: &mut Self)
        ensures
            r.key_spec() == Some(private_key),
            r.contact_spec() == old(self).contact_spec(),
            r.terms_spec() == old(self).terms_spec(),
            r.only_existing_spec() == old(self).only_existing_spec(),
            r.directory_spec() == old(self).directory_spec(),
            *final(self) == *final(r),
    {
        self.private_key = Some(private_key);
        self
    }

    /// Contact URLs for the account, such as `mailto:` addresses.
    pub fn contact(&mut self, contact: Vec<String>) -> (r: &mut Self)
        ensures
            r.contact_spec() == Some(contact),
            r.key_spec() == old(self).key_spec(),
            r.terms_spec() == old(self).terms_spec(),
            r.only_existing_spec() == old(self).only_existing_spec(),
            r.directory_spec() == old(self).directory_spec(),
            *final(self) == *final(r),
    {
        self.contact = Some(contact);
        self
    }

    /// Whether the client agrees to the server's terms of service.
    pub fn terms_of_service_agreed(&mut self, terms_of_service_agreed: bool) -> (r: &mut Self)
        ensures
            r.terms_spec() == Some(terms_of_service_agreed),
            r.key_spec() == old(self).key_spec(),
            r.contact_spec() == old(self).contact_spec(),
            r.only_existing_spec() == old(self).only_existing_spec(),
            r.directory_spec() == old(self).directory_spec(),
            *final(self) == *final(r),
    {
        self.terms_of_service_agreed = Some(terms_of_service_agreed);
        self
    }

    /// Only look up an existing account; never create one.
    pub fn only_return_existing(&mut self, only_return_existing: bool) -> (r: &mut Self)
        ensures
            r.only_existing_spec() == Some(only_return_existing),
            r.key_spec() == old(self).key_spec(),
            r.contact_spec() == old(self).contact_spec(),
            r.terms_spec() == old(self).terms_spec(),
            r.directory_spec() == old(self).directory_spec(),
            *final(self) == *final(r),
    {
        self.only_return_existing = Some(only_return_existing);
        self
    }

    /// The JSON payload of the `newAccount` request.
    pub fn payload(&self) -> (r: String)
        ensures
            r@ == self.payload_spec(),
    {
        let mut w = ObjectWriter::new();
        let c = write_opt_strings(&self.contact);
        w.member("contact", c.as_str());
        let t = write_opt_bool(self.terms_of_service_agreed);
        w.member("termsOfServiceAgreed", t.as_str());
        let o = write_opt_bool(self.only_return_existing);
        w.member("onlyReturnExisting", o.as_str());
        assert(w.members() =~= seq![
            ("contact"@, json_opt_strings(self.contact_spec())),
            ("termsOfServiceAgreed"@, json_opt_bool(self.terms_spec())),
            ("onlyReturnExisting"@, json_opt_bool(self.only_existing_spec())),
        ]);
        w.finish()
    }

    /// The key the account is requested with: the configured one, or a freshly
    /// generated 4096-bit RSA key, with its JWK.
    pub fn signing_key(&self) -> (r: Result<AccountKey, Error>)
        ensures
            match r {
                Ok(k) => is_key_jwk(Ok(k.jwk_spec())) && k.jwk_spec().is_supported()
                    && (self.key_spec() matches Some(c) ==> k.pkey_spec() == c),
                Err(e) => is_key_jwk(Err(e)) || (self.key_spec() is None && e is Crypto),
            },
    {
        let pkey = match &self.private_key {
            Some(k) => share_key(k),
            None => match generate_rsa_key(GENERATED_KEY_BITS) {
                Ok(k) => k,
                Err(_) => return Err(Error::Crypto),
            },
        };
        AccountKey::new(pkey)
    }

    /// The JWS of the `newAccount` request: the payload, signed by `key`, which
    /// the header carries as a JWK.
    pub fn new_account_request(&self, key: &AccountKey, nonce: String) -> (r: Result<String, Error>)
        ensures
            match r {
                Ok(s) => is_jws_of(s@, *key, nonce@, self.directory_spec().new_account_url@, None, self.payload_spec()),
                Err(e) => e is Crypto || e is Protocol,
            },
    {
        let payload = self.payload();
        jws(self.directory.new_account_url.as_str(), nonce, payload.as_str(), key, None)
    }

    /// The account the server answered with. Its key identifier is the
    /// `Location` header of the response, which must be present and not empty.
    pub fn finish(
        &self,
        key: AccountKey,
        status: AccountStatus,
        contact: Option<Vec<String>>,
        terms_of_service_agreed: Option<bool>,
        location: Option<String>,
    ) -> (r: Result<Account, Error>)
        ensures
            match r {
                Ok(a) => {
                    &&& location matches Some(l) && a.kid_spec() == l@ && l@.len() > 0
                    &&& a.status_spec() == status
                    &&& a.contact_spec() == contact
                    &&& a.terms_spec() == terms_of_service_agreed
                    &&& a.key_spec() == key
                    &&& a.directory_spec() == self.directory_spec()
                },
                Err(e) => e is Protocol && !(location matches Some(l) && l@.len() > 0),
            },
    {
        match location {
            Some(kid) if !kid.as_str().is_empty() => Ok(Account {
                status,
                contact,
                terms_of_service_agreed,
                directory: self.directory.clone(),
                key,
                private_key_id: kid,
            }),
            _ => Err(Error::Protocol(String::from_str("mandatory location header in newAccount not present"))),
        }
    }
}

} // verus!
