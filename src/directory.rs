use vstd::prelude::*;
use vstd::string::*;
use crate::error::Error;

verus! {

/// Optional metadata of a directory.
#[derive(Debug)]
pub struct DirectoryMeta {
    pub terms_of_service: Option<String>,
    pub website: Option<String>,
    pub caa_identities: Option<Vec<String>>,
    pub external_account_required: Option<bool>,
}

/// The endpoints of an ACME server, discovered once per client.
#[derive(Debug)]
pub struct Directory {
    pub new_nonce_url: String,
    pub new_account_url: String,
    pub new_order_url: String,
    pub revoke_cert_url: String,
    pub key_change_url: String,
    pub new_authz_url: Option<String>,
    pub meta: Option<DirectoryMeta>,
}

impl Directory {
    /// The endpoints this client posts to are all present.
    pub open spec fn is_usable(&self) -> bool {
        &&& self.new_nonce_url@.len() > 0
        &&& self.new_account_url@.len() > 0
        &&& self.new_order_url@.len() > 0
    }

    /// Accepts a discovered directory whose `newNonce`, `newAccount` and
    /// `newOrder` URLs are not empty.
    pub fn checked(self) -> (r: Result<Directory, Error>)
        ensures
            match r {
                Ok(d) => d == self && self.is_usable(),
                Err(e) => e is Protocol && !self.is_usable(),
            },
    {
        if self.new_nonce_url.as_str().is_empty() || self.new_account_url.as_str().is_empty()
            || self.new_order_url.as_str().is_empty() {
            return Err(Error::Protocol(String::from_str("directory lacks a mandatory URL")));
        }
        Ok(self)
    }
}

} // verus!
