use vstd::prelude::*;
use vstd::string::*;
use std::sync::Arc;
use openssl::pkey::{PKey, Private};
use crate::account::AccountBuilder;
use crate::directory::Directory;
use crate::jws::opt_view;

verus! {

/// The prefix of an e-mail contact URL.
pub const MAILTO: &'static str = "mailto:";

/// The contact URLs of a registration: the given contacts, then the e-mail
/// address as a `mailto:` URL.
pub open spec fn registration_contacts(contact: Option<Vec<String>>, email: Option<String>) -> Seq<Seq<char>> {
    let given = match contact {
        Some(c) => c@.map_values(|s: String| s@),
        None => Seq::empty(),
    };
    match email {
        Some(e) => given.push(MAILTO@ + e@),
        None => given,
    }
}

/// A registration request in the style of a one-shot form: contacts, an
/// e-mail address, an agreement to the terms of service, and optionally a key.
pub struct AccountRegistration {
    pub directory: Arc<Directory>,
    pub pkey: Option<PKey<Private>>,
    pub email: Option<String>,
    pub contact: Option<Vec<String>>,
    pub agreement: Option<String>,
}

impl AccountRegistration {
    pub fn new(directory: Arc<Directory>) -> (r: AccountRegistration)
        ensures
            r.directory == directory,
            r.pkey is None,
            r.email is None,
            r.contact is None,
            r.agreement is None,
    {
        AccountRegistration { directory, pkey: None, email: None, contact: None, agreement: None }
    }

    /// Sets the contact e-mail address.
    pub fn email(self, email: &str) -> (r: AccountRegistration)
        ensures
            opt_view(r.email) == Some(email@),
            r.directory == self.directory,
            r.pkey == self.pkey,
            r.contact == self.contact,
            r.agreement == self.agreement,
    {
        AccountRegistration { email: Some(String::from_str(email)), ..self }
    }

    /// Sets contact URLs, such as a telephone number.
    pub fn contact(self, contact: &[&str]) -> (r: AccountRegistration)
        ensures
            r.contact matches Some(c) && c@.len() == contact@.len() && forall|i: int|
                0 <= i < c@.len() ==> #[trigger] c@[i]@ == contact@[i]@,
            r.directory == self.directory,
            r.pkey == self.pkey,
            r.email == self.email,
            r.agreement == self.agreement,
    {
        let mut v: Vec<String> = Vec::new();
        let mut i: usize = 0;
        while i < contact.len()
            invariant
                i <= contact@.len(),
                v@.len() == i,
                forall|j: int| 0 <= j < i ==> #[trigger] v@[j]@ == contact@[j]@,
            decreases contact@.len() - i,
        {
            v.push(String::from_str(contact[i]));
            i = i + 1;
        }
        AccountRegistration { contact: Some(v), ..self }
    }

    /// Records agreement to the terms of service at `url`.
    pub fn agreement(self, url: &str) -> (r: AccountRegistration)
        ensures
            opt_view(r.agreement) == Some(url@),
            r.directory == self.directory,
            r.pkey == self.pkey,
            r.email == self.email,
            r.contact == self.contact,
    {
        AccountRegistration { agreement: Some(String::from_str(url)), ..self }
    }

    /// Sets the account private key; without one a key is generated.
    pub fn pkey(self, pkey: PKey<Private>) -> (r: AccountRegistration)
        ensures
            r.pkey == Some(pkey),
            r.directory == self.directory,
            r.email == self.email,
            r.contact == self.contact,
            r.agreement == self.agreement,
    {
        AccountRegistration { pkey: Some(pkey), ..self }
    }

    /// The account request this registration stands for: its contacts and
    /// e-mail address as contact URLs, agreement to the terms of service
    /// exactly when an agreement was given, and its key if it has one.
    pub fn into_builder(self) -> (r: AccountBuilder)
        ensures
            r.directory_spec() == *self.directory,
            r.key_spec() == self.pkey,
            r.contact_spec() matches Some(c) && c@.map_values(|s: String| s@)
                == registration_contacts(self.contact, self.email),
            r.terms_spec() == if self.agreement is Some {
                Some(true)
            } else {
                None::<bool>
            },
            r.only_existing_spec() is None,
    {
        let AccountRegistration { directory, pkey, email, contact, agreement } = self;
        let mut all: Vec<String> = match contact {
            Some(c) => c,
            None => Vec::new(),
        };
        proof {
            assert(all@.map_values(|s: String| s@) =~= match contact {
                Some(c) => c@.map_values(|s: String| s@),
                None => Seq::<Seq<char>>::empty(),
            });
        }
        let ghost given = all@.map_values(|s: String| s@);
        if let Some(e) = email {
            let mut m = String::from_str(MAILTO);
            m.append(e.as_str());
            all.push(m);
            assert(all@.map_values(|s: String| s@) =~= given.push(MAILTO@ + e@));
        }
        let mut b = AccountBuilder::new(directory);
        if let Some(k) = pkey {
            b.private_key(k);
        }
        b.contact(all);
        if agreement.is_some() {
            b.terms_of_service_agreed(true);
        }
        b
    }
}

} // verus!
