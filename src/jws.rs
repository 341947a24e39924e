use vstd::prelude::*;
use vstd::string::*;
use vstd::utf8::encode_utf8;
use openssl::pkey::{PKey, Private};
use crate::codec::{b64, b64url_of};
use crate::der::es256_raw_from_der;
use crate::error::Error;
use crate::json::{json_object, json_string, json_string_of, ObjectWriter};
use crate::key::{
    ec_public_point, no_leading_zero, rsa_public_numbers, sha256, sha256_of, share_key,
    sign_sha256,
};

verus! {

/// OpenSSL's NID of the curve P-256 (`prime256v1`).
pub const NID_P256: i32 = 415;

/// Length of an uncompressed P-256 point: the tag `0x04`, then `x` and `y`.
pub const P256_POINT_LEN: usize = 65;

/// The public half of an account key, as a JSON Web Key (RFC 7517).
#[derive(Debug)]
pub enum Jwk {
    /// `e` and `n` are base64url big-endian integers.
    Rsa { e: String, n: String },
    /// `x` and `y` are base64url 32-octet coordinates.
    Ec { crv: String, x: String, y: String },
}

/// A JSON member whose value is a string: the key, and the value's literal.
pub open spec fn str_member(key: Seq<char>, value: Seq<char>) -> (Seq<char>, Seq<char>) {
    (key, json_string_of(value))
}

impl Jwk {
    /// The members as written in a JWS header: `kty` first, then the key's fields.
    pub open spec fn members(&self) -> Seq<(Seq<char>, Seq<char>)> {
        match self {
            Jwk::Rsa { e, n } => seq![
                str_member("kty"@, "RSA"@),
                str_member("e"@, e@),
                str_member("n"@, n@),
            ],
            Jwk::Ec { crv, x, y } => seq![
                str_member("kty"@, "EC"@),
                str_member("crv"@, crv@),
                str_member("x"@, x@),
                str_member("y"@, y@),
            ],
        }
    }

    /// The required members in lexicographic order of their keys (RFC 7638).
    pub open spec fn canonical_members(&self) -> Seq<(Seq<char>, Seq<char>)> {
        match self {
            Jwk::Rsa { e, n } => seq![
                str_member("e"@, e@),
                str_member("kty"@, "RSA"@),
                str_member("n"@, n@),
            ],
            Jwk::Ec { crv, x, y } => seq![
                str_member("crv"@, crv@),
                str_member("kty"@, "EC"@),
                str_member("x"@, x@),
                str_member("y"@, y@),
            ],
        }
    }

    /// The JWS algorithm for the key type.
    pub open spec fn alg_spec(&self) -> Seq<char> {
        match self {
            Jwk::Rsa { .. } => "RS256"@,
            Jwk::Ec { .. } => "ES256"@,
        }
    }

    /// A key type and curve that requests can be signed with.
    pub open spec fn is_supported(&self) -> bool {
        match self {
            Jwk::Rsa { .. } => true,
            Jwk::Ec { crv, .. } => crv@ == "P-256"@,
        }
    }

    /// The RFC 7638 thumbprint: base64url of the SHA-256 of the canonical JSON.
    pub open spec fn thumbprint_spec(&self) -> Seq<char> {
        b64url_of(sha256_of(encode_utf8(json_object(self.canonical_members()))))
    }

    /// The JWK of an RSA key with big-endian exponent `e` and modulus `n`.
    pub open spec fn is_rsa_of(&self, e: Seq<u8>, n: Seq<u8>) -> bool {
        self matches Jwk::Rsa { e: je, n: jn } && je@ == b64url_of(e) && jn@ == b64url_of(n)
    }

    /// The JWK of a P-256 key with uncompressed public point `point`.
    pub open spec fn is_p256_of(&self, point: Seq<u8>) -> bool {
        &&& point.len() == 65
        &&& point[0] == 4
        &&& self matches Jwk::Ec { crv, x, y }
        &&& crv@ == "P-256"@
        &&& x@ == b64url_of(point.subrange(1, 33))
        &&& y@ == b64url_of(point.subrange(33, 65))
    }

    /// The JWK of an account key: from its RSA numbers when it is an RSA key,
    /// else from its public point when it is an EC key on P-256; any other key
    /// is `UnsupportedKey`.
    pub fn new(pkey: &PKey<Private>) -> (r: Result<Jwk, Error>)
        ensures
            is_key_jwk(r),
            r matches Ok(jwk) ==> jwk.is_supported(),
    {
        let rsa = rsa_public_numbers(pkey);
        if rsa.is_some() {
            let r = jwk_from_parts(rsa, None);
            proof {
                lemma_parts_supported(rsa_parts_view(rsa), None, r);
            }
            return r;
        }
        match ec_public_point(pkey) {
            Ok(ec) => {
                let ghost ev = ec_parts_view(ec);
                let r = jwk_from_parts(None, ec);
                proof {
                    lemma_parts_supported(None, ev, r);
                    assert(is_jwk_from_parts(None, ev, r));
                }
                r
            },
            Err(_) => Err(Error::Crypto),
        }
    }

    /// The JWK of the RSA key with exponent `e` and modulus `n`: the octets are
    /// encoded as given, with no octet added or removed.
    pub fn new_from_rsa(e: &[u8], n: &[u8]) -> (r: Jwk)
        ensures
            r.is_rsa_of(e@, n@),
    {
        Jwk::Rsa { e: b64(e), n: b64(n) }
    }

    /// The JWK of the P-256 key with the given uncompressed public point.
    pub fn new_from_p256(point: &[u8]) -> (r: Result<Jwk, Error>)
        ensures
            match r {
                Ok(jwk) => jwk.is_p256_of(point@),
                Err(e) => e is Protocol && !(point@.len() == 65 && point@[0] == 4),
            },
    {
        if point.len() != P256_POINT_LEN || point[0] != 4 {
            return Err(Error::Protocol(String::from_str("unexpected EC point encoding")));
        }
        let x = b64(&point[1..33]);
        let y = b64(&point[33..65]);
        let crv = String::from_str("P-256");
        proof {
            reveal_strlit("P-256");
        }
        Ok(Jwk::Ec { crv, x, y })
    }

    /// The JWS algorithm for the key type.
    pub fn alg(&self) -> (r: String)
        ensures
            r@ == self.alg_spec(),
    {
        match self {
            Jwk::Rsa { .. } => String::from_str("RS256"),
            Jwk::Ec { .. } => String::from_str("ES256"),
        }
    }

    fn write_members(&self, w: &mut ObjectWriter, canonical: bool)
        requires
            old(w).wf(),
        ensures
            final(w).wf(),
            final(w).members() == old(w).members() + if canonical {
                self.canonical_members()
            } else {
                self.members()
            },
    {
        match self {
            Jwk::Rsa { e, n } => {
                let kty = json_string("RSA");
                let ev = json_string(e.as_str());
                let nv = json_string(n.as_str());
                if canonical {
                    w.member("e", ev.as_str());
                    w.member("kty", kty.as_str());
                } else {
                    w.member("kty", kty.as_str());
                    w.member("e", ev.as_str());
                }
                w.member("n", nv.as_str());
            },
            Jwk::Ec { crv, x, y } => {
                let kty = json_string("EC");
                let cv = json_string(crv.as_str());
                if canonical {
                    w.member("crv", cv.as_str());
                    w.member("kty", kty.as_str());
                } else {
                    w.member("kty", kty.as_str());
                    w.member("crv", cv.as_str());
                }
                let xv = json_string(x.as_str());
                w.member("x", xv.as_str());
                let yv = json_string(y.as_str());
                w.member("y", yv.as_str());
            },
        }
        assert(final(w).members() =~= old(w).members() + if canonical {
            self.canonical_members()
        } else {
            self.members()
        });
    }

    /// The JSON text of the key as it stands in a JWS header.
    pub fn to_json(&self) -> (r: String)
        ensures
            r@ == json_object(self.members()),
    {
        let mut w = ObjectWriter::new();
        self.write_members(&mut w, false);
        assert(w.members() =~= self.members());
        w.finish()
    }

    /// The canonical JSON text of the key: required members only, keys in
    /// lexicographic order, no whitespace.
    pub fn canonical_json(&self) -> (r: String)
        ensures
            r@ == json_object(self.canonical_members()),
    {
        let mut w = ObjectWriter::new();
        self.write_members(&mut w, true);
        assert(w.members() =~= self.canonical_members());
        w.finish()
    }

    /// Returns the JWK thumbprint as defined by RFC 7638.
    pub fn thumbprint(&self) -> (r: Result<String, Error>)
        ensures
            match r {
                Ok(t) => t@ == self.thumbprint_spec(),
                Err(e) => e is Crypto,
            },
    {
        let text = self.canonical_json();
        match sha256(text.as_str().as_bytes()) {
            Ok(digest) => Ok(b64(digest.as_slice())),
            Err(_) => Err(Error::Crypto),
        }
    }
}

/// The view of the RSA numbers a key reported.
pub open spec fn rsa_parts_view(rsa: Option<(Vec<u8>, Vec<u8>)>) -> Option<(Seq<u8>, Seq<u8>)> {
    match rsa {
        Some((e, n)) => Some((e@, n@)),
        None => None,
    }
}

/// The view of the EC curve and point a key reported.
pub open spec fn ec_parts_view(ec: Option<(Option<i32>, Vec<u8>)>) -> Option<(Option<i32>, Seq<u8>)> {
    match ec {
        Some((c, p)) => Some((c, p@)),
        None => None,
    }
}

/// The JWK, or the error, for a key that reported RSA numbers `rsa`, or else
/// an EC curve and uncompressed point `ec`.
pub open spec fn is_jwk_from_parts(
    rsa: Option<(Seq<u8>, Seq<u8>)>,
    ec: Option<(Option<i32>, Seq<u8>)>,
    r: Result<Jwk, Error>,
) -> bool {
    match rsa {
        Some((e, n)) => r matches Ok(j) && j.is_rsa_of(e, n),
        None => match ec {
            Some((curve, p)) => if curve == Some(NID_P256) {
                match r {
                    Ok(j) => j.is_p256_of(p),
                    Err(er) => er is Protocol && !(p.len() == 65 && p[0] == 4),
                }
            } else {
                r matches Err(er) && er is UnsupportedKey
            },
            None => r matches Err(er) && er is UnsupportedKey,
        },
    }
}

/// What deriving the JWK of a key may give, whatever the key reported: the
/// outcome for some reported parts (RSA numbers without a leading zero octet),
/// or `Crypto` when reading the EC point failed.
pub open spec fn is_key_jwk(r: Result<Jwk, Error>) -> bool {
    ||| r matches Err(e) && e is Crypto
    ||| exists|rsa: Option<(Seq<u8>, Seq<u8>)>, ec: Option<(Option<i32>, Seq<u8>)>|
        #[trigger] is_jwk_from_parts(rsa, ec, r) && (rsa matches Some((e, n)) ==> no_leading_zero(e)
            && no_leading_zero(n))
}

proof fn lemma_parts_supported(rsa: Option<(Seq<u8>, Seq<u8>)>, ec: Option<(Option<i32>, Seq<u8>)>, r: Result<Jwk, Error>)
    requires
        is_jwk_from_parts(rsa, ec, r),
    ensures
        r matches Ok(j) ==> j.is_supported(),
{
}

/// Chooses the JWK of a key from what it reported: RSA numbers take
/// precedence; an EC key gives a JWK only on the curve P-256.
pub fn jwk_from_parts(rsa: Option<(Vec<u8>, Vec<u8>)>, ec: Option<(Option<i32>, Vec<u8>)>) -> (r: Result<Jwk, Error>)
    ensures
        is_jwk_from_parts(rsa_parts_view(rsa), ec_parts_view(ec), r),
{
    if let Some((e, n)) = rsa {
        return Ok(Jwk::new_from_rsa(e.as_slice(), n.as_slice()));
    }
    match ec {
        Some((curve, point)) => {
            if curve == Some(NID_P256) {
                Jwk::new_from_p256(point.as_slice())
            } else {
                Err(Error::UnsupportedKey)
            }
        },
        None => Err(Error::UnsupportedKey),
    }
}

/// An account's private key together with its public JWK.
pub struct AccountKey {
    pkey: PKey<Private>,
    jwk: Jwk,
}

impl AccountKey {
    #[verifier::type_invariant]
    spec fn inv(self) -> bool {
        self.jwk.is_supported()
    }

    /// The public JWK of the key.
    pub closed spec fn jwk_spec(&self) -> Jwk {
        self.jwk
    }

    /// The private key.
    pub closed spec fn pkey_spec(&self) -> PKey<Private> {
        self.pkey
    }

    /// Takes an RSA or P-256 private key, with the JWK `Jwk::new` derives for
    /// it; any other key is `UnsupportedKey`.
    pub fn new(pkey: PKey<Private>) -> (r: Result<AccountKey, Error>)
        ensures
            match r {
                Ok(k) => is_key_jwk(Ok(k.jwk_spec())) && k.pkey_spec() == pkey,
                Err(e) => is_key_jwk(Err(e)),
            },
    {
        match Jwk::new(&pkey) {
            Ok(jwk) => Ok(AccountKey { pkey, jwk }),
            Err(e) => Err(e),
        }
    }

    pub fn jwk(&self) -> (r: &Jwk)
        ensures
            *r == self.jwk_spec(),
            r.is_supported(),
    {
        proof {
            use_type_invariant(self);
        }
        &self.jwk
    }

    /// Another handle on the private key.
    pub fn private_key(&self) -> PKey<Private> {
        share_key(&self.pkey)
    }

    /// Signs `data` with the algorithm of the key: the PKCS#1 v1.5 signature for
    /// RS256, the 64-octet `r || s` form for ES256.
    pub fn sign(&self, data: &[u8]) -> (r: Result<Vec<u8>, Error>)
        ensures
            r matches Ok(sig) ==> (self.jwk_spec() is Ec ==> sig@.len() == 64),
            r matches Err(e) ==> e is Crypto || e is Protocol,
    {
        let der = match sign_sha256(&self.pkey, data) {
            Ok(sig) => sig,
            Err(_) => return Err(Error::Crypto),
        };
        match &self.jwk {
            Jwk::Rsa { .. } => Ok(der),
            Jwk::Ec { .. } => {
                let raw = es256_raw_from_der(der.as_slice());
                proof {
                    if raw is Ok {
                        let (a, b) = choose|a: Seq<u8>, b: Seq<u8>|
                            #![trigger crate::der::der_signature(a, b)]
                            crate::der::fits_p256(a) && crate::der::fits_p256(b) && der@
                                == crate::der::der_signature(a, b) && raw->Ok_0@ == crate::der::es256_raw(a, b);
                        crate::der::lemma_es256_round_trip(a, b);
                    }
                }
                raw
            },
        }
    }
}

/// How a request names its signer: by the account URL, or by the key itself.
pub open spec fn identity_member(jwk: Jwk, kid: Option<Seq<char>>) -> (Seq<char>, Seq<char>) {
    match kid {
        Some(k) => str_member("kid"@, k),
        None => ("jwk"@, json_object(jwk.members())),
    }
}

/// The members of a JWS protected header, in the order they are written.
pub open spec fn header_members(jwk: Jwk, nonce: Seq<char>, url: Seq<char>, kid: Option<Seq<char>>) -> Seq<(Seq<char>, Seq<char>)> {
    seq![
        str_member("nonce"@, nonce),
        str_member("alg"@, jwk.alg_spec()),
        str_member("url"@, url),
        identity_member(jwk, kid),
    ]
}

/// The view of an optional string.
pub open spec fn opt_view(s: Option<String>) -> Option<Seq<char>> {
    match s {
        Some(t) => Some(t@),
        None => None,
    }
}

/// The base64url form of a request payload; an empty payload stays empty.
pub open spec fn payload_b64(payload: Seq<char>) -> Seq<char> {
    b64url_of(encode_utf8(payload))
}

/// The base64url form of a protected header.
pub open spec fn protected_b64(jwk: Jwk, nonce: Seq<char>, url: Seq<char>, kid: Option<Seq<char>>) -> Seq<char> {
    b64url_of(encode_utf8(json_object(header_members(jwk, nonce, url, kid))))
}

/// The octets that are signed: `protected || "." || payload`, as ASCII.
pub open spec fn signing_input(protected: Seq<char>, payload: Seq<char>) -> Seq<char> {
    protected + "."@ + payload
}

/// The flattened JSON serialization of a JWS.
pub open spec fn jws_object(protected: Seq<char>, payload: Seq<char>, signature: Seq<char>) -> Seq<char> {
    json_object(
        seq![
            str_member("protected"@, protected),
            str_member("payload"@, payload),
            str_member("signature"@, signature),
        ],
    )
}

/// The JSON text of a JWS protected header.
pub fn protected_header(jwk: &Jwk, nonce: &str, url: &str, kid: &Option<String>) -> (r: String)
    ensures
        r@ == json_object(header_members(*jwk, nonce@, url@, opt_view(*kid))),
{
    let mut w = ObjectWriter::new();
    let nv = json_string(nonce);
    w.member("nonce", nv.as_str());
    let alg = jwk.alg();
    let av = json_string(alg.as_str());
    w.member("alg", av.as_str());
    let uv = json_string(url);
    w.member("url", uv.as_str());
    match kid {
        Some(k) => {
            let kv = json_string(k.as_str());
            w.member("kid", kv.as_str());
        },
        None => {
            let jv = jwk.to_json();
            w.member("jwk", jv.as_str());
        },
    }
    assert(w.members() =~= header_members(*jwk, nonce@, url@, opt_view(*kid)));
    w.finish()
}

/// The octets that are signed for a JWS: the ASCII of `protected "." payload`.
pub fn signing_bytes(protected: &str, payload: &str) -> (r: Vec<u8>)
    ensures
        r@ == encode_utf8(signing_input(protected@, payload@)),
{
    let mut input = String::from_str(protected);
    input.append(".");
    input.append(payload);
    vstd::slice::slice_to_vec(input.as_str().as_bytes())
}

/// Base64url of the UTF-8 octets of `payload`; the empty payload gives the empty string.
pub fn encode_payload(payload: &str) -> (r: String)
    ensures
        r@ == payload_b64(payload@),
        payload@.len() == 0 ==> r@.len() == 0,
{
    let bytes = payload.as_bytes();
    proof {
        if payload@.len() == 0 {
            assert(encode_utf8(payload@) =~= Seq::<u8>::empty()) by {
                reveal_with_fuel(encode_utf8, 2);
            }
        }
    }
    b64(bytes)
}

/// Whether `s` is a flattened JWS, signed by `key`, of `payload` for a request
/// to `url` with `nonce`, naming the signer by `kid` or else by the key's JWK.
/// An ES256 signature is the 64-octet `r || s` form.
pub open spec fn is_jws_of(s: Seq<char>, key: AccountKey, nonce: Seq<char>, url: Seq<char>, kid: Option<Seq<char>>, payload: Seq<char>) -> bool {
    exists|sig: Seq<u8>|
        #![trigger b64url_of(sig)]
        s == jws_object(protected_b64(key.jwk_spec(), nonce, url, kid), payload_b64(payload), b64url_of(sig))
            && (key.jwk_spec() is Ec ==> sig.len() == 64)
}

/// Builds the flattened JWS for a request to `url` with the given nonce.
///
/// The header carries `kid` when an account URL is given, and the key's JWK
/// otherwise, never both.
pub fn jws(url: &str, nonce: String, payload: &str, key: &AccountKey, account_id: Option<String>) -> (r: Result<String, Error>)
    ensures
        match r {
            Ok(s) => is_jws_of(s@, *key, nonce@, url@, opt_view(account_id), payload@),
            Err(e) => e is Crypto || e is Protocol,
        },
{
    let body = encode_payload(payload);
    let header = protected_header(key.jwk(), nonce.as_str(), url, &account_id);
    let protected = b64(header.as_str().as_bytes());
    let input = signing_bytes(protected.as_str(), body.as_str());
    let signature = key.sign(input.as_slice())?;
    let signature_b64 = b64(signature.as_slice());
    let mut w = ObjectWriter::new();
    let pv = json_string(protected.as_str());
    w.member("protected", pv.as_str());
    let qv = json_string(body.as_str());
    w.member("payload", qv.as_str());
    let sv = json_string(signature_b64.as_str());
    w.member("signature", sv.as_str());
    assert(protected@ == protected_b64(key.jwk_spec(), nonce@, url@, opt_view(account_id)));
    assert(w.members() =~= seq![
        str_member("protected"@, protected@),
        str_member("payload"@, body@),
        str_member("signature"@, signature_b64@),
    ]);
    let out = w.finish();
    assert(out@ == jws_object(
        protected_b64(key.jwk_spec(), nonce@, url@, opt_view(account_id)),
        payload_b64(payload@),
        b64url_of(signature@),
    ));
    Ok(out)
}

/// Whether some member of `ms` has the key `k`.
pub open spec fn has_key(ms: Seq<(Seq<char>, Seq<char>)>, k: Seq<char>) -> bool {
    exists|i: int| 0 <= i < ms.len() && #[trigger] ms[i].0 == k
}

/// A protected header names its signer exactly once: by `kid` when an account
/// URL is given, by `jwk` otherwise; and its `alg` is the one of the key type.
pub proof fn lemma_header_identity(jwk: Jwk, nonce: Seq<char>, url: Seq<char>, kid: Option<Seq<char>>)
    ensures
        has_key(header_members(jwk, nonce, url, kid), "kid"@) <==> kid is Some,
        has_key(header_members(jwk, nonce, url, kid), "jwk"@) <==> kid is None,
        header_members(jwk, nonce, url, kid)[1] == str_member("alg"@, jwk.alg_spec()),
        jwk is Rsa ==> jwk.alg_spec() == "RS256"@,
        jwk is Ec ==> jwk.alg_spec() == "ES256"@,
{
    reveal_strlit("nonce");
    reveal_strlit("alg");
    reveal_strlit("url");
    reveal_strlit("kid");
    reveal_strlit("jwk");
    let hm = header_members(jwk, nonce, url, kid);
    assert("nonce"@.len() != "kid"@.len() && "nonce"@.len() != "jwk"@.len());
    assert("alg"@[0] != "kid"@[0] && "alg"@[0] != "jwk"@[0]);
    assert("url"@[0] != "kid"@[0] && "url"@[0] != "jwk"@[0]);
    assert("kid"@[0] != "jwk"@[0]);
    assert(hm[3].0 == if kid is Some { "kid"@ } else { "jwk"@ });
    if kid is Some {
        assert(hm[3].0 == "kid"@);
    } else {
        assert(hm[3].0 == "jwk"@);
    }
}

/// The members of the canonical JWK are in strictly increasing lexicographic
/// order of their keys, as RFC 7638 requires for the thumbprint.
pub proof fn lemma_canonical_keys_sorted(jwk: Jwk)
    ensures
        forall|i: int, j: int|
            0 <= i < j < jwk.canonical_members().len() ==> crate::text::lex_lt(
                #[trigger] jwk.canonical_members()[i].0,
                #[trigger] jwk.canonical_members()[j].0,
            ),
{
    reveal_strlit("e");
    reveal_strlit("kty");
    reveal_strlit("n");
    reveal_strlit("crv");
    reveal_strlit("x");
    reveal_strlit("y");
    let cm = jwk.canonical_members();
    assert forall|i: int, j: int| 0 <= i < j < cm.len() implies crate::text::lex_lt(
        #[trigger] cm[i].0,
        #[trigger] cm[j].0,
    ) by {
        assert(cm[i].0[0] != cm[j].0[0]);
    }
}

/// Every JWS the client produces carries a protected header that names its
/// signer exactly once: by `kid` when an account URL was given, else by the
/// signing key's own JWK; its `alg` is RS256 for an RSA key, ES256 for P-256.
pub proof fn lemma_jws_header(
    s: Seq<char>,
    key: AccountKey,
    nonce: Seq<char>,
    url: Seq<char>,
    kid: Option<Seq<char>>,
    payload: Seq<char>,
)
    requires
        is_jws_of(s, key, nonce, url, kid, payload),
    ensures
        ({
            let hm = header_members(key.jwk_spec(), nonce, url, kid);
            &&& exists|sig: Seq<u8>|
                #![trigger b64url_of(sig)]
                s == jws_object(b64url_of(encode_utf8(json_object(hm))), payload_b64(payload), b64url_of(sig))
            &&& has_key(hm, "kid"@) <==> kid is Some
            &&& has_key(hm, "jwk"@) <==> kid is None
            &&& kid is None ==> hm[3] == ("jwk"@, json_object(key.jwk_spec().members()))
            &&& hm[1] == str_member("alg"@, key.jwk_spec().alg_spec())
            &&& key.jwk_spec() is Rsa ==> key.jwk_spec().alg_spec() == "RS256"@
            &&& key.jwk_spec() is Ec ==> key.jwk_spec().alg_spec() == "ES256"@
        }),
{
    lemma_header_identity(key.jwk_spec(), nonce, url, kid);
}

} // verus!
