use vstd::prelude::*;
use openssl::bn::BigNumContext;
use openssl::ec::PointConversionForm;
use openssl::error::ErrorStack;
use openssl::hash::MessageDigest;
use openssl::pkey::{PKey, Private};
use openssl::rsa::Rsa;
use openssl::sign::Signer;

verus! {

#[verifier::external_type_specification]
#[verifier::external_body]
#[verifier::reject_recursive_types(T)]
pub struct ExPKey<T>(PKey<T>);

#[verifier::external_type_specification]
#[verifier::external_body]
pub struct ExPrivate(Private);

#[verifier::external_type_specification]
#[verifier::external_body]
pub struct ExErrorStack(ErrorStack);

/// The SHA-256 digest of `data`.
pub uninterp spec fn sha256_of(data: Seq<u8>) -> Seq<u8>;

/// Whether a big-endian magnitude has no leading zero byte.
pub open spec fn no_leading_zero(m: Seq<u8>) -> bool {
    m.len() > 0 ==> m[0] != 0
}

/// The public exponent and modulus of an RSA key, as big-endian magnitudes.
///
/// Relies on `PKeyRef::rsa` (fails when the key is not RSA) and on
/// `BigNumRef::to_vec` for `e` and `n`: it writes `num_bytes()` bytes with
/// `BN_bn2bin`, so the first byte of a nonzero number is not zero.
#[verifier::external_body]
pub(crate) fn rsa_public_numbers(key: &PKey<Private>) -> (r: Option<(Vec<u8>, Vec<u8>)>)
    ensures
        r matches Some((e, n)) ==> no_leading_zero(e@) && no_leading_zero(n@),
{
    match key.rsa() {
        Ok(rsa) => Some((rsa.e().to_vec(), rsa.n().to_vec())),
        Err(_) => None,
    }
}

/// The curve of an EC key and its public point in uncompressed form.
///
/// Relies on `PKeyRef::ec_key` (fails when the key is not EC, giving `Ok(None)`
/// here), on `EcGroupRef::curve_name` for the curve's NID, and on
/// `EcPointRef::to_bytes` with `PointConversionForm::UNCOMPRESSED`.
#[verifier::external_body]
pub(crate) fn ec_public_point(key: &PKey<Private>) -> (r: Result<Option<(Option<i32>, Vec<u8>)>, ErrorStack>) {
    let ec = match key.ec_key() {
        Ok(ec) => ec,
        Err(_) => return Ok(None),
    };
    let mut ctx = BigNumContext::new()?;
    let point = ec.public_key().to_bytes(ec.group(), PointConversionForm::UNCOMPRESSED, &mut ctx)?;
    Ok(Some((ec.group().curve_name().map(|nid| nid.as_raw()), point)))
}

/// A SHA-256 signature of `data` with the key: RSASSA-PKCS1-v1_5 for an RSA key,
/// ECDSA in DER form for an EC key.
///
/// Relies on `Signer::new` with `MessageDigest::sha256`, `Signer::update` and
/// `Signer::sign_to_vec`. An ECDSA signature is randomised, so nothing is
/// stated of the bytes.
#[verifier::external_body]
pub(crate) fn sign_sha256(key: &PKey<Private>, data: &[u8]) -> (r: Result<Vec<u8>, ErrorStack>) {
    let mut signer = Signer::new(MessageDigest::sha256(), key)?;
    signer.update(data)?;
    signer.sign_to_vec()
}

/// SHA-256 of `data`.
///
/// Relies on `openssl::hash::hash` with `MessageDigest::sha256`.
#[verifier::external_body]
pub(crate) fn sha256(data: &[u8]) -> (r: Result<Vec<u8>, ErrorStack>)
    ensures
        r matches Ok(d) ==> d@ == sha256_of(data@),
{
    openssl::hash::hash(MessageDigest::sha256(), data).map(|d| d.to_vec())
}

/// A fresh RSA private key of `bits` bits.
///
/// Relies on `Rsa::generate`, and on `PKey::from_rsa` to hold the result as a
/// `PKey`. The key is random: nothing is stated of it.
#[verifier::external_body]
pub(crate) fn generate_rsa_key(bits: u32) -> (r: Result<PKey<Private>, ErrorStack>) {
    Rsa::generate(bits).and_then(PKey::from_rsa)
}

/// Another handle on the same key.
///
/// Relies on `Clone` for `PKey`, which takes a new reference to the same
/// key (`EVP_PKEY_up_ref`), so the result is that key.
#[verifier::external_body]
pub(crate) fn share_key(key: &PKey<Private>) -> (r: PKey<Private>)
    ensures
        r == *key,
{
    key.clone()
}

} // verus!
