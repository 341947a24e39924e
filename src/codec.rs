use vstd::prelude::*;

verus! {

/// The unpadded base64url encoding (RFC 4648, section 5) of `data`.
pub uninterp spec fn b64url_of(data: Seq<u8>) -> Seq<char>;

/// Length of the unpadded base64 encoding of `n` bytes: four characters for
/// each full group of three bytes, then two or three for a trailing partial group.
pub open spec fn b64_unpadded_len(n: nat) -> nat {
    let tail: nat = if n % 3 == 1 {
        2
    } else if n % 3 == 2 {
        3
    } else {
        0
    };
    4 * (n / 3) + tail
}

/// Base64url encoding without padding.
///
/// Relies on `base64::encode_config` with `URL_SAFE_NO_PAD`: its output is the
/// encoding of the bytes, with the length that `base64::encoded_size` computes
/// for an unpadded configuration. The size computation cannot overflow, as no
/// slice holds more than `isize::MAX` bytes.
#[verifier::external_body]
pub fn b64(data: &[u8]) -> (r: String)
    ensures
        r@ == b64url_of(data@),
        r@.len() == b64_unpadded_len(data@.len()),
{
    ::base64::encode_config(data, ::base64::URL_SAFE_NO_PAD)
}

} // verus!
