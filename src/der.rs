use vstd::prelude::*;
use vstd::string::*;
use crate::error::Error;

verus! {

/// Size in bytes of each of `r` and `s` in an ES256 JWS signature.
pub const P256_COMPONENT_LEN: usize = 32;

/// A DER INTEGER with content octets `c` (short-form length).
pub open spec fn der_integer(c: Seq<u8>) -> Seq<u8> {
    seq![0x02u8, c.len() as u8] + c
}

/// The DER encoding of an ECDSA-Sig-Value: `SEQUENCE { r INTEGER, s INTEGER }`.
pub open spec fn der_signature(r: Seq<u8>, s: Seq<u8>) -> Seq<u8> {
    seq![0x30u8, (r.len() + s.len() + 4) as u8] + der_integer(r) + der_integer(s)
}

/// Content octets of a nonnegative INTEGER in minimal form (X.690, 8.3):
/// not empty, sign bit clear, no redundant leading zero octet.
pub open spec fn is_der_uint(c: Seq<u8>) -> bool {
    &&& c.len() >= 1
    &&& c[0] < 0x80
    &&& !(c.len() >= 2 && c[0] == 0 && c[1] < 0x80)
}

/// The content octets without the leading zero that DER adds before a set high bit.
pub open spec fn magnitude(c: Seq<u8>) -> Seq<u8> {
    if c.len() > 0 && c[0] == 0 {
        c.drop_first()
    } else {
        c
    }
}

/// A DER integer whose value fits in a P-256 signature component.
pub open spec fn fits_p256(c: Seq<u8>) -> bool {
    is_der_uint(c) && magnitude(c).len() <= 32
}

/// `m` with zero octets prepended up to length `n`.
pub open spec fn left_pad(m: Seq<u8>, n: nat) -> Seq<u8> {
    Seq::new((n - m.len()) as nat, |i: int| 0u8) + m
}

/// The JWS form of an ES256 signature with DER integers `r` and `s`:
/// each magnitude left-padded to 32 octets, then concatenated.
pub open spec fn es256_raw(r: Seq<u8>, s: Seq<u8>) -> Seq<u8> {
    left_pad(magnitude(r), 32) + left_pad(magnitude(s), 32)
}

/// Whether `der` encodes some signature whose components fit P-256.
pub open spec fn is_p256_der_signature(der: Seq<u8>) -> bool {
    exists|r: Seq<u8>, s: Seq<u8>|
        #![trigger der_signature(r, s)]
        fits_p256(r) && fits_p256(s) && der == der_signature(r, s)
}

/// Checks the INTEGER that starts at `pos`; returns the end of its content.
fn read_uint(der: &[u8], pos: usize) -> (r: Option<usize>)
    requires
        pos <= der@.len(),
    ensures
        match r {
            Some(end) => {
                &&& pos + 2 <= end <= der@.len()
                &&& der@[pos as int] == 0x02
                &&& der@[pos + 1] == end - pos - 2
                &&& fits_p256(der@.subrange(pos + 2, end as int))
            },
            None => forall|c: Seq<u8>|
                #![trigger der_integer(c)]
                pos + der_integer(c).len() <= der@.len() && der@.subrange(
                    pos as int,
                    pos + der_integer(c).len(),
                ) == der_integer(c) ==> !fits_p256(c),
        },
{
    let n = der.len();
    if n - pos < 3 || der[pos] != 0x02 || der[pos + 1] > 33 || der[pos + 1] == 0 {
        proof {
            assert forall|c: Seq<u8>|
                #![trigger der_integer(c)]
                pos + der_integer(c).len() <= der@.len() && der@.subrange(
                    pos as int,
                    pos + der_integer(c).len(),
                ) == der_integer(c) implies !fits_p256(c) by {
                if fits_p256(c) {
                    assert(der@[pos as int] == der_integer(c)[0]);
                    assert(der@[pos + 1] == der_integer(c)[1]);
                }
            }
        }
        return None;
    }
    let len = der[pos + 1] as usize;
    if n - pos - 2 < len {
        proof {
            assert forall|c: Seq<u8>|
                #![trigger der_integer(c)]
                pos + der_integer(c).len() <= der@.len() && der@.subrange(
                    pos as int,
                    pos + der_integer(c).len(),
                ) == der_integer(c) implies !fits_p256(c) by {
                if fits_p256(c) {
                    assert(der@[pos + 1] == der_integer(c)[1]);
                }
            }
        }
        return None;
    }
    let first = der[pos + 2];
    let ok = first < 0x80 && !(len >= 2 && first == 0 && der[pos + 3] < 0x80) && (len <= 32
        || first == 0);
    let ghost c = der@.subrange(pos + 2, pos + 2 + len);
    assert(c[0] == first);
    assert(len >= 2 ==> c[1] == der@[pos + 3]);
    if !ok {
        proof {
            assert forall|c2: Seq<u8>|
                #![trigger der_integer(c2)]
                pos + der_integer(c2).len() <= der@.len() && der@.subrange(
                    pos as int,
                    pos + der_integer(c2).len(),
                ) == der_integer(c2) implies !fits_p256(c2) by {
                if fits_p256(c2) {
                    assert(der@[pos + 1] == der_integer(c2)[1]);
                    assert(c2 =~= der@.subrange(pos as int, pos + der_integer(c2).len()).subrange(
                        2,
                        der_integer(c2).len() as int,
                    ));
                    assert(c2 =~= c);
                }
            }
        }
        return None;
    }
    Some(pos + 2 + len)
}

/// Appends `der[start..end]`, without a leading zero octet, left-padded to 32 octets.
fn push_padded(out: &mut Vec<u8>, der: &[u8], start: usize, end: usize)
    requires
        start <= end <= der@.len(),
        magnitude(der@.subrange(start as int, end as int)).len() <= 32,
    ensures
        final(out)@ == old(out)@ + left_pad(magnitude(der@.subrange(start as int, end as int)), 32),
{
    let ghost c = der@.subrange(start as int, end as int);
    let mut from = start;
    if start < end && der[start] == 0 {
        from = start + 1;
    }
    assert(der@.subrange(from as int, end as int) =~= magnitude(c));
    let pad = P256_COMPONENT_LEN - (end - from);
    let mut i: usize = 0;
    while i < pad
        invariant
            i <= pad,
            out@ == old(out)@ + Seq::new(i as nat, |k: int| 0u8),
        decreases pad - i,
    {
        out.push(0u8);
        i = i + 1;
        assert(out@ =~= old(out)@ + Seq::new(i as nat, |k: int| 0u8));
    }
    let ghost padded = old(out)@ + Seq::new(pad as nat, |k: int| 0u8);
    let mut j = from;
    while j < end
        invariant
            from <= j <= end <= der@.len(),
            out@ == padded + der@.subrange(from as int, j as int),
        decreases end - j,
    {
        out.push(der[j]);
        j = j + 1;
        assert(out@ =~= padded + der@.subrange(from as int, j as int));
    }
    assert(out@ =~= old(out)@ + left_pad(magnitude(c), 32));
}

/// Converts an ECDSA P-256 signature from DER to the 64-octet `r || s` form of JWS.
///
/// A leading zero octet of a component is dropped only where one is present;
/// each component is then left-padded with zeros to 32 octets.
pub fn es256_raw_from_der(der: &[u8]) -> (r: Result<Vec<u8>, Error>)
    ensures
        match r {
            Ok(raw) => exists|a: Seq<u8>, b: Seq<u8>|
                #![trigger der_signature(a, b)]
                fits_p256(a) && fits_p256(b) && der@ == der_signature(a, b) && raw@ == es256_raw(
                    a,
                    b,
                ),
            Err(e) => e is Protocol && !is_p256_der_signature(der@),
        },
{
    let n = der.len();
    if n < 2 || der[0] != 0x30 || der[1] as usize != n - 2 {
        proof {
            lemma_not_signature_header(der@);
        }
        return Err(Error::Protocol(String::from_str("malformed ECDSA signature")));
    }
    let r_end = match read_uint(der, 2) {
        Some(e) => e,
        None => {
            proof {
                lemma_first_integer(der@);
            }
            return Err(Error::Protocol(String::from_str("malformed ECDSA signature")));
        },
    };
    let s_end = match read_uint(der, r_end) {
        Some(e) => e,
        None => {
            proof {
                lemma_second_integer(der@, r_end as int);
            }
            return Err(Error::Protocol(String::from_str("malformed ECDSA signature")));
        },
    };
    if s_end != n {
        proof {
            lemma_trailing(der@, r_end as int, s_end as int);
        }
        return Err(Error::Protocol(String::from_str("malformed ECDSA signature")));
    }
    let ghost a = der@.subrange(4, r_end as int);
    let ghost b = der@.subrange(r_end + 2, s_end as int);
    assert(der@ =~= der_signature(a, b));
    let mut raw: Vec<u8> = Vec::new();
    push_padded(&mut raw, der, 4, r_end);
    push_padded(&mut raw, der, r_end + 2, s_end);
    assert(raw@ =~= es256_raw(a, b));
    Ok(raw)
}

proof fn lemma_not_signature_header(der: Seq<u8>)
    requires
        der.len() < 2 || der[0] != 0x30 || der[1] as int != der.len() - 2,
    ensures
        !is_p256_der_signature(der),
{
    if is_p256_der_signature(der) {
        let (a, b) = choose|a: Seq<u8>, b: Seq<u8>|
            #![trigger der_signature(a, b)]
            fits_p256(a) && fits_p256(b) && der == der_signature(a, b);
        assert(der[0] == der_signature(a, b)[0]);
        assert(der[1] == der_signature(a, b)[1]);
    }
}

proof fn lemma_first_integer(der: Seq<u8>)
    requires
        forall|c: Seq<u8>|
            #![trigger der_integer(c)]
            2 + der_integer(c).len() <= der.len() && der.subrange(2, 2 + der_integer(c).len() as int)
                == der_integer(c) ==> !fits_p256(c),
    ensures
        !is_p256_der_signature(der),
{
    if is_p256_der_signature(der) {
        let (a, b) = choose|a: Seq<u8>, b: Seq<u8>|
            #![trigger der_signature(a, b)]
            fits_p256(a) && fits_p256(b) && der == der_signature(a, b);
        assert(der.subrange(2, 2 + der_integer(a).len() as int) =~= der_integer(a));
    }
}

proof fn lemma_second_integer(der: Seq<u8>, pos: int)
    requires
        2 <= pos <= der.len(),
        der.len() >= 2,
        der[1] == der.len() - 2,
        der[2] == 0x02,
        pos == der[3] + 4,
        forall|c: Seq<u8>|
            #![trigger der_integer(c)]
            pos + der_integer(c).len() <= der.len() && der.subrange(pos, pos + der_integer(c).len())
                == der_integer(c) ==> !fits_p256(c),
    ensures
        !is_p256_der_signature(der),
{
    if is_p256_der_signature(der) {
        let (a, b) = choose|a: Seq<u8>, b: Seq<u8>|
            #![trigger der_signature(a, b)]
            fits_p256(a) && fits_p256(b) && der == der_signature(a, b);
        assert(der[3] == der_signature(a, b)[3]);
        assert(der.subrange(pos, pos + der_integer(b).len()) =~= der_integer(b));
    }
}

proof fn lemma_trailing(der: Seq<u8>, r_end: int, s_end: int)
    requires
        der.len() >= 2,
        der[1] == der.len() - 2,
        der[2] == 0x02,
        r_end == der[3] + 4,
        r_end + 2 <= s_end <= der.len(),
        der[r_end] == 0x02,
        der[r_end + 1] == s_end - r_end - 2,
        s_end != der.len(),
    ensures
        !is_p256_der_signature(der),
{
    if is_p256_der_signature(der) {
        let (a, b) = choose|a: Seq<u8>, b: Seq<u8>|
            #![trigger der_signature(a, b)]
            fits_p256(a) && fits_p256(b) && der == der_signature(a, b);
        assert(der[3] == der_signature(a, b)[3]);
        assert(der[r_end + 1] == der_signature(a, b)[r_end + 1]);
    }
}

/// The octets of `m` after its leading zero octets.
pub open spec fn strip_zeros(m: Seq<u8>) -> Seq<u8>
    decreases m.len(),
{
    if m.len() > 0 && m[0] == 0 {
        strip_zeros(m.drop_first())
    } else {
        m
    }
}

/// The minimal DER content octets of the nonnegative integer with big-endian octets `m`.
pub open spec fn der_uint_content(m: Seq<u8>) -> Seq<u8> {
    let t = strip_zeros(m);
    if t.len() == 0 {
        seq![0u8]
    } else if t[0] >= 0x80 {
        seq![0u8] + t
    } else {
        t
    }
}

/// The DER form of a 64-octet JWS `r || s` signature.
pub open spec fn der_of_raw(raw: Seq<u8>) -> Seq<u8> {
    der_signature(der_uint_content(raw.subrange(0, 32)), der_uint_content(raw.subrange(32, 64)))
}

/// The value of big-endian octets.
pub open spec fn be_value(m: Seq<u8>) -> nat
    decreases m.len(),
{
    if m.len() == 0 {
        0
    } else {
        (be_value(m.drop_last()) * 256 + m.last()) as nat
    }
}

proof fn lemma_strip_zero_prefix(k: nat, m: Seq<u8>)
    ensures
        strip_zeros(Seq::new(k, |i: int| 0u8) + m) == strip_zeros(m),
    decreases k,
{
    if k > 0 {
        let z = Seq::new(k, |i: int| 0u8);
        assert((z + m).drop_first() =~= Seq::new((k - 1) as nat, |i: int| 0u8) + m);
        lemma_strip_zero_prefix((k - 1) as nat, m);
    } else {
        assert(Seq::new(k, |i: int| 0u8) + m =~= m);
    }
}

proof fn lemma_component_round_trip(c: Seq<u8>)
    requires
        fits_p256(c),
    ensures
        left_pad(magnitude(c), 32).len() == 32,
        der_uint_content(left_pad(magnitude(c), 32)) == c,
{
    let m = magnitude(c);
    lemma_strip_zero_prefix((32 - m.len()) as nat, m);
    if c[0] == 0 {
        if c.len() == 1 {
            assert(m =~= Seq::<u8>::empty());
            assert(c =~= seq![0u8]);
        } else {
            assert(m[0] == c[1]);
            assert(seq![0u8] + m =~= c);
        }
    }
}

/// Converting an ES256 signature to its JWS form and back to DER gives the
/// original octets: each 32-octet component, stripped of its padding and given
/// a sign octet where its high bit is set, is the original INTEGER.
pub proof fn lemma_es256_round_trip(r: Seq<u8>, s: Seq<u8>)
    requires
        fits_p256(r),
        fits_p256(s),
    ensures
        es256_raw(r, s).len() == 64,
        der_of_raw(es256_raw(r, s)) == der_signature(r, s),
{
    lemma_component_round_trip(r);
    lemma_component_round_trip(s);
    let raw = es256_raw(r, s);
    assert(raw.subrange(0, 32) =~= left_pad(magnitude(r), 32));
    assert(raw.subrange(32, 64) =~= left_pad(magnitude(s), 32));
}

proof fn lemma_zeros_value(k: nat)
    ensures
        be_value(Seq::new(k, |i: int| 0u8)) == 0,
    decreases k,
{
    if k > 0 {
        assert(Seq::new(k, |i: int| 0u8).drop_last() =~= Seq::new((k - 1) as nat, |i: int| 0u8));
        lemma_zeros_value((k - 1) as nat);
    }
}

/// Left-padding with zero octets keeps the value of a big-endian number.
pub proof fn lemma_left_pad_value(m: Seq<u8>, n: nat)
    requires
        m.len() <= n,
    ensures
        be_value(left_pad(m, n)) == be_value(m),
    decreases m.len(),
{
    let z = Seq::new((n - m.len()) as nat, |i: int| 0u8);
    if m.len() == 0 {
        assert(left_pad(m, n) =~= z);
        lemma_zeros_value((n - m.len()) as nat);
    } else {
        assert(left_pad(m, n).drop_last() =~= z + m.drop_last());
        assert(z + m.drop_last() =~= left_pad(m.drop_last(), (n - 1) as nat));
        assert(left_pad(m, n).last() == m.last());
        lemma_left_pad_value(m.drop_last(), (n - 1) as nat);
    }
}

/// Dropping the sign octet keeps the value of a DER integer.
pub proof fn lemma_magnitude_value(c: Seq<u8>)
    ensures
        be_value(magnitude(c)) == be_value(c),
    decreases c.len(),
{
    if c.len() > 0 && c[0] == 0 {
        lemma_leading_zero_value(c);
    }
}

proof fn lemma_leading_zero_value(c: Seq<u8>)
    requires
        c.len() > 0,
        c[0] == 0,
    ensures
        be_value(c.drop_first()) == be_value(c),
    decreases c.len(),
{
    if c.len() > 1 {
        assert(c.drop_last().drop_first() =~= c.drop_first().drop_last());
        assert(c.drop_first().last() == c.last());
        lemma_leading_zero_value(c.drop_last());
    } else {
        assert(c.drop_last() =~= Seq::<u8>::empty());
        assert(c.drop_first() =~= Seq::<u8>::empty());
        assert(be_value(c) == be_value(c.drop_last()) * 256 + c.last());
    }
}

/// Each 32-octet half of the JWS form of an ES256 signature has the value of the
/// corresponding DER integer.
pub proof fn lemma_es256_values(r: Seq<u8>, s: Seq<u8>)
    requires
        fits_p256(r),
        fits_p256(s),
    ensures
        be_value(es256_raw(r, s).subrange(0, 32)) == be_value(r),
        be_value(es256_raw(r, s).subrange(32, 64)) == be_value(s),
{
    let raw = es256_raw(r, s);
    assert(raw.subrange(0, 32) =~= left_pad(magnitude(r), 32));
    assert(raw.subrange(32, 64) =~= left_pad(magnitude(s), 32));
    lemma_left_pad_value(magnitude(r), 32);
    lemma_left_pad_value(magnitude(s), 32);
    lemma_magnitude_value(r);
    lemma_magnitude_value(s);
}

/// A DER signature determines its two integers, so the JWS form that
/// `es256_raw_from_der` returns for it is unique.
pub proof fn lemma_der_signature_injective(a: Seq<u8>, b: Seq<u8>, c: Seq<u8>, d: Seq<u8>)
    requires
        fits_p256(a),
        fits_p256(b),
        fits_p256(c),
        fits_p256(d),
        der_signature(a, b) == der_signature(c, d),
    ensures
        a == c,
        b == d,
        es256_raw(a, b) == es256_raw(c, d),
{
    let x = der_signature(a, b);
    let y = der_signature(c, d);
    assert(x[3] == a.len() && y[3] == c.len());
    assert(a =~= x.subrange(4, 4 + a.len() as int));
    assert(c =~= y.subrange(4, 4 + c.len() as int));
    let k = 4 + a.len() as int;
    assert(x[k + 1] == b.len() && y[k + 1] == d.len());
    assert(b =~= x.subrange(k + 2, k + 2 + b.len() as int));
    assert(d =~= y.subrange(k + 2, k + 2 + d.len() as int));
}

} // verus!
