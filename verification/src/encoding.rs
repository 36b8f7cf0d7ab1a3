//! Hexadecimal and Base64 text encodings of byte strings.
//!
//! The encodings are stated here; `hex` and `base64` produce and read them.

use vstd::prelude::*;

verus! {

/// The lowercase hexadecimal digit for a value below sixteen.
pub open spec fn hex_digit(v: nat) -> char {
    if v < 10 { (48 + v) as char } else { (87 + v) as char }
}

/// The lowercase hexadecimal encoding: two digits per byte, high nibble first.
pub open spec fn hex_encoded(d: Seq<u8>) -> Seq<char>
    decreases d.len(),
{
    if d.len() == 0 {
        Seq::empty()
    } else {
        seq![hex_digit(d[0] as nat / 16), hex_digit(d[0] as nat % 16)] + hex_encoded(d.drop_first())
    }
}

/// The value of a hexadecimal digit of either case.
pub open spec fn hex_value(c: char) -> Option<nat> {
    if '0' <= c && c <= '9' {
        Some((c as nat - 48) as nat)
    } else if 'a' <= c && c <= 'f' {
        Some((c as nat - 87) as nat)
    } else if 'A' <= c && c <= 'F' {
        Some((c as nat - 55) as nat)
    } else {
        None
    }
}

/// Decodes consecutive digit pairs, each pair one byte.
pub open spec fn hex_pairs(s: Seq<char>) -> Option<Seq<u8>>
    decreases s.len(),
{
    if s.len() < 2 {
        if s.len() == 0 { Some(Seq::empty()) } else { None }
    } else {
        match (hex_value(s[0]), hex_value(s[1]), hex_pairs(s.subrange(2, s.len() as int))) {
            (Some(hi), Some(lo), Some(rest)) => Some(seq![(16 * hi + lo) as u8] + rest),
            _ => None,
        }
    }
}

/// The bytes a hexadecimal text stands for: `None` unless its length is even
/// and every character is a hexadecimal digit (either case).
pub open spec fn hex_decoded(s: Seq<char>) -> Option<Seq<u8>> {
    if s.len() % 2 != 0 { None } else { hex_pairs(s) }
}

/// Decoding the hexadecimal encoding of bytes gives the bytes back.
pub proof fn lemma_hex_roundtrip(d: Seq<u8>)
    ensures
        hex_encoded(d).len() == 2 * d.len(),
        hex_decoded(hex_encoded(d)) == Some(d),
    decreases d.len(),
{
    if d.len() > 0 {
        let rest = d.drop_first();
        lemma_hex_roundtrip(rest);
        let e = hex_encoded(d);
        let hi = d[0] as nat / 16;
        let lo = d[0] as nat % 16;
        assert(e.subrange(2, e.len() as int) =~= hex_encoded(rest));
        assert(hex_value(hex_digit(hi)) == Some(hi));
        assert(hex_value(hex_digit(lo)) == Some(lo));
        assert(16 * hi + lo == d[0]);
        assert(hex_pairs(e) == Some(seq![d[0]] + rest));
        assert(seq![d[0]] + rest =~= d);
    } else {
        assert(hex_encoded(d) =~= Seq::<char>::empty());
    }
}

/// The Base64 symbol for a value below 64 (standard alphabet).
pub open spec fn b64_symbol(v: nat) -> char {
    if v < 26 {
        (65 + v) as char
    } else if v < 52 {
        (71 + v) as char
    } else if v < 62 {
        (v - 4) as char
    } else if v == 62 {
        '+'
    } else {
        '/'
    }
}

/// Standard Base64 with padding (RFC 4648, section 4): each group of three
/// bytes becomes four symbols; a final group of one or two bytes is padded
/// with `=`.
pub open spec fn base64_encoded(d: Seq<u8>) -> Seq<char>
    decreases d.len(),
{
    if d.len() == 0 {
        Seq::empty()
    } else if d.len() == 1 {
        seq![b64_symbol(d[0] as nat / 4), b64_symbol((d[0] as nat % 4) * 16), '=', '=']
    } else if d.len() == 2 {
        seq![
            b64_symbol(d[0] as nat / 4),
            b64_symbol((d[0] as nat % 4) * 16 + d[1] as nat / 16),
            b64_symbol((d[1] as nat % 16) * 4),
            '=',
        ]
    } else {
        seq![
            b64_symbol(d[0] as nat / 4),
            b64_symbol((d[0] as nat % 4) * 16 + d[1] as nat / 16),
            b64_symbol((d[1] as nat % 16) * 4 + d[2] as nat / 64),
            b64_symbol(d[2] as nat % 64),
        ] + base64_encoded(d.subrange(3, d.len() as int))
    }
}

/// The bytes a Base64 text stands for: the bytes whose canonical encoding it
/// is, if there are any (there is at most one such byte string).
pub open spec fn base64_decoded(s: Seq<char>) -> Option<Seq<u8>> {
    if exists|d: Seq<u8>| base64_encoded(d) == s {
        Some(choose|d: Seq<u8>| base64_encoded(d) == s)
    } else {
        None
    }
}

proof fn lemma_b64_symbol_injective(v: nat, w: nat)
    requires
        v < 64,
        w < 64,
        b64_symbol(v) == b64_symbol(w),
    ensures
        v == w,
{
}

proof fn lemma_b64_symbol_not_pad(v: nat)
    requires
        v < 64,
    ensures
        b64_symbol(v) != '=',
{
}

proof fn lemma_base64_len(d: Seq<u8>)
    ensures
        base64_encoded(d).len() == 4 * ((d.len() + 2) / 3),
    decreases d.len(),
{
    if d.len() >= 3 {
        lemma_base64_len(d.subrange(3, d.len() as int));
    }
}

/// The first group of four symbols of a nonempty encoding.
proof fn lemma_base64_head(d: Seq<u8>)
    requires
        d.len() > 0,
    ensures
        base64_encoded(d).len() >= 4,
        base64_encoded(d)[0] == b64_symbol(d[0] as nat / 4),
        d.len() == 1 ==> base64_encoded(d)[1] == b64_symbol((d[0] as nat % 4) * 16)
            && base64_encoded(d)[2] == '=' && base64_encoded(d)[3] == '=',
        d.len() >= 2 ==> base64_encoded(d)[1] == b64_symbol(
            (d[0] as nat % 4) * 16 + d[1] as nat / 16,
        ),
        d.len() == 2 ==> base64_encoded(d)[2] == b64_symbol((d[1] as nat % 16) * 4)
            && base64_encoded(d)[3] == '=',
        d.len() >= 3 ==> base64_encoded(d)[2] == b64_symbol(
            (d[1] as nat % 16) * 4 + d[2] as nat / 64,
        ) && base64_encoded(d)[3] == b64_symbol(d[2] as nat % 64),
        d.len() >= 3 ==> base64_encoded(d).subrange(4, base64_encoded(d).len() as int)
            == base64_encoded(d.subrange(3, d.len() as int)),
{
    lemma_base64_len(d);
    if d.len() >= 3 {
        let e = base64_encoded(d);
        assert(e.subrange(4, e.len() as int) =~= base64_encoded(d.subrange(3, d.len() as int)));
    }
}

/// Two byte strings with the same Base64 encoding are equal.
pub proof fn lemma_base64_injective(a: Seq<u8>, b: Seq<u8>)
    requires
        base64_encoded(a) == base64_encoded(b),
    ensures
        a == b,
    decreases a.len(),
{
    lemma_base64_len(a);
    lemma_base64_len(b);
    if a.len() == 0 {
        assert(b.len() == 0);
        assert(a =~= b);
    } else {
        assert(b.len() > 0);
        lemma_base64_head(a);
        lemma_base64_head(b);
        lemma_b64_symbol_injective(a[0] as nat / 4, b[0] as nat / 4);
        if a.len() >= 2 {
            lemma_b64_symbol_not_pad((a[0] as nat % 4) * 16 + a[1] as nat / 16);
        }
        if b.len() >= 2 {
            lemma_b64_symbol_not_pad((b[0] as nat % 4) * 16 + b[1] as nat / 16);
        }
        if a.len() >= 3 {
            lemma_b64_symbol_not_pad((a[1] as nat % 16) * 4 + a[2] as nat / 64);
            lemma_b64_symbol_not_pad(a[2] as nat % 64);
        }
        if b.len() >= 3 {
            lemma_b64_symbol_not_pad((b[1] as nat % 16) * 4 + b[2] as nat / 64);
            lemma_b64_symbol_not_pad(b[2] as nat % 64);
        }
        if a.len() == 2 {
            lemma_b64_symbol_not_pad((a[1] as nat % 16) * 4);
        }
        if b.len() == 2 {
            lemma_b64_symbol_not_pad((b[1] as nat % 16) * 4);
        }
        if a.len() == 1 {
            assert(b.len() == 1);
            lemma_b64_symbol_injective((a[0] as nat % 4) * 16, (b[0] as nat % 4) * 16);
            assert(a[0] == b[0]);
            assert(a =~= b);
        } else if a.len() == 2 {
            assert(b.len() == 2);
            lemma_b64_symbol_injective(
                (a[0] as nat % 4) * 16 + a[1] as nat / 16,
                (b[0] as nat % 4) * 16 + b[1] as nat / 16,
            );
            lemma_b64_symbol_injective((a[1] as nat % 16) * 4, (b[1] as nat % 16) * 4);
            assert(a[0] == b[0]);
            assert(a[1] == b[1]);
            assert(a =~= b);
        } else {
            assert(b.len() >= 3);
            lemma_b64_symbol_injective(
                (a[0] as nat % 4) * 16 + a[1] as nat / 16,
                (b[0] as nat % 4) * 16 + b[1] as nat / 16,
            );
            lemma_b64_symbol_injective(
                (a[1] as nat % 16) * 4 + a[2] as nat / 64,
                (b[1] as nat % 16) * 4 + b[2] as nat / 64,
            );
            lemma_b64_symbol_injective(a[2] as nat % 64, b[2] as nat % 64);
            assert(a[0] == b[0]);
            assert(a[1] == b[1]);
            assert(a[2] == b[2]);
            let ra = a.subrange(3, a.len() as int);
            let rb = b.subrange(3, b.len() as int);
            lemma_base64_injective(ra, rb);
            assert(a =~= seq![a[0], a[1], a[2]] + ra);
            assert(b =~= seq![b[0], b[1], b[2]] + rb);
        }
    }
}

/// Decoding the Base64 encoding of bytes gives the bytes back.
pub proof fn lemma_base64_roundtrip(d: Seq<u8>)
    ensures
        base64_decoded(base64_encoded(d)) == Some(d),
{
    let s = base64_encoded(d);
    assert(exists|x: Seq<u8>| base64_encoded(x) == s);
    let c = choose|x: Seq<u8>| base64_encoded(x) == s;
    lemma_base64_injective(c, d);
}

/// Lowercase hexadecimal encoding (`hex::encode`).
#[verifier::external_body]
pub(crate) fn hex_encode_of(data: &[u8]) -> (s: String)
    ensures
        s@ == hex_encoded(data@),
{
    hex::encode(data)
}

/// Hexadecimal decoding (`hex::decode`): succeeds exactly on texts of even
/// length made of hexadecimal digits of either case; on failure, the text
/// of the crate's error.
#[verifier::external_body]
pub(crate) fn hex_decode_of(s: &str) -> (r: Result<Vec<u8>, String>)
    ensures
        match r {
            Ok(v) => hex_decoded(s@) == Some(v@),
            Err(_) => hex_decoded(s@) is None,
        },
{
    match hex::decode(s) {
        Ok(v) => Ok(v),
        Err(e) => Err(e.to_string()),
    }
}

/// Standard padded Base64 encoding (`base64::encode`).
#[verifier::external_body]
#[allow(deprecated)]
pub(crate) fn base64_encode_of(data: &[u8]) -> (s: String)
    ensures
        s@ == base64_encoded(data@),
{
    base64::encode(data)
}

/// Standard padded Base64 decoding (`base64::decode`, whose engine requires
/// canonical padding and zero trailing bits): succeeds exactly on canonical
/// encodings; on failure, the text of the crate's error.
#[verifier::external_body]
#[allow(deprecated)]
pub(crate) fn base64_decode_of(s: &str) -> (r: Result<Vec<u8>, String>)
    ensures
        match r {
            Ok(v) => base64_decoded(s@) == Some(v@),
            Err(_) => base64_decoded(s@) is None,
        },
{
    match base64::decode(s) {
        Ok(v) => Ok(v),
        Err(e) => Err(e.to_string()),
    }
}

} // verus!
