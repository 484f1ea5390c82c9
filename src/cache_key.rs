//! Content-addressed cache keys: the hex SHA-256 of the URL, the vary headers
//! and the mode, joined by newlines.
use vstd::prelude::*;
use vstd::utf8::{encode_utf8, encode_utf8_decode_utf8};
use sha2::Digest;

verus! {

/// What `sha2::Sha256::digest` returns for a byte sequence.
pub uninterp spec fn sha256_of(data: Seq<u8>) -> Seq<u8>;

/// Relies on `sha2::Sha256::digest`: a 32-byte digest of the input.
#[verifier::external_body]
pub(crate) fn sha256(data: &[u8]) -> (r: Vec<u8>)
    ensures
        r@ == sha256_of(data@),
        r@.len() == 32,
{
    sha2::Sha256::digest(data).to_vec()
}

/// The lowercase hex digit of a value below 16.
pub open spec fn hex_digit(d: int) -> char {
    "0123456789abcdef"@[d]
}

/// Lowercase hex notation, two digits per byte, high nibble first.
pub open spec fn hex_of(b: Seq<u8>) -> Seq<char> {
    Seq::new(
        2 * b.len(),
        |i: int|
            if i % 2 == 0 {
                hex_digit(b[i / 2] as int / 16)
            } else {
                hex_digit(b[i / 2] as int % 16)
            },
    )
}

/// Whether a character is a lowercase hex digit.
pub open spec fn is_hex_char(c: char) -> bool {
    ('0' <= c && c <= '9') || ('a' <= c && c <= 'f')
}

/// The bytes that a cache key digests.
pub open spec fn key_material(url: Seq<char>, vary: Seq<char>, mode: Seq<char>) -> Seq<u8> {
    encode_utf8(url) + seq![10u8] + encode_utf8(vary) + seq![10u8] + encode_utf8(mode)
}

/// The cache key of a (url, vary headers, mode) triple.
pub open spec fn cache_key_of(url: Seq<char>, vary: Seq<char>, mode: Seq<char>) -> Seq<char> {
    hex_of(sha256_of(key_material(url, vary, mode)))
}

/// Lowercase hex notation of a byte sequence.
pub fn hex_encode(b: &[u8]) -> (r: String)
    ensures
        r@ == hex_of(b@),
{
    let digits = "0123456789abcdef";
    proof {
        reveal_strlit("0123456789abcdef");
    }
    let mut out = String::new();
    let mut i: usize = 0;
    while i < b.len()
        invariant
            i <= b@.len(),
            digits@ == "0123456789abcdef"@,
            digits@.len() == 16,
            out@ == hex_of(b@.subrange(0, i as int)),
        decreases b@.len() - i,
    {
        let hi = (b[i] / 16) as usize;
        let lo = (b[i] % 16) as usize;
        let ghost before = out@;
        out.append(digits.substring_char(hi, hi + 1));
        out.append(digits.substring_char(lo, lo + 1));
        assert(out@ =~= hex_of(b@.subrange(0, i + 1))) by {
            let s = b@.subrange(0, i + 1);
            assert(b@.subrange(0, i as int) =~= s.subrange(0, i as int));
            assert forall|k: int| 0 <= k < 2 * i implies hex_of(s)[k] == before[k] by {
                assert(s[k / 2] == b@.subrange(0, i as int)[k / 2]);
            }
        }
        i = i + 1;
    }
    assert(b@.subrange(0, b@.len() as int) =~= b@);
    out
}

/// Appends the bytes of `s` to `v`.
fn push_all(v: &mut Vec<u8>, s: &[u8])
    ensures
        final(v)@ == old(v)@ + s@,
{
    let mut i: usize = 0;
    while i < s.len()
        invariant
            i <= s@.len(),
            v@ == old(v)@ + s@.subrange(0, i as int),
        decreases s@.len() - i,
    {
        v.push(s[i]);
        assert(s@.subrange(0, i + 1) =~= s@.subrange(0, i as int).push(s@[i as int]));
        i = i + 1;
    }
    assert(s@.subrange(0, s@.len() as int) =~= s@);
}

/// The content-addressed key of a document snapshot: the lowercase hex
/// SHA-256 of `url`, a newline, `vary_headers`, a newline and `mode`.
pub fn compute_cache_key(url: &str, vary_headers: &str, mode: &str) -> (r: String)
    ensures
        r@ == cache_key_of(url@, vary_headers@, mode@),
        r@.len() == 64,
        forall|i: int| 0 <= i < r@.len() ==> is_hex_char(#[trigger] r@[i]),
{
    let mut data: Vec<u8> = Vec::new();
    push_all(&mut data, url.as_bytes());
    data.push(10u8);
    push_all(&mut data, vary_headers.as_bytes());
    data.push(10u8);
    push_all(&mut data, mode.as_bytes());
    assert(data@ =~= key_material(url@, vary_headers@, mode@));
    let digest = sha256(data.as_slice());
    let r = hex_encode(digest.as_slice());
    proof {
        reveal_strlit("0123456789abcdef");
        assert forall|i: int| 0 <= i < r@.len() implies is_hex_char(#[trigger] r@[i]) by {
            let d = if i % 2 == 0 {
                digest@[i / 2] as int / 16
            } else {
                digest@[i / 2] as int % 16
            };
            assert(0 <= d < 16);
            assert(r@[i] == "0123456789abcdef"@[d]);
        }
    }
    r
}

/// Keys are deterministic, 64 lowercase hex digits, and the bytes they digest
/// differ whenever exactly one of url, vary headers and mode differs.
pub proof fn cache_key_distinguishes_inputs(
    url1: Seq<char>,
    url2: Seq<char>,
    vary1: Seq<char>,
    vary2: Seq<char>,
    mode1: Seq<char>,
    mode2: Seq<char>,
)
    requires
        (url1 != url2 && vary1 == vary2 && mode1 == mode2) || (url1 == url2 && vary1 != vary2
            && mode1 == mode2) || (url1 == url2 && vary1 == vary2 && mode1 != mode2),
    ensures
        key_material(url1, vary1, mode1) != key_material(url2, vary2, mode2),
        cache_key_of(url1, vary1, mode1) == cache_key_of(url1, vary1, mode1),
{
    let a = key_material(url1, vary1, mode1);
    let b = key_material(url2, vary2, mode2);
    let (u1, u2) = (encode_utf8(url1), encode_utf8(url2));
    let (v1, v2) = (encode_utf8(vary1), encode_utf8(vary2));
    let (m1, m2) = (encode_utf8(mode1), encode_utf8(mode2));
    encode_utf8_decode_utf8(url1);
    encode_utf8_decode_utf8(url2);
    encode_utf8_decode_utf8(vary1);
    encode_utf8_decode_utf8(vary2);
    encode_utf8_decode_utf8(mode1);
    encode_utf8_decode_utf8(mode2);
    if a == b {
        if url1 != url2 {
            // same tail, so the heads must agree
            assert(u1 != u2);
            let tail = seq![10u8] + v1 + seq![10u8] + m1;
            assert(a =~= u1 + tail);
            assert(b =~= u2 + tail);
            assert(u1.len() == u2.len());
            assert(u1 =~= a.subrange(0, u1.len() as int));
            assert(u2 =~= b.subrange(0, u2.len() as int));
        } else if vary1 != vary2 {
            assert(v1 != v2);
            let head = u1 + seq![10u8];
            let tail = seq![10u8] + m1;
            assert(a =~= head + v1 + tail);
            assert(b =~= head + v2 + tail);
            assert(v1.len() == v2.len());
            assert(v1 =~= a.subrange(head.len() as int, (head.len() + v1.len()) as int));
            assert(v2 =~= b.subrange(head.len() as int, (head.len() + v2.len()) as int));
        } else {
            assert(m1 != m2);
            let head = u1 + seq![10u8] + v1 + seq![10u8];
            assert(a =~= head + m1);
            assert(b =~= head + m2);
            assert(m1 =~= a.subrange(head.len() as int, a.len() as int));
            assert(m2 =~= b.subrange(head.len() as int, b.len() as int));
        }
    }
}

} // verus!
