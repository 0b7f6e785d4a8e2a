//! Digests, message authentication codes and the text encodings that carry
//! them.

use hmac::{Hmac, Mac, NewMac};
use md5::{Digest, Md5};
use sha2::Sha256;
use vstd::prelude::*;
use vstd::utf8::*;

verus! {

/// HMAC-SHA256 of `data` under `key`.
pub uninterp spec fn hmac_sha256(key: Seq<u8>, data: Seq<u8>) -> Seq<u8>;

/// The SHA-256 digest of `content`.
pub uninterp spec fn sha256_digest(content: Seq<u8>) -> Seq<u8>;

/// The MD5 digest of `content`.
pub uninterp spec fn md5_digest(content: Seq<u8>) -> Seq<u8>;

/// The signature of `string_to_sign` under `signing_key`: the HMAC-SHA256 code
/// of their UTF-8 bytes in hexadecimal.
pub open spec fn signature_text(string_to_sign: Seq<char>, signing_key: Seq<char>) -> Seq<char> {
    hex_text(hmac_sha256(encode_utf8(signing_key), encode_utf8(string_to_sign)))
}

/// The MD5 digest of `content` in base64.
pub open spec fn md5_text(content: Seq<u8>) -> Seq<char> {
    base64_text(md5_digest(content))
}

/// The lower-case hexadecimal digit for `d`.
pub open spec fn hex_digit(d: int) -> char
    recommends
        0 <= d < 16,
{
    if d < 10 {
        (48 + d) as char
    } else {
        (87 + d) as char
    }
}

/// Whether `c` is a lower-case hexadecimal digit.
pub open spec fn is_hex_digit(c: char) -> bool {
    '0' <= c <= '9' || 'a' <= c <= 'f'
}

/// Two lower-case hexadecimal digits for each byte, high nibble first.
pub open spec fn hex_text(bytes: Seq<u8>) -> Seq<char> {
    Seq::new(
        2 * bytes.len(),
        |i: int|
            if i % 2 == 0 {
                hex_digit(bytes[i / 2] as int / 16)
            } else {
                hex_digit(bytes[i / 2] as int % 16)
            },
    )
}

/// The digit for the six-bit value `d` in the standard base64 alphabet.
pub open spec fn base64_digit(d: int) -> char
    recommends
        0 <= d < 64,
{
    if d < 26 {
        (65 + d) as char
    } else if d < 52 {
        (71 + d) as char
    } else if d < 62 {
        (d - 4) as char
    } else if d == 62 {
        '+'
    } else {
        '/'
    }
}

/// The byte at `i`, and zero past the end.
pub open spec fn byte_or_zero(bytes: Seq<u8>, i: int) -> int {
    if 0 <= i < bytes.len() {
        bytes[i] as int
    } else {
        0
    }
}

/// The three bytes that the digit at `i` of a base64 text is taken from, as
/// one number.
pub open spec fn base64_group(bytes: Seq<u8>, i: int) -> int {
    let start = i / 4 * 3;
    byte_or_zero(bytes, start) * 65536 + byte_or_zero(bytes, start + 1) * 256 + byte_or_zero(
        bytes,
        start + 2,
    )
}

/// Standard base64 with padding: each group of three bytes, read as one
/// number in big-endian order, is written as four base-64 digits. A last
/// group of one or two bytes is filled up with zeros, and its digits that
/// hold only filling are written as `=`.
pub open spec fn base64_text(bytes: Seq<u8>) -> Seq<char> {
    Seq::new(
        ((bytes.len() + 2) / 3 * 4) as nat,
        |i: int|
            {
                let start = i / 4 * 3;
                let group = base64_group(bytes, i);
                if i % 4 == 0 {
                    base64_digit(group / 262144)
                } else if i % 4 == 1 {
                    base64_digit(group / 4096 % 64)
                } else if i % 4 == 2 {
                    if start + 1 < bytes.len() {
                        base64_digit(group / 64 % 64)
                    } else {
                        '='
                    }
                } else if start + 2 < bytes.len() {
                    base64_digit(group % 64)
                } else {
                    '='
                }
            },
    )
}

/// Whether percent-encoding leaves the byte `b` as it is: an ASCII letter or
/// digit, or one of `-`, `.`, `_` and `~`.
pub open spec fn is_unreserved(b: u8) -> bool {
    ||| 48 <= b <= 57
    ||| 65 <= b <= 90
    ||| 97 <= b <= 122
    ||| b == 45
    ||| b == 46
    ||| b == 95
    ||| b == 126
}

/// The upper-case hexadecimal digit for `d`.
pub open spec fn upper_hex_digit(d: int) -> char
    recommends
        0 <= d < 16,
{
    if d < 10 {
        (48 + d) as char
    } else {
        (55 + d) as char
    }
}

/// What percent-encoding writes for the byte `b`.
pub open spec fn percent_encoded_byte(b: u8) -> Seq<char> {
    if is_unreserved(b) {
        seq![b as char]
    } else {
        seq!['%', upper_hex_digit(b as int / 16), upper_hex_digit(b as int % 16)]
    }
}

/// The percent-encoding of `bytes`: what is written for each of them, in
/// order.
pub open spec fn percent_encoded(bytes: Seq<u8>) -> Seq<char>
    decreases bytes.len(),
{
    if bytes.len() == 0 {
        Seq::empty()
    } else {
        percent_encoded(bytes.drop_last()) + percent_encoded_byte(bytes.last())
    }
}

/// Calls `Hmac::<Sha256>::new_varkey`, `update` and `finalize` of the `hmac`
/// crate over the `sha2` crate. Keys of every length are accepted. The code
/// is a function of the key and the data, and has the 32 bytes of a SHA-256
/// digest. A key that is shorter than the 64 bytes of a block is filled up
/// with zeros, so that one zero more makes no difference. A key that is longer
/// than a block counts as its digest by `Sha256`, which is a function of the
/// key.
#[verifier::external_body]
fn hmac(key: &[u8], data: &[u8]) -> (code: Vec<u8>)
    ensures
        code@ == hmac_sha256(key@, data@),
        code@.len() == 32,
        key@.len() < 64 ==> code@ == hmac_sha256(key@.push(0), data@),
        key@.len() > 64 ==> code@ == hmac_sha256(sha256_digest(key@), data@),
{
    let mut hmac256 = Hmac::<Sha256>::new_varkey(key).expect("HMAC can take key of any size");
    hmac256.update(data);
    hmac256.finalize().into_bytes().to_vec()
}

/// Calls `Md5::new`, `update` and `finalize` of the `md-5` crate. The digest
/// is a function of the content, and has 16 bytes.
#[verifier::external_body]
fn compute_md5(content: &[u8]) -> (digest: Vec<u8>)
    ensures
        digest@ == md5_digest(content@),
        digest@.len() == 16,
{
    let mut hasher = Md5::new();
    hasher.update(content);
    hasher.finalize().to_vec()
}

/// Calls `base64::encode`, which writes the standard alphabet with padding.
/// It panics where the size of the text overflows, which the bound on the
/// length leaves out.
#[verifier::external_body]
fn encode_base64(bytes: &[u8]) -> (text: String)
    requires
        (bytes@.len() + 2) / 3 * 4 <= isize::MAX,
    ensures
        text@ == base64_text(bytes@),
{
    base64::encode(bytes)
}

/// Calls `base16::encode_lower`, which writes two lower-case digits for each
/// byte. It panics where the size of the text overflows, which the bound on
/// the length leaves out.
#[verifier::external_body]
fn encode_base16(bytes: &[u8]) -> (text: String)
    requires
        2 * bytes@.len() <= isize::MAX,
    ensures
        text@ == hex_text(bytes@),
{
    base16::encode_lower(bytes)
}

/// Calls `urlencoding::encode`, which percent-encodes the UTF-8 bytes of the
/// text, all but the unreserved ones.
#[verifier::external_body]
pub(crate) fn percent_encode(text: &str) -> (encoded: String)
    ensures
        encoded@ == percent_encoded(encode_utf8(text@)),
{
    urlencoding::encode(text)
}

/// Writes an authentication code in hexadecimal.
pub fn signature_of_code(code: &[u8]) -> (text: String)
    requires
        2 * code@.len() <= isize::MAX,
    ensures
        text@ == hex_text(code@),
{
    encode_base16(code)
}

/// Signs `string_to_sign` with `signing_key`: the HMAC-SHA256 code of the one
/// under the other, in hexadecimal. A short key signs as it does with a zero
/// byte behind it, and a long one as its SHA-256 digest does.
pub fn signature(string_to_sign: &str, signing_key: &str) -> (text: String)
    ensures
        text@ == signature_text(string_to_sign@, signing_key@),
        encode_utf8(signing_key@).len() < 64 ==> text@ == hex_text(
            hmac_sha256(encode_utf8(signing_key@).push(0), encode_utf8(string_to_sign@)),
        ),
        encode_utf8(signing_key@).len() > 64 ==> text@ == hex_text(
            hmac_sha256(
                sha256_digest(encode_utf8(signing_key@)),
                encode_utf8(string_to_sign@),
            ),
        ),
        text@.len() == 64,
        forall|i: int| 0 <= i < 64 ==> is_hex_digit(#[trigger] text@[i]),
{
    let code = hmac(signing_key.as_bytes(), string_to_sign.as_bytes());
    signature_of_code(code.as_slice())
}

/// Writes a digest in base64.
pub fn md5_text_of_digest(digest: &[u8]) -> (text: String)
    requires
        (digest@.len() + 2) / 3 * 4 <= isize::MAX,
    ensures
        text@ == base64_text(digest@),
{
    encode_base64(digest)
}

/// The MD5 digest of `content`, in base64: the form in which the object store
/// keeps and compares it.
pub fn md5_hash(content: &[u8]) -> (text: String)
    ensures
        text@ == md5_text(content@),
        text@.len() == 24,
        text@.subrange(22, 24) == seq!['=', '='],
{
    let digest = compute_md5(content);
    md5_text_of_digest(digest.as_slice())
}

/// Distinct six-bit values have distinct digits, and none of them is the
/// padding.
proof fn lemma_base64_digit_distinct(a: int, b: int)
    requires
        0 <= a < 64,
        0 <= b < 64,
    ensures
        base64_digit(a) == base64_digit(b) ==> a == b,
        base64_digit(a) != '=',
{
}

/// A 24-bit number is made up of its four base-64 digits.
proof fn lemma_base64_digits_of(x: int)
    requires
        0 <= x < 16777216,
    ensures
        x == x / 262144 * 262144 + x / 4096 % 64 * 4096 + x / 64 % 64 * 64 + x % 64,
        0 <= x / 262144 < 64,
{
    assert(x / 64 == x / 4096 * 64 + x / 64 % 64);
    assert(x / 4096 == x / 262144 * 64 + x / 4096 % 64);
}

/// Three bytes are the same where the digits are that depend on them.
proof fn lemma_base64_group(a: (int, int, int), b: (int, int, int), bytes: int)
    requires
        0 <= a.0 < 256 && 0 <= a.1 < 256 && 0 <= a.2 < 256,
        0 <= b.0 < 256 && 0 <= b.1 < 256 && 0 <= b.2 < 256,
        bytes < 2 ==> a.1 == 0 && b.1 == 0,
        bytes < 3 ==> a.2 == 0 && b.2 == 0,
        ({
            let x = a.0 * 65536 + a.1 * 256 + a.2;
            let y = b.0 * 65536 + b.1 * 256 + b.2;
            &&& base64_digit(x / 262144) == base64_digit(y / 262144)
            &&& base64_digit(x / 4096 % 64) == base64_digit(y / 4096 % 64)
            &&& bytes >= 2 ==> base64_digit(x / 64 % 64) == base64_digit(y / 64 % 64)
            &&& bytes >= 3 ==> base64_digit(x % 64) == base64_digit(y % 64)
        }),
    ensures
        a == b,
{
    let x = a.0 * 65536 + a.1 * 256 + a.2;
    let y = b.0 * 65536 + b.1 * 256 + b.2;
    lemma_base64_digits_of(x);
    lemma_base64_digits_of(y);
    lemma_base64_digit_distinct(x / 262144, y / 262144);
    lemma_base64_digit_distinct(x / 4096 % 64, y / 4096 % 64);
    lemma_base64_digit_distinct(x / 64 % 64, y / 64 % 64);
    lemma_base64_digit_distinct(x % 64, y % 64);
    if bytes < 3 {
        assert(x % 64 == 0);
        assert(y % 64 == 0);
    }
    if bytes < 2 {
        assert(x / 64 % 64 == 0);
        assert(y / 64 % 64 == 0);
    }
    assert(x == y);
}

/// The four digits of a group.
proof fn lemma_base64_of_group(bytes: Seq<u8>, first: int)
    requires
        first % 4 == 0,
        0 <= first,
        first + 3 < base64_text(bytes).len(),
    ensures
        ({
            let start = first / 4 * 3;
            let group = base64_group(bytes, first);
            let text = base64_text(bytes);
            &&& text[first] == base64_digit(group / 262144)
            &&& text[first + 1] == base64_digit(group / 4096 % 64)
            &&& text[first + 2] == if start + 1 < bytes.len() {
                base64_digit(group / 64 % 64)
            } else {
                '='
            }
            &&& text[first + 3] == if start + 2 < bytes.len() {
                base64_digit(group % 64)
            } else {
                '='
            }
        }),
{
    assert((first + 1) / 4 == first / 4);
    assert((first + 2) / 4 == first / 4);
    assert((first + 3) / 4 == first / 4);
    assert(base64_group(bytes, first + 1) == base64_group(bytes, first));
    assert(base64_group(bytes, first + 2) == base64_group(bytes, first));
    assert(base64_group(bytes, first + 3) == base64_group(bytes, first));
}

/// The padding tells how many bytes a base64 text was written from.
proof fn lemma_base64_same_length(a: Seq<u8>, b: Seq<u8>)
    requires
        base64_text(a) == base64_text(b),
    ensures
        a.len() == b.len(),
{
    assert(base64_text(a).len() == (a.len() + 2) / 3 * 4);
    assert(base64_text(b).len() == (b.len() + 2) / 3 * 4);
    assert((a.len() + 2) / 3 == (b.len() + 2) / 3);
    if a.len() > 0 {
        let first = (a.len() + 2) / 3 * 4 - 4;
        assert(first / 4 * 3 == (a.len() + 2) / 3 * 3 - 3);
        lemma_base64_of_group(a, first);
        lemma_base64_of_group(b, first);
        let x = base64_group(a, first);
        let y = base64_group(b, first);
        lemma_base64_digit_distinct(x / 64 % 64, x % 64);
        lemma_base64_digit_distinct(y / 64 % 64, y % 64);
        lemma_base64_digit_distinct(x % 64, y % 64);
    }
}

/// Base64 texts are equal only where the bytes are: comparing the texts of two
/// digests compares the digests.
pub proof fn law_base64_tells_bytes_apart(a: Seq<u8>, b: Seq<u8>)
    requires
        base64_text(a) == base64_text(b),
    ensures
        a == b,
{
    lemma_base64_same_length(a, b);
    assert forall|k: int| 0 <= k < a.len() implies a[k] == b[k] by {
        let start = k / 3 * 3;
        let first = k / 3 * 4;
        assert(first / 4 * 3 == start);
        assert(first + 3 < base64_text(a).len());
        let in_a = (
            byte_or_zero(a, start),
            byte_or_zero(a, start + 1),
            byte_or_zero(a, start + 2),
        );
        let in_b = (
            byte_or_zero(b, start),
            byte_or_zero(b, start + 1),
            byte_or_zero(b, start + 2),
        );
        lemma_base64_of_group(a, first);
        lemma_base64_of_group(b, first);
        lemma_base64_group(in_a, in_b, a.len() - start);
        assert(k == start || k == start + 1 || k == start + 2);
    }
    assert(a =~= b);
}

/// A percent-encoded text holds nothing but unreserved characters and `%`: no
/// line break and no other sign that has a meaning where it is put.
pub proof fn law_percent_encoding_is_inert(bytes: Seq<u8>)
    ensures
        forall|i: int|
            0 <= i < percent_encoded(bytes).len() ==> (#[trigger] percent_encoded(bytes)[i]) == '%'
                || exists|b: u8| is_unreserved(b) && percent_encoded(bytes)[i] == b as char,
    decreases bytes.len(),
{
    if bytes.len() > 0 {
        law_percent_encoding_is_inert(bytes.drop_last());
        let b = bytes.last();
        let high = b as int / 16;
        let low = b as int % 16;
        let high_digit = if high < 10 {
            48 + high
        } else {
            55 + high
        };
        let low_digit = if low < 10 {
            48 + low
        } else {
            55 + low
        };
        assert(is_unreserved(high_digit as u8) && upper_hex_digit(high) == (high_digit as u8) as char);
        assert(is_unreserved(low_digit as u8) && upper_hex_digit(low) == (low_digit as u8) as char);
        let before = percent_encoded(bytes.drop_last());
        assert forall|i: int| 0 <= i < percent_encoded(bytes).len() implies (
        #[trigger] percent_encoded(bytes)[i]) == '%' || exists|b: u8|
            is_unreserved(b) && percent_encoded(bytes)[i] == b as char by {
            if i < before.len() {
                assert(percent_encoded(bytes)[i] == before[i]);
            } else {
                let written = percent_encoded_byte(b)[i - before.len()];
                assert(percent_encoded(bytes)[i] == written);
            }
        }
    }
}

} // verus!
