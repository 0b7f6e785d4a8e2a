//! Numbers, bytes and texts, and how they are written.

use crate::digest;
use crate::text;
use vstd::prelude::*;
use vstd::utf8::*;

verus! {

/// The value of a text of decimal digits.
pub open spec fn decimal_value(text: Seq<char>) -> int
    decreases text.len(),
{
    if text.len() == 0 {
        0
    } else {
        decimal_value(text.drop_last()) * 10 + (text.last() as int - '0' as int)
    }
}

/// Whether `text` is made of decimal digits, the first of them no zero unless
/// it is the only one.
pub open spec fn is_decimal(text: Seq<char>) -> bool {
    &&& text.len() > 0
    &&& forall|i: int| 0 <= i < text.len() ==> '0' <= #[trigger] text[i] <= '9'
    &&& text.len() > 1 ==> text[0] != '0'
}

/// Whether `text` writes the number `n`.
pub open spec fn writes_number(text: Seq<char>, n: int) -> bool {
    is_decimal(text) && decimal_value(text) == n
}

/// A number is written in digits that have its value.
pub(crate) proof fn lemma_decimal(n: nat)
    ensures
        writes_number(text::decimal_text(n), n as int),
        n > 0 ==> text::decimal_text(n)[0] != '0',
    decreases n,
{
    reveal_with_fuel(decimal_value, 2);
    let written = text::decimal_text(n);
    if n < 10 {
        assert(written.drop_last() =~= Seq::<char>::empty());
    } else {
        lemma_decimal(n / 10);
        assert(written.drop_last() =~= text::decimal_text(n / 10));
        assert(written[0] == text::decimal_text(n / 10)[0]);
        assert forall|i: int| 0 <= i < written.len() implies '0' <= #[trigger] written[i]
            <= '9' by {
            if i < written.len() - 1 {
                assert(written[i] == text::decimal_text(n / 10)[i]);
            }
        }
    }
}

/// What is written for a number is made of digits that have its value, without
/// zeros in front of them.
pub proof fn law_number_is_written_by_its_value(n: usize, written: String)
    requires
        call_ensures(text::decimal, (n,), written),
    ensures
        writes_number(written@, n as int),
{
    lemma_decimal(n as nat);
}

/// The value of a lower-case hexadecimal digit.
pub open spec fn hex_value(c: char) -> int {
    if '0' <= c <= '9' {
        c as int - '0' as int
    } else if 'a' <= c <= 'f' {
        c as int - 'a' as int + 10
    } else {
        -1
    }
}

/// Whether `text` writes `bytes` in hexadecimal: two digits for each, the high
/// one first.
pub open spec fn writes_hex(text: Seq<char>, bytes: Seq<u8>) -> bool {
    &&& text.len() == 2 * bytes.len()
    &&& forall|i: int|
        0 <= i < bytes.len() ==> 0 <= hex_value(text[2 * i]) < 16 && 0 <= hex_value(text[2 * i + 1])
            < 16 && hex_value(text[2 * i]) * 16 + hex_value(text[2 * i + 1]) == #[trigger] bytes[i]
}

pub(crate) proof fn lemma_hex(bytes: Seq<u8>)
    ensures
        writes_hex(digest::hex_text(bytes), bytes),
{
    let text = digest::hex_text(bytes);
    assert forall|i: int| 0 <= i < bytes.len() implies 0 <= hex_value(text[2 * i]) < 16 && 0
        <= hex_value(text[2 * i + 1]) < 16 && hex_value(text[2 * i]) * 16 + hex_value(
        text[2 * i + 1],
    ) == #[trigger] bytes[i] by {
        let b = bytes[i] as int;
        assert((2 * i) / 2 == i && (2 * i) % 2 == 0);
        assert((2 * i + 1) / 2 == i && (2 * i + 1) % 2 == 1);
        assert(text[2 * i] == digest::hex_digit(b / 16));
        assert(text[2 * i + 1] == digest::hex_digit(b % 16));
        assert(0 <= b / 16 < 16 && 0 <= b % 16 < 16);
        lemma_hex_digit(b / 16);
        lemma_hex_digit(b % 16);
    }
}

proof fn lemma_hex_digit(d: int)
    requires
        0 <= d < 16,
    ensures
        hex_value(digest::hex_digit(d)) == d,
{
}

/// An authentication code is written in hexadecimal digits that give it back.
pub proof fn law_code_is_written_in_hex(code: &[u8], written: String)
    requires
        call_ensures(digest::signature_of_code, (code,), written),
    ensures
        writes_hex(written@, code@),
{
    lemma_hex(code@);
}

/// Whether `text` is the signature of `signed` under `key`: the hexadecimal
/// digits of the code of its bytes under the key's bytes.
pub open spec fn is_signature(text: Seq<char>, signed: Seq<char>, key: Seq<char>) -> bool {
    writes_hex(text, digest::hmac_sha256(encode_utf8(key), encode_utf8(signed)))
}

/// A signature gives back the code of the text that was signed, under the key
/// that it was signed with.
pub proof fn law_signature_gives_back_the_code(
    string_to_sign: &str,
    signing_key: &str,
    signature: String,
)
    requires
        call_ensures(digest::signature, (string_to_sign, signing_key), signature),
    ensures
        is_signature(signature@, string_to_sign@, signing_key@),
{
    lemma_hex(digest::hmac_sha256(encode_utf8(signing_key@), encode_utf8(string_to_sign@)));
}

/// The value of a base64 digit.
pub open spec fn base64_value(c: char) -> int {
    if 'A' <= c <= 'Z' {
        c as int - 'A' as int
    } else if 'a' <= c <= 'z' {
        c as int - 'a' as int + 26
    } else if '0' <= c <= '9' {
        c as int - '0' as int + 52
    } else if c == '+' {
        62
    } else if c == '/' {
        63
    } else {
        -1
    }
}

/// The byte at `k` of what the base64 text `text` was written from.
#[verifier::opaque]
pub open spec fn base64_byte(text: Seq<char>, k: int) -> int {
    let first = k / 3 * 4;
    if k % 3 == 0 {
        base64_value(text[first]) * 4 + base64_value(text[first + 1]) / 16
    } else if k % 3 == 1 {
        base64_value(text[first + 1]) % 16 * 16 + base64_value(text[first + 2]) / 4
    } else {
        base64_value(text[first + 2]) % 4 * 64 + base64_value(text[first + 3])
    }
}

/// Whether `text` writes `bytes` in base64: four digits for each group of three
/// bytes, and `=` for those that a last group does not fill.
pub open spec fn writes_base64(text: Seq<char>, bytes: Seq<u8>) -> bool {
    &&& text.len() == (bytes.len() + 2) / 3 * 4
    &&& forall|k: int| 0 <= k < bytes.len() ==> base64_byte(text, k) == #[trigger] bytes[k]
    &&& bytes.len() % 3 == 1 ==> text[text.len() - 1] == '=' && text[text.len() - 2] == '='
        && base64_value(text[text.len() - 3]) % 16 == 0
    &&& bytes.len() % 3 == 2 ==> text[text.len() - 1] == '=' && base64_value(text[text.len() - 2])
        % 4 == 0
}

proof fn lemma_base64_value(d: int)
    requires
        0 <= d < 64,
    ensures
        base64_value(digest::base64_digit(d)) == d,
{
}

proof fn lemma_base64_bytes(a: int, b: int, c: int)
    requires
        0 <= a < 256,
        0 <= b < 256,
        0 <= c < 256,
    ensures
        ({
            let x = a * 65536 + b * 256 + c;
            &&& 0 <= x / 262144 < 64
            &&& x / 262144 * 4 + x / 4096 % 64 / 16 == a
            &&& x / 4096 % 64 % 16 * 16 + x / 64 % 64 / 4 == b
            &&& x / 64 % 64 % 4 * 64 + x % 64 == c
        }),
{
    let x = a * 65536 + b * 256 + c;
    assert(x / 262144 == a / 4);
    assert(x / 4096 == a * 16 + b / 16);
    assert(x / 64 == a * 1024 + b * 4 + c / 64);
    assert(x / 4096 % 64 == a % 4 * 16 + b / 16);
    assert(x / 64 % 64 == b % 16 * 4 + c / 64);
    assert(x % 64 == c % 64);
}

/// The digits of the group `g` of a base64 text.
proof fn lemma_base64_digits(bytes: Seq<u8>, g: int)
    requires
        0 <= g,
        3 * g < bytes.len(),
    ensures
        ({
            let text = digest::base64_text(bytes);
            let x = digest::byte_or_zero(bytes, 3 * g) * 65536 + digest::byte_or_zero(
                bytes,
                3 * g + 1,
            ) * 256 + digest::byte_or_zero(bytes, 3 * g + 2);
            &&& 4 * g + 3 < text.len()
            &&& text[4 * g] == digest::base64_digit(x / 262144)
            &&& text[4 * g + 1] == digest::base64_digit(x / 4096 % 64)
            &&& text[4 * g + 2] == if 3 * g + 1 < bytes.len() {
                digest::base64_digit(x / 64 % 64)
            } else {
                '='
            }
            &&& text[4 * g + 3] == if 3 * g + 2 < bytes.len() {
                digest::base64_digit(x % 64)
            } else {
                '='
            }
        }),
{
    assert((4 * g) / 4 == g && (4 * g) % 4 == 0);
    assert((4 * g + 1) / 4 == g && (4 * g + 1) % 4 == 1);
    assert((4 * g + 2) / 4 == g && (4 * g + 2) % 4 == 2);
    assert((4 * g + 3) / 4 == g && (4 * g + 3) % 4 == 3);
}

/// The byte at `k` can be read off the digits.
proof fn lemma_base64_byte(bytes: Seq<u8>, k: int)
    requires
        0 <= k < bytes.len(),
    ensures
        base64_byte(digest::base64_text(bytes), k) == bytes[k],
{
    reveal(base64_byte);
    let g = k / 3;
    let a = digest::byte_or_zero(bytes, 3 * g);
    let b = digest::byte_or_zero(bytes, 3 * g + 1);
    let c = digest::byte_or_zero(bytes, 3 * g + 2);
    let x = a * 65536 + b * 256 + c;
    lemma_base64_digits(bytes, g);
    lemma_base64_bytes(a, b, c);
    lemma_base64_value(x / 262144);
    lemma_base64_value(x / 4096 % 64);
    lemma_base64_value(x / 64 % 64);
    lemma_base64_value(x % 64);
    assert(g * 4 == 4 * g);
    if k % 3 == 0 {
        assert(k == 3 * g);
    } else if k % 3 == 1 {
        assert(k == 3 * g + 1);
    } else {
        assert(k == 3 * g + 2);
    }
}

pub(crate) proof fn lemma_base64(bytes: Seq<u8>)
    ensures
        writes_base64(digest::base64_text(bytes), bytes),
{
    let text = digest::base64_text(bytes);
    assert forall|k: int| 0 <= k < bytes.len() implies base64_byte(text, k)
        == #[trigger] bytes[k] by {
        lemma_base64_byte(bytes, k);
    }
    lemma_base64_padding(bytes);
}

/// The padding tells how far the last group is filled.
proof fn lemma_base64_padding(bytes: Seq<u8>)
    ensures
        ({
            let text = digest::base64_text(bytes);
            &&& text.len() == (bytes.len() + 2) / 3 * 4
            &&& bytes.len() % 3 == 1 ==> text[text.len() - 1] == '=' && text[text.len() - 2] == '='
                && base64_value(text[text.len() - 3]) % 16 == 0
            &&& bytes.len() % 3 == 2 ==> text[text.len() - 1] == '=' && base64_value(
                text[text.len() - 2],
            ) % 4 == 0
        }),
{
    let text = digest::base64_text(bytes);
    if bytes.len() % 3 != 0 {
        let g = bytes.len() as int / 3;
        assert((bytes.len() + 2) / 3 == g + 1);
        assert(text.len() == 4 * g + 4);
        lemma_base64_digits(bytes, g);
        let a = digest::byte_or_zero(bytes, 3 * g);
        let b = digest::byte_or_zero(bytes, 3 * g + 1);
        lemma_base64_filling(a, b);
        let x = a * 65536 + b * 256;
        lemma_base64_value(x / 4096 % 64);
        lemma_base64_value(x / 64 % 64);
    }
}

/// What fills up a group is zero.
proof fn lemma_base64_filling(a: int, b: int)
    requires
        0 <= a < 256,
        0 <= b < 256,
    ensures
        b == 0 ==> (a * 65536) / 4096 % 64 % 16 == 0,
        (a * 65536 + b * 256) / 64 % 64 % 4 == 0,
{
    assert((a * 65536) / 4096 == a * 16);
    assert((a * 65536 + b * 256) / 64 == a * 1024 + b * 4);
}

/// A digest is written in base64 digits that give it back.
pub proof fn law_digest_is_written_in_base64(digest: &[u8], written: String)
    requires
        call_ensures(digest::md5_text_of_digest, (digest,), written),
    ensures
        writes_base64(written@, digest@),
{
    lemma_base64(digest@);
}

/// What is compared with the store gives back the MD5 digest of the content.
pub proof fn law_md5_text_gives_back_the_digest(content: &[u8], written: String)
    requires
        call_ensures(digest::md5_hash, (content,), written),
    ensures
        writes_base64(written@, digest::md5_digest(content@)),
{
    lemma_base64(digest::md5_digest(content@));
}

/// The value of an upper-case hexadecimal digit.
pub open spec fn upper_hex_value(c: char) -> int {
    if '0' <= c <= '9' {
        c as int - '0' as int
    } else if 'A' <= c <= 'F' {
        c as int - 'A' as int + 10
    } else {
        -1
    }
}

/// The bytes that a percent-encoded text stands for.
pub open spec fn percent_decoded(text: Seq<char>) -> Seq<u8>
    decreases text.len(),
{
    if text.len() == 0 {
        Seq::empty()
    } else if text[0] == '%' && text.len() >= 3 {
        seq![(upper_hex_value(text[1]) * 16 + upper_hex_value(text[2])) as u8] + percent_decoded(
            text.skip(3),
        )
    } else {
        seq![text[0] as u8] + percent_decoded(text.skip(1))
    }
}

/// Whether `c` is a letter, a digit, or one of `-`, `.`, `_` and `~`.
pub open spec fn is_harmless(c: char) -> bool {
    'a' <= c <= 'z' || 'A' <= c <= 'Z' || '0' <= c <= '9' || c == '-' || c == '.' || c == '_' || c
        == '~'
}

/// Whether `text` is the percent-encoding of `bytes`: it holds nothing but
/// harmless characters and `%`, and stands for those bytes.
pub open spec fn percent_encodes(text: Seq<char>, bytes: Seq<u8>) -> bool {
    &&& percent_decoded(text) == bytes
    &&& forall|i: int| 0 <= i < text.len() ==> is_harmless(#[trigger] text[i]) || text[i] == '%'
}

/// The encoding of bytes begins with that of the first of them.
proof fn lemma_encoded_from_the_front(b: u8, rest: Seq<u8>)
    ensures
        digest::percent_encoded(seq![b] + rest) == digest::percent_encoded_byte(b)
            + digest::percent_encoded(rest),
    decreases rest.len(),
{
    reveal_with_fuel(digest::percent_encoded, 2);
    let all = seq![b] + rest;
    if rest.len() == 0 {
        assert(all.drop_last() =~= Seq::<u8>::empty());
        assert(digest::percent_encoded(all) =~= digest::percent_encoded_byte(b)
            + digest::percent_encoded(rest));
    } else {
        lemma_encoded_from_the_front(b, rest.drop_last());
        assert(all.drop_last() =~= seq![b] + rest.drop_last());
        assert(all.last() == rest.last());
        assert(digest::percent_encoded(all) =~= digest::percent_encoded_byte(b)
            + digest::percent_encoded(rest));
    }
}

proof fn lemma_encoded_byte(b: u8)
    ensures
        ({
            let text = digest::percent_encoded_byte(b);
            &&& text.len() == 1 || text.len() == 3
            &&& text.len() == 1 ==> is_harmless(text[0]) && text[0] == b as char && text[0] as u8
                == b
            &&& text.len() == 3 ==> text[0] == '%' && is_harmless(text[1]) && is_harmless(text[2])
                && upper_hex_value(text[1]) * 16 + upper_hex_value(text[2]) == b
            &&& text.len() == 1 <==> is_harmless(b as char)
        }),
{
    let high = b as int / 16;
    let low = b as int % 16;
    assert(upper_hex_value(digest::upper_hex_digit(high)) == high);
    assert(upper_hex_value(digest::upper_hex_digit(low)) == low);
}

pub(crate) proof fn lemma_percent_encoded(bytes: Seq<u8>)
    ensures
        percent_encodes(digest::percent_encoded(bytes), bytes),
    decreases bytes.len(),
{
    let text = digest::percent_encoded(bytes);
    if bytes.len() == 0 {
        assert(percent_decoded(text) =~= bytes);
    } else {
        let b = bytes[0];
        let rest = bytes.skip(1);
        assert(bytes =~= seq![b] + rest);
        lemma_encoded_from_the_front(b, rest);
        lemma_percent_encoded(rest);
        lemma_encoded_byte(b);
        let first = digest::percent_encoded_byte(b);
        let encoded_rest = digest::percent_encoded(rest);
        assert(text == first + encoded_rest);
        assert(text[0] == first[0]);
        assert(text.skip(first.len() as int) =~= encoded_rest);
        if first.len() == 3 {
            assert(text[1] == first[1] && text[2] == first[2]);
        }
        assert(percent_decoded(text) =~= seq![b] + rest);
        assert forall|i: int| 0 <= i < text.len() implies is_harmless(#[trigger] text[i])
            || text[i] == '%' by {
            if i < first.len() {
                assert(text[i] == first[i]);
            } else {
                assert(text[i] == encoded_rest[i - first.len()]);
            }
        }
    }
}

/// Harmless characters are left as they are, however many there are.
pub proof fn law_harmless_text_is_left_as_it_is(bytes: Seq<u8>)
    requires
        forall|i: int| 0 <= i < bytes.len() ==> is_harmless(#[trigger] bytes[i] as char),
    ensures
        digest::percent_encoded(bytes) == Seq::new(bytes.len(), |i: int| bytes[i] as char),
    decreases bytes.len(),
{
    if bytes.len() > 0 {
        let before = bytes.drop_last();
        assert forall|i: int| 0 <= i < before.len() implies is_harmless(
            #[trigger] before[i] as char,
        ) by {
            assert(before[i] == bytes[i]);
        }
        law_harmless_text_is_left_as_it_is(before);
        assert(bytes.last() == bytes[bytes.len() - 1]);
        lemma_encoded_byte(bytes.last());
    }
    assert(digest::percent_encoded(bytes) =~= Seq::new(bytes.len(), |i: int| bytes[i] as char));
}

/// A percent-encoded text stands for the bytes that it was made from, and holds
/// nothing but harmless characters and `%`.
pub proof fn law_percent_encoding_can_be_undone(bytes: Seq<u8>)
    ensures
        percent_encodes(digest::percent_encoded(bytes), bytes),
{
    lemma_percent_encoded(bytes);
}

/// Taking the quotes out of a text leaves no quote in it.
pub proof fn law_no_quote_is_left(text: &str, stripped: String)
    requires
        call_ensures(text::strip_quotes, (text,), stripped),
    ensures
        !stripped@.contains('"'),
{
    lemma_no_quote(text@);
}

proof fn lemma_no_quote(text: Seq<char>)
    ensures
        !text::unquoted(text).contains('"'),
    decreases text.len(),
{
    reveal(Seq::filter);
    if text.len() > 0 {
        lemma_no_quote(text.drop_last());
        let before = text::unquoted(text.drop_last());
        let all = text::unquoted(text);
        if all.contains('"') {
            let i = all.index_of('"');
            if i < before.len() {
                assert(before[i] == '"');
                assert(before.contains('"'));
            }
        }
    }
}

/// Quotes are taken out one by one: what is left of a text is what is left of
/// its parts, and of a single character either nothing, where it is a quote,
/// or the character.
pub proof fn law_quotes_alone_are_taken_out(
    a: &str,
    b: &str,
    both: &str,
    left_of_a: String,
    left_of_b: String,
    left_of_both: String,
)
    requires
        both@ == a@ + b@,
        call_ensures(text::strip_quotes, (a,), left_of_a),
        call_ensures(text::strip_quotes, (b,), left_of_b),
        call_ensures(text::strip_quotes, (both,), left_of_both),
    ensures
        left_of_both@ == left_of_a@ + left_of_b@,
        a@.len() == 0 ==> left_of_a@.len() == 0,
        a@.len() == 1 && a@[0] == '"' ==> left_of_a@.len() == 0,
        a@.len() == 1 && a@[0] != '"' ==> left_of_a@ == a@,
{
    lemma_unquoted_parts(a@, b@);
    reveal_with_fuel(Seq::filter, 2);
    if a@.len() == 1 {
        assert(a@.drop_last() =~= Seq::<char>::empty());
        assert(a@ =~= seq![a@[0]]);
        assert(left_of_a@ =~= if a@[0] == '"' {
            Seq::empty()
        } else {
            a@
        });
    }
}

proof fn lemma_unquoted_parts(a: Seq<char>, b: Seq<char>)
    ensures
        text::unquoted(a + b) == text::unquoted(a) + text::unquoted(b),
    decreases b.len(),
{
    reveal(Seq::filter);
    if b.len() == 0 {
        assert(a + b =~= a);
        assert(text::unquoted(a) + text::unquoted(b) =~= text::unquoted(a));
    } else {
        lemma_unquoted_parts(a, b.drop_last());
        assert((a + b).drop_last() =~= a + b.drop_last());
        assert((a + b).last() == b.last());
        assert(text::unquoted(a + b) =~= text::unquoted(a) + text::unquoted(b));
    }
}

} // verus!
