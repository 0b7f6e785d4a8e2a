//! Credentials, and the requests that are signed with them.

use crate::alike::Alike;
use crate::bos::bucket;
use crate::bos::bucket::{BosBucket, BosRequest, BosSsl};
use crate::bos::credentials::{BosCredentials, BosError, BosIamProvider};
use crate::buffer;
use crate::digest;
use crate::laws::written;
use crate::weburl::UrlParts;
use bytes::Bytes;
use vstd::prelude::*;
use vstd::utf8::*;

verus! {

/// What is signed with is what the provider was made with: the access key, the
/// secret key and the token are neither changed nor mixed up.
pub proof fn law_credentials_are_those_given(
    access: &str,
    secret: &str,
    token: Option<&str>,
    provider: &BosIamProvider,
    handed_out: Result<BosCredentials, BosError>,
    credentials: &BosCredentials,
    access_given: &str,
    secret_given: &str,
    token_given: &Option<String>,
)
    requires
        call_ensures(BosIamProvider::new, (access, secret, token), *provider),
        call_ensures(BosIamProvider::credentials, (provider,), handed_out),
        handed_out == Ok::<BosCredentials, BosError>(*credentials),
        call_ensures(BosCredentials::access, (credentials,), access_given),
        call_ensures(BosCredentials::secret, (credentials,), secret_given),
        call_ensures(BosCredentials::security_token, (credentials,), token_given),
    ensures
        access_given@ == access@,
        secret_given@ == secret@,
        token is Some <==> *token_given is Some,
        token is Some ==> token_given->Some_0@ == token->Some_0@,
{
}

/// There are always credentials to hand out.
pub proof fn law_credentials_are_always_handed_out(
    provider: &BosIamProvider,
    handed_out: Result<BosCredentials, BosError>,
)
    requires
        call_ensures(BosIamProvider::credentials, (provider,), handed_out),
    ensures
        handed_out is Ok,
{
}

/// A copy of credentials is the same in every part.
pub proof fn law_credentials_are_copied(
    credentials: &BosCredentials,
    copy: &BosCredentials,
    access: &str,
    secret: &str,
    token: &Option<String>,
    access_of_copy: &str,
    secret_of_copy: &str,
    token_of_copy: &Option<String>,
)
    requires
        call_ensures(BosCredentials::clone, (credentials,), *copy),
        call_ensures(BosCredentials::access, (credentials,), access),
        call_ensures(BosCredentials::secret, (credentials,), secret),
        call_ensures(BosCredentials::security_token, (credentials,), token),
        call_ensures(BosCredentials::access, (copy,), access_of_copy),
        call_ensures(BosCredentials::secret, (copy,), secret_of_copy),
        call_ensures(BosCredentials::security_token, (copy,), token_of_copy),
    ensures
        access_of_copy@ == access@,
        secret_of_copy@ == secret@,
        *token is Some <==> *token_of_copy is Some,
        *token is Some ==> token->Some_0@ == token_of_copy->Some_0@,
{
    assert(token.model() == token_of_copy.model());
}

/// Whether the first line of `text` ends at `k`.
pub open spec fn first_line_ends_at(text: Seq<char>, k: int) -> bool {
    &&& 0 <= k < text.len()
    &&& text[k] == '\n'
    &&& forall|i: int| 0 <= i < k ==> #[trigger] text[i] != '\n'
}

/// Whether the first line of `text` ends at `k` and gives `n` as the length of
/// the content.
pub open spec fn gives_length(text: Seq<char>, k: int, n: int) -> bool {
    &&& first_line_ends_at(text, k)
    &&& k > 15
    &&& text.take(15) == "content-length:"@
    &&& written::writes_number(text.subrange(15, k), n)
}

/// Whether `text` holds the lines of the signed headers, with `length`, `md5`,
/// `content_type`, `host` and `date` as what follows the names.
pub open spec fn holds_lines(
    text: Seq<char>,
    length: Seq<char>,
    md5: Seq<char>,
    content_type: Seq<char>,
    host: Seq<char>,
    date: Seq<char>,
) -> bool {
    text == "content-length:"@ + length + "\ncontent-md5:"@ + md5 + "\ncontent-type:"@
        + content_type + "\nhost:"@ + host + "\nx-bce-date:"@ + date
}

/// Whether `text` is what is signed of the headers of a request: in lines that
/// give back the length, the digest, the type and the date by their values,
/// and the host as it is.
pub open spec fn speaks_of(
    text: Seq<char>,
    length: int,
    md5: Seq<char>,
    content_type: Seq<char>,
    host: Seq<char>,
    date: Seq<char>,
) -> bool {
    &&& exists|k: int| #[trigger] gives_length(text, k, length)
    &&& exists|digits: Seq<char>, sum: Seq<char>, kind: Seq<char>, time: Seq<char>|
        #![trigger holds_lines(text, digits, sum, kind, host, time)]
        {
            &&& holds_lines(text, digits, sum, kind, host, time)
            &&& written::writes_number(digits, length)
            &&& written::percent_encodes(sum, encode_utf8(md5))
            &&& written::percent_encodes(kind, encode_utf8(content_type))
            &&& written::percent_encodes(time, encode_utf8(date))
        }
}

proof fn lemma_canonical_headers(
    length: nat,
    md5: Seq<char>,
    content_type: Seq<char>,
    host: Seq<char>,
    date: Seq<char>,
)
    ensures
        speaks_of(
            bucket::canonical_headers_text(length, md5, content_type, host, date),
            length as int,
            md5,
            content_type,
            host,
            date,
        ),
{
    let text = bucket::canonical_headers_text(length, md5, content_type, host, date);
    let digits = crate::text::decimal_text(length);
    let sum = digest::percent_encoded(encode_utf8(md5));
    let kind = digest::percent_encoded(encode_utf8(content_type));
    let time = digest::percent_encoded(encode_utf8(date));
    written::lemma_decimal(length);
    written::lemma_percent_encoded(encode_utf8(md5));
    written::lemma_percent_encoded(encode_utf8(content_type));
    written::lemma_percent_encoded(encode_utf8(date));
    assert(holds_lines(text, digits, sum, kind, host, time));
    lemma_first_line(text, digits, sum, kind, host, time);
    assert(gives_length(text, 15 + digits.len() as int, length as int));
}

proof fn lemma_first_line(
    text: Seq<char>,
    digits: Seq<char>,
    sum: Seq<char>,
    kind: Seq<char>,
    host: Seq<char>,
    time: Seq<char>,
)
    requires
        holds_lines(text, digits, sum, kind, host, time),
        written::is_decimal(digits),
    ensures
        first_line_ends_at(text, 15 + digits.len() as int),
        text.take(15) == "content-length:"@,
        text.subrange(15, 15 + digits.len() as int) == digits,
{
    reveal_strlit("content-length:");
    reveal_strlit("\ncontent-md5:");
    let name = "content-length:"@;
    let rest = "\ncontent-md5:"@ + (sum + "\ncontent-type:"@ + kind + "\nhost:"@ + host
        + "\nx-bce-date:"@ + time);
    assert(text =~= name + digits + rest);
    assert(rest[0] == '\n');
    assert(name.len() == 15);
    let k = 15 + digits.len() as int;
    assert(text[k] == rest[0]);
    assert forall|i: int| 0 <= i < k implies #[trigger] text[i] != '\n' by {
        if i < 15 {
            assert(text[i] == name[i]);
        } else {
            assert(text[i] == digits[i - 15]);
        }
    }
    assert(text.take(15) =~= name);
    assert(text.subrange(15, k) =~= digits);
}

/// The signed headers speak of the very length, digest, type, host and date
/// that they are written for. Their first line is `content-length:` and the
/// digits of the length.
pub proof fn law_signed_headers_speak_of_the_request(
    content_length: usize,
    md5: &str,
    content_type: &str,
    host: &str,
    date: &str,
    headers: String,
)
    requires
        call_ensures(
            bucket::canonical_headers,
            (content_length, md5, content_type, host, date),
            headers,
        ),
    ensures
        speaks_of(headers@, content_length as int, md5@, content_type@, host@, date@),
{
    lemma_canonical_headers(content_length as nat, md5@, content_type@, host@, date@);
}

proof fn lemma_one_first_line(text: Seq<char>, k: int, l: int)
    requires
        first_line_ends_at(text, k),
        first_line_ends_at(text, l),
    ensures
        k == l,
{
    if k < l {
        assert(text[k] != '\n');
    } else if l < k {
        assert(text[l] != '\n');
    }
}

/// Requests of different lengths are signed for different headers, whatever
/// else they carry.
pub proof fn law_signed_headers_tell_lengths_apart(
    content_length: usize,
    md5: &str,
    content_type: &str,
    host: &str,
    date: &str,
    headers: String,
    other_length: usize,
    other_md5: &str,
    other_type: &str,
    other_host: &str,
    other_date: &str,
    other_headers: String,
)
    requires
        call_ensures(
            bucket::canonical_headers,
            (content_length, md5, content_type, host, date),
            headers,
        ),
        call_ensures(
            bucket::canonical_headers,
            (other_length, other_md5, other_type, other_host, other_date),
            other_headers,
        ),
        content_length != other_length,
    ensures
        headers@ != other_headers@,
{
    lemma_canonical_headers(content_length as nat, md5@, content_type@, host@, date@);
    lemma_canonical_headers(
        other_length as nat,
        other_md5@,
        other_type@,
        other_host@,
        other_date@,
    );
    let k = choose|k: int| #[trigger] gives_length(headers@, k, content_length as int);
    let l = choose|l: int| #[trigger] gives_length(other_headers@, l, other_length as int);
    if headers@ == other_headers@ {
        lemma_one_first_line(headers@, k, l);
    }
}

/// What a signing key is made for: the access key, the date and the half hour
/// for which it holds.
pub open spec fn key_scope(access: Seq<char>, date: Seq<char>) -> Seq<char> {
    "bce-auth-v1/"@ + access + "/"@ + date + "/1800"@
}

/// What a signing key is made for is written in four parts: the version of the
/// scheme, the access key, the date and 1800 seconds.
pub proof fn law_signing_key_is_for_access_and_date(access: &str, date: &str, info: String)
    requires
        call_ensures(bucket::sign_key_info, (access, date), info),
    ensures
        info@ == key_scope(access@, date@),
        info@.take(12) == "bce-auth-v1/"@,
        info@.subrange(12, 12 + access@.len() as int) == access@,
        info@[12 + access@.len() as int] == '/',
        info@.subrange(13 + access@.len() as int, 13 + access@.len() + date@.len() as int)
            == date@,
        info@.skip(13 + access@.len() + date@.len() as int) == "/1800"@,
{
    reveal_strlit("bce-auth-v1/");
    reveal_strlit("/");
    reveal_strlit("/1800");
    assert(info@.take(12) =~= "bce-auth-v1/"@);
    assert(info@.subrange(12, 12 + access@.len() as int) =~= access@);
    assert(info@.subrange(13 + access@.len() as int, 13 + access@.len() + date@.len() as int)
        =~= date@);
    assert(info@.skip(13 + access@.len() + date@.len() as int) =~= "/1800"@);
}

/// The text that is signed holds the verb, the path, the query and the headers,
/// in this order, with a line break between any two.
pub proof fn law_signed_text_holds_its_parts(
    verb: &str,
    uri: &str,
    query: &str,
    headers: &str,
    request: String,
)
    requires
        call_ensures(bucket::canonical_request, (verb, uri, query, headers), request),
    ensures
        request@.len() == verb@.len() + uri@.len() + query@.len() + headers@.len() + 3,
        request@.take(verb@.len() as int) == verb@,
        request@[verb@.len() as int] == '\n',
        ({
            let rest = request@.skip(verb@.len() as int + 1);
            &&& rest.take(uri@.len() as int) == uri@
            &&& rest[uri@.len() as int] == '\n'
            &&& rest.subrange(uri@.len() as int + 1, uri@.len() + 1 + query@.len() as int)
                == query@
            &&& rest[uri@.len() + 1 + query@.len() as int] == '\n'
            &&& rest.skip(uri@.len() + 2 + query@.len() as int) == headers@
        }),
{
    reveal_strlit("\n");
    let rest = request@.skip(verb@.len() as int + 1);
    assert(request@.take(verb@.len() as int) =~= verb@);
    assert(rest.take(uri@.len() as int) =~= uri@);
    assert(rest.subrange(uri@.len() as int + 1, uri@.len() + 1 + query@.len() as int) =~= query@);
    assert(rest.skip(uri@.len() + 2 + query@.len() as int) =~= headers@);
}

/// Whether `value` authorizes a request with the given verb, path, query and
/// signed headers: by `signature`, under `sign_key`, which is itself a
/// signature under the secret key.
pub open spec fn authorizes(
    value: Seq<char>,
    verb: Seq<char>,
    uri: Seq<char>,
    query: Seq<char>,
    headers: Seq<char>,
    access: Seq<char>,
    secret: Seq<char>,
    date: Seq<char>,
    sign_key: Seq<char>,
    signature: Seq<char>,
) -> bool {
    &&& written::is_signature(sign_key, key_scope(access, date), secret)
    &&& written::is_signature(
        signature,
        verb + "\n"@ + uri + "\n"@ + query + "\n"@ + headers,
        sign_key,
    )
    &&& value == key_scope(access, date) + "/"@
        + "content-length;content-md5;content-type;host;x-bce-date"@ + "/"@ + signature
}

/// Whether `value` authorizes a request with the given verb, path and query,
/// that carries the given length, digest, type, host and date.
pub open spec fn authorizes_request(
    value: Seq<char>,
    verb: Seq<char>,
    uri: Seq<char>,
    query: Seq<char>,
    length: int,
    md5: Seq<char>,
    content_type: Seq<char>,
    host: Seq<char>,
    date: Seq<char>,
    access: Seq<char>,
    secret: Seq<char>,
) -> bool {
    exists|headers: Seq<char>, sign_key: Seq<char>, signature: Seq<char>|
        #![trigger authorizes(
            value,
            verb,
            uri,
            query,
            headers,
            access,
            secret,
            date,
            sign_key,
            signature,
        )]
        {
            &&& authorizes(
                value,
                verb,
                uri,
                query,
                headers,
                access,
                secret,
                date,
                sign_key,
                signature,
            )
            &&& speaks_of(headers, length, md5, content_type, host, date)
        }
}

proof fn lemma_auth(
    host: Seq<char>,
    verb: Seq<char>,
    uri: Seq<char>,
    query: Seq<char>,
    length: nat,
    md5: Seq<char>,
    date: Seq<char>,
    content_type: Seq<char>,
    creds: crate::bos::credentials::CredentialsView,
)
    ensures
        authorizes_request(
            bucket::auth_text(host, verb, uri, query, length, md5, date, content_type, creds),
            verb,
            uri,
            query,
            length as int,
            md5,
            content_type,
            host,
            date,
            creds.access,
            creds.secret,
        ),
{
    let value = bucket::auth_text(host, verb, uri, query, length, md5, date, content_type, creds);
    let info = bucket::sign_key_info_text(creds.access, date);
    let sign_key = digest::signature_text(info, creds.secret);
    let headers = bucket::canonical_headers_text(length, md5, content_type, host, date);
    let request = bucket::canonical_request_text(verb, uri, query, headers);
    let signature = digest::signature_text(request, sign_key);
    lemma_canonical_headers(length, md5, content_type, host, date);
    written::lemma_hex(digest::hmac_sha256(encode_utf8(creds.secret), encode_utf8(info)));
    written::lemma_hex(digest::hmac_sha256(encode_utf8(sign_key), encode_utf8(request)));
    assert(authorizes(
        value,
        verb,
        uri,
        query,
        headers,
        creds.access,
        creds.secret,
        date,
        sign_key,
        signature,
    ));
}

/// An authorization is the signature, under a key made from the secret key for
/// the access key and the date, of the verb, the path, the query and headers
/// that speak of the given length, digest, type and date and of the bucket's
/// host.
pub proof fn law_authorization_is_for_the_request(
    store: &BosBucket,
    verb: &str,
    uri: &str,
    query: &str,
    content_length: usize,
    md5: &str,
    date: &str,
    content_type: &str,
    creds: &BosCredentials,
    value: String,
)
    requires
        call_ensures(
            BosBucket::auth,
            (store, verb, uri, query, content_length, md5, date, content_type, creds),
            value,
        ),
    ensures
        authorizes_request(
            value@,
            verb@,
            uri@,
            query@,
            content_length as int,
            md5@,
            content_type@,
            store@.host,
            date@,
            creds@.access,
            creds@.secret,
        ),
{
    lemma_auth(
        store@.host,
        verb@,
        uri@,
        query@,
        content_length as nat,
        md5@,
        date@,
        content_type@,
        creds@,
    );
}

/// The address of a bucket is scheme, endpoint and name: `https` where SSL is
/// used and `http` where it is not.
pub proof fn law_bucket_address(endpoint: &str, name: &str, ssl: BosSsl, url: String)
    requires
        call_ensures(bucket::base_url, (endpoint, name, ssl), url),
    ensures
        ssl is Yes ==> url@.take(8) == "https://"@ && url@.skip(8) == endpoint@ + "/"@ + name@,
        ssl is No ==> url@.take(7) == "http://"@ && url@.skip(7) == endpoint@ + "/"@ + name@,
{
    reveal_strlit("https");
    reveal_strlit("http");
    reveal_strlit("://");
    reveal_strlit("https://");
    reveal_strlit("http://");
    if ssl is Yes {
        assert(url@.take(8) =~= "https://"@);
        assert(url@.skip(8) =~= endpoint@ + "/"@ + name@);
    } else {
        assert(url@.take(7) =~= "http://"@);
        assert(url@.skip(7) =~= endpoint@ + "/"@ + name@);
    }
}

/// A bucket is asked at its endpoint, with or without SSL as it was made, and
/// is shown by its name and its address.
pub proof fn law_bucket_is_at_its_endpoint(
    name: &str,
    endpoint: &str,
    ssl: BosSsl,
    store: &BosBucket,
    shown: String,
)
    requires
        call_ensures(BosBucket::new, (name, endpoint, ssl), *store),
        call_ensures(BosBucket::to_string, (store,), shown),
    ensures
        store@.host == endpoint@,
        ssl is Yes ==> store@.base_url == "https"@ + "://"@ + endpoint@ + "/"@ + name@,
        ssl is No ==> store@.base_url == "http"@ + "://"@ + endpoint@ + "/"@ + name@,
        shown@ == "Bucket(name="@ + name@ + ", base_url="@ + store@.base_url + ")"@,
{
}

/// What a HEAD request carries: it asks for the object of the given key, has no
/// body and no digest, and is authorized for the path of the object, with no
/// query, and for what it carries.
pub proof fn law_head_asks_for_the_object(
    store: &BosBucket,
    key: &str,
    parts: &UrlParts,
    date: &str,
    creds: &BosCredentials,
    request: BosRequest,
)
    requires
        call_ensures(BosBucket::head_at, (store, key, parts, date, creds), request),
    ensures
        request.verb@ == "HEAD"@,
        request.url@ == store@.base_url + "/"@ + key@,
        request.body is None,
        request.content_length == 0,
        request.content_md5@.len() == 0,
        request.content_type@ == "application/octet-stream"@,
        request.host@ == store@.host,
        request.date@ == date@,
        authorizes_request(
            request.authorization@,
            request.verb@,
            parts.path@,
            Seq::empty(),
            request.content_length as int,
            request.content_md5@,
            request.content_type@,
            request.host@,
            request.date@,
            creds@.access,
            creds@.secret,
        ),
{
    reveal_strlit("");
    assert(""@ =~= Seq::<char>::empty());
    lemma_auth(
        store@.host,
        "HEAD"@,
        parts.path@,
        ""@,
        0,
        ""@,
        date@,
        "application/octet-stream"@,
        creds@,
    );
}

/// What a PUT request carries: the content, under the given key, with its
/// length and its MD5 digest, authorized for the path and the query of the
/// object and for what it carries.
pub proof fn law_put_stores_the_content(
    store: &BosBucket,
    key: &str,
    content: Bytes,
    parts: &UrlParts,
    date: &str,
    creds: &BosCredentials,
    request: BosRequest,
)
    requires
        call_ensures(BosBucket::put_at, (store, key, content, parts, date, creds), request),
    ensures
        request.verb@ == "PUT"@,
        request.url@ == store@.base_url + "/"@ + key@,
        request.body is Some,
        buffer::bytes_held(request.body->Some_0) == buffer::bytes_held(content),
        request.content_length == buffer::bytes_held(content).len(),
        written::writes_base64(
            request.content_md5@,
            digest::md5_digest(buffer::bytes_held(content)),
        ),
        request.content_type@ == "application/octet-stream"@,
        request.host@ == store@.host,
        request.date@ == date@,
        authorizes_request(
            request.authorization@,
            request.verb@,
            parts.path@,
            if parts.query is Some {
                parts.query->Some_0@
            } else {
                Seq::empty()
            },
            request.content_length as int,
            request.content_md5@,
            request.content_type@,
            request.host@,
            request.date@,
            creds@.access,
            creds@.secret,
        ),
{
    reveal_strlit("");
    assert(""@ =~= Seq::<char>::empty());
    let held = buffer::bytes_held(content);
    written::lemma_base64(digest::md5_digest(held));
    lemma_auth(
        store@.host,
        "PUT"@,
        parts.path@,
        if parts.query is Some {
            parts.query->Some_0@
        } else {
            ""@
        },
        held.len(),
        digest::md5_text(held),
        date@,
        "application/octet-stream"@,
        creds@,
    );
}

/// The headers that are sent are the ones that were signed: the length by the
/// digits of its value, and the digest, the type, the host, the date and the
/// authorization as they are.
pub proof fn law_sent_headers_are_those_signed(
    request: &BosRequest,
    headers: Vec<(String, String)>,
)
    requires
        call_ensures(BosRequest::headers, (request,), headers),
    ensures
        headers@.len() == 6,
        headers@[0].0@ == "Content-Md5"@ && headers@[0].1@ == request.content_md5@,
        headers@[1].0@ == "content-length"@ && written::writes_number(
            headers@[1].1@,
            request.content_length as int,
        ),
        headers@[2].0@ == "content-type"@ && headers@[2].1@ == request.content_type@,
        headers@[3].0@ == "host"@ && headers@[3].1@ == request.host@,
        headers@[4].0@ == "X-BCE-Date"@ && headers@[4].1@ == request.date@,
        headers@[5].0@ == "authorization"@ && headers@[5].1@ == request.authorization@,
{
    written::lemma_decimal(request.content_length as nat);
    let shown = headers@.map_values(|header: (String, String)| (header.0@, header.1@));
    assert(shown.len() == 6);
    assert(shown[0] == (headers@[0].0@, headers@[0].1@));
    assert(shown[1] == (headers@[1].0@, headers@[1].1@));
    assert(shown[2] == (headers@[2].0@, headers@[2].1@));
    assert(shown[3] == (headers@[3].0@, headers@[3].1@));
    assert(shown[4] == (headers@[4].0@, headers@[4].1@));
    assert(shown[5] == (headers@[5].0@, headers@[5].1@));
}

/// A request made now is the one made at the date that it carries, for the
/// address of the object, or fails where that address is no URL.
pub proof fn law_requests_made_now(
    store: &BosBucket,
    key: &str,
    content: Bytes,
    creds: &BosCredentials,
    asked: Result<BosRequest, BosError>,
    stored: Result<BosRequest, BosError>,
)
    requires
        call_ensures(BosBucket::head, (store, key, creds), asked),
        call_ensures(BosBucket::put, (store, key, content, creds), stored),
    ensures
        asked is Ok <==> crate::weburl::parsed_url(store@.base_url + "/"@ + key@) is Ok,
        stored is Ok <==> crate::weburl::parsed_url(store@.base_url + "/"@ + key@) is Ok,
        asked is Err ==> asked->Err_0 == BosError::From(
            crate::weburl::parsed_url(store@.base_url + "/"@ + key@)->Err_0,
        ),
        stored is Err ==> stored->Err_0 == BosError::From(
            crate::weburl::parsed_url(store@.base_url + "/"@ + key@)->Err_0,
        ),
        asked is Ok ==> {
            let request = asked->Ok_0;
            &&& request.verb@ == "HEAD"@
            &&& request.url@ == store@.base_url + "/"@ + key@
            &&& request.body is None
            &&& request.content_length == 0
            &&& request.content_md5@ == ""@
            &&& request.content_type@ == "application/octet-stream"@
            &&& request.host@ == store@.host
            &&& crate::clock::is_utc_timestamp(request.date@, true)
        },
        stored is Ok ==> {
            let request = stored->Ok_0;
            &&& request.verb@ == "PUT"@
            &&& request.url@ == store@.base_url + "/"@ + key@
            &&& request.body is Some
            &&& buffer::bytes_held(request.body->Some_0) == buffer::bytes_held(content)
            &&& request.content_length == buffer::bytes_held(content).len()
            &&& written::writes_base64(
                request.content_md5@,
                digest::md5_digest(buffer::bytes_held(content)),
            )
            &&& request.content_type@ == "application/octet-stream"@
            &&& request.host@ == store@.host
            &&& crate::clock::is_utc_timestamp(request.date@, true)
        },
        asked is Ok ==> authorizes_request(
            asked->Ok_0.authorization@,
            "HEAD"@,
            crate::weburl::parsed_url(store@.base_url + "/"@ + key@)->Ok_0.path,
            ""@,
            0,
            ""@,
            asked->Ok_0.content_type@,
            store@.host,
            asked->Ok_0.date@,
            creds@.access,
            creds@.secret,
        ),
        stored is Ok ==> authorizes_request(
            stored->Ok_0.authorization@,
            "PUT"@,
            crate::weburl::parsed_url(store@.base_url + "/"@ + key@)->Ok_0.path,
            match crate::weburl::parsed_url(store@.base_url + "/"@ + key@)->Ok_0.query {
                Some(query) => query,
                None => ""@,
            },
            buffer::bytes_held(content).len() as int,
            stored->Ok_0.content_md5@,
            stored->Ok_0.content_type@,
            store@.host,
            stored->Ok_0.date@,
            creds@.access,
            creds@.secret,
        ),
{
    let url = store@.base_url + "/"@ + key@;
    if let Ok(parts) = crate::weburl::parsed_url(url) {
        let held = buffer::bytes_held(content);
        written::lemma_base64(digest::md5_digest(held));
        lemma_auth(
            store@.host,
            "HEAD"@,
            parts.path,
            ""@,
            0,
            ""@,
            asked->Ok_0.date@,
            "application/octet-stream"@,
            creds@,
        );
        lemma_auth(
            store@.host,
            "PUT"@,
            parts.path,
            match parts.query {
                Some(query) => query,
                None => ""@,
            },
            held.len(),
            digest::md5_text(held),
            stored->Ok_0.date@,
            "application/octet-stream"@,
            creds@,
        );
        assert(store@.object_url(key@) == url);
    }
}

} // verus!
