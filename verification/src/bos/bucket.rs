//! Buckets, and the signed requests that read and write their objects.

use crate::bos::credentials::{BosCredentials, BosError, CredentialsView};
use crate::buffer;
use crate::clock;
use crate::digest;
use crate::text;
use crate::weburl;
use crate::weburl::{UrlParts, UrlPartsView};
use bytes::Bytes;
use vstd::prelude::*;
use vstd::utf8::*;

verus! {

/// Whether or not to use SSL.
#[derive(Debug, Copy, Clone)]
pub enum BosSsl {
    /// Use SSL.
    Yes,
    /// Do not use SSL.
    No,
}

/// The scheme of the addresses of a bucket.
pub open spec fn scheme_text(ssl: BosSsl) -> Seq<char> {
    match ssl {
        BosSsl::Yes => "https"@,
        BosSsl::No => "http"@,
    }
}

/// The address of the bucket `bucket_name` at `endpoint`.
pub open spec fn base_url_text(
    endpoint: Seq<char>,
    bucket_name: Seq<char>,
    ssl: BosSsl,
) -> Seq<char> {
    scheme_text(ssl) + "://"@ + endpoint + "/"@ + bucket_name
}

/// The address of a bucket: scheme, endpoint and name.
pub fn base_url(endpoint: &str, bucket_name: &str, ssl: BosSsl) -> (url: String)
    ensures
        url@ == base_url_text(endpoint@, bucket_name@, ssl),
{
    let scheme = match ssl {
        BosSsl::Yes => "https",
        BosSsl::No => "http",
    };
    let mut url = scheme.to_owned();
    url.append("://");
    url.append(endpoint);
    url.append("/");
    url.append(bucket_name);
    url
}

/// What a signing key is derived from, beside the secret key: the access key,
/// the time of signing and the 1800 seconds for which the signature holds.
pub open spec fn sign_key_info_text(access: Seq<char>, date: Seq<char>) -> Seq<char> {
    "bce-auth-v1/"@ + access + "/"@ + date + "/1800"@
}

/// Writes what a signing key is derived from.
pub fn sign_key_info(access: &str, date: &str) -> (info: String)
    ensures
        info@ == sign_key_info_text(access@, date@),
{
    let mut info = "bce-auth-v1/".to_owned();
    info.append(access);
    info.append("/");
    info.append(date);
    info.append("/1800");
    info
}

/// The headers of a request in the form in which they are signed. The values
/// are percent-encoded, all but the host.
pub open spec fn canonical_headers_text(
    content_length: nat,
    md5: Seq<char>,
    content_type: Seq<char>,
    host: Seq<char>,
    date: Seq<char>,
) -> Seq<char> {
    "content-length:"@ + text::decimal_text(content_length) + "\ncontent-md5:"@
        + digest::percent_encoded(encode_utf8(md5)) + "\ncontent-type:"@ + digest::percent_encoded(
        encode_utf8(content_type),
    ) + "\nhost:"@ + host + "\nx-bce-date:"@ + digest::percent_encoded(encode_utf8(date))
}

/// Writes the headers of a request in the form in which they are signed.
pub fn canonical_headers(
    content_length: usize,
    md5: &str,
    content_type: &str,
    host: &str,
    date: &str,
) -> (headers: String)
    ensures
        headers@ == canonical_headers_text(
            content_length as nat,
            md5@,
            content_type@,
            host@,
            date@,
        ),
{
    let mut headers = "content-length:".to_owned();
    headers.append(text::decimal(content_length).as_str());
    headers.append("\ncontent-md5:");
    headers.append(digest::percent_encode(md5).as_str());
    headers.append("\ncontent-type:");
    headers.append(digest::percent_encode(content_type).as_str());
    headers.append("\nhost:");
    headers.append(host);
    headers.append("\nx-bce-date:");
    headers.append(digest::percent_encode(date).as_str());
    headers
}

/// The text of a request that is signed.
pub open spec fn canonical_request_text(
    verb: Seq<char>,
    canonical_uri: Seq<char>,
    canonical_query_string: Seq<char>,
    canonical_headers: Seq<char>,
) -> Seq<char> {
    verb + "\n"@ + canonical_uri + "\n"@ + canonical_query_string + "\n"@ + canonical_headers
}

/// Writes the text of a request that is signed.
pub fn canonical_request(
    verb: &str,
    canonical_uri: &str,
    canonical_query_string: &str,
    canonical_headers: &str,
) -> (request: String)
    ensures
        request@ == canonical_request_text(
            verb@,
            canonical_uri@,
            canonical_query_string@,
            canonical_headers@,
        ),
{
    let mut request = verb.to_owned();
    request.append("\n");
    request.append(canonical_uri);
    request.append("\n");
    request.append(canonical_query_string);
    request.append("\n");
    request.append(canonical_headers);
    request
}

/// What stands before the signature in an authorization: what the signing key
/// was derived from, and the names of the signed headers.
pub open spec fn authorization_prefix_text(sign_key_info: Seq<char>) -> Seq<char> {
    sign_key_info + "/"@ + "content-length;content-md5;content-type;host;x-bce-date"@ + "/"@
}

/// The value of the `Authorization` header.
pub open spec fn authorization_text(sign_key_info: Seq<char>, signature: Seq<char>) -> Seq<char> {
    authorization_prefix_text(sign_key_info) + signature
}

/// Writes the value of the `Authorization` header.
pub fn authorization(sign_key_info: &str, signature: &str) -> (value: String)
    ensures
        value@ == authorization_text(sign_key_info@, signature@),
{
    let mut value = sign_key_info.to_owned();
    value.append("/");
    value.append("content-length;content-md5;content-type;host;x-bce-date");
    value.append("/");
    value.append(signature);
    value
}

/// The authorization of a request: the canonical request, signed with a key
/// that is itself the signature, under the secret key, of what the key is
/// derived from.
pub open spec fn auth_text(
    host: Seq<char>,
    verb: Seq<char>,
    canonical_uri: Seq<char>,
    canonical_query_string: Seq<char>,
    content_length: nat,
    md5: Seq<char>,
    date: Seq<char>,
    content_type: Seq<char>,
    creds: CredentialsView,
) -> Seq<char> {
    let info = sign_key_info_text(creds.access, date);
    let sign_key = digest::signature_text(info, creds.secret);
    let headers = canonical_headers_text(content_length, md5, content_type, host, date);
    let request = canonical_request_text(
        verb,
        canonical_uri,
        canonical_query_string,
        headers,
    );
    authorization_text(info, digest::signature_text(request, sign_key))
}

/// A request to the object store, ready to be sent.
pub struct BosRequest {
    /// The HTTP method.
    pub verb: String,
    /// The address of the object.
    pub url: String,
    /// The digest of the body in base64, and nothing where there is no body.
    pub content_md5: String,
    /// The length of the body.
    pub content_length: usize,
    /// The type of the body.
    pub content_type: String,
    /// The host that serves the bucket.
    pub host: String,
    /// The time of signing.
    pub date: String,
    /// The authorization.
    pub authorization: String,
    /// The body.
    pub body: Option<Bytes>,
}

/// The parts of a request.
pub struct RequestView {
    pub verb: Seq<char>,
    pub url: Seq<char>,
    pub content_md5: Seq<char>,
    pub content_length: nat,
    pub content_type: Seq<char>,
    pub host: Seq<char>,
    pub date: Seq<char>,
    pub authorization: Seq<char>,
    pub body: Option<Seq<u8>>,
}

impl View for BosRequest {
    type V = RequestView;

    open spec fn view(&self) -> RequestView {
        RequestView {
            verb: self.verb@,
            url: self.url@,
            content_md5: self.content_md5@,
            content_length: self.content_length as nat,
            content_type: self.content_type@,
            host: self.host@,
            date: self.date@,
            authorization: self.authorization@,
            body: match self.body {
                Some(body) => Some(buffer::bytes_held(body)),
                None => None,
            },
        }
    }
}

impl RequestView {
    /// The headers of the request, names and values, in the order in which
    /// they are sent.
    pub open spec fn headers(self) -> Seq<(Seq<char>, Seq<char>)> {
        seq![
            ("Content-Md5"@, self.content_md5),
            ("content-length"@, text::decimal_text(self.content_length)),
            ("content-type"@, self.content_type),
            ("host"@, self.host),
            ("X-BCE-Date"@, self.date),
            ("authorization"@, self.authorization),
        ]
    }

    /// Whether the authorization of the request is the one for the values
    /// that the request itself carries.
    pub open spec fn signs_what_it_carries(
        self,
        canonical_uri: Seq<char>,
        canonical_query_string: Seq<char>,
        creds: CredentialsView,
    ) -> bool {
        self.authorization == auth_text(
            self.host,
            self.verb,
            canonical_uri,
            canonical_query_string,
            self.content_length,
            self.content_md5,
            self.date,
            self.content_type,
            creds,
        )
    }
}

impl BosRequest {
    /// The headers of the request, names and values, in the order in which
    /// they are sent.
    pub fn headers(&self) -> (headers: Vec<(String, String)>)
        ensures
            headers@.map_values(|header: (String, String)| (header.0@, header.1@))
                == self@.headers(),
    {
        let mut headers: Vec<(String, String)> = Vec::new();
        headers.push(("Content-Md5".to_owned(), self.content_md5.clone()));
        headers.push(("content-length".to_owned(), text::decimal(self.content_length)));
        headers.push(("content-type".to_owned(), self.content_type.clone()));
        headers.push(("host".to_owned(), self.host.clone()));
        headers.push(("X-BCE-Date".to_owned(), self.date.clone()));
        headers.push(("authorization".to_owned(), self.authorization.clone()));
        headers
    }
}

/// A bucket of the object store.
pub struct BosBucket {
    name: String,
    base_url: String,
    host: String,
}

/// The parts of a bucket.
pub struct BucketView {
    pub name: Seq<char>,
    pub base_url: Seq<char>,
    pub host: Seq<char>,
}

impl View for BosBucket {
    type V = BucketView;

    closed spec fn view(&self) -> BucketView {
        BucketView { name: self.name@, base_url: self.base_url@, host: self.host@ }
    }
}

impl BucketView {
    /// The address of the object `key`.
    pub open spec fn object_url(self, key: Seq<char>) -> Seq<char> {
        self.base_url + "/"@ + key
    }

    /// The request that asks what the store holds under `key`. It is signed
    /// without the query of the address.
    pub open spec fn head_request(
        self,
        key: Seq<char>,
        parts: UrlPartsView,
        date: Seq<char>,
        creds: CredentialsView,
    ) -> RequestView {
        RequestView {
            verb: "HEAD"@,
            url: self.object_url(key),
            content_md5: ""@,
            content_length: 0,
            content_type: "application/octet-stream"@,
            host: self.host,
            date,
            authorization: auth_text(
                self.host,
                "HEAD"@,
                parts.path,
                ""@,
                0,
                ""@,
                date,
                "application/octet-stream"@,
                creds,
            ),
            body: None,
        }
    }

    /// The request that stores `content` under `key`. It is signed with the
    /// query of the address, where there is one.
    pub open spec fn put_request(
        self,
        key: Seq<char>,
        content: Seq<u8>,
        parts: UrlPartsView,
        date: Seq<char>,
        creds: CredentialsView,
    ) -> RequestView {
        RequestView {
            verb: "PUT"@,
            url: self.object_url(key),
            content_md5: digest::md5_text(content),
            content_length: content.len(),
            content_type: "application/octet-stream"@,
            host: self.host,
            date,
            authorization: auth_text(
                self.host,
                "PUT"@,
                parts.path,
                match parts.query {
                    Some(query) => query,
                    None => ""@,
                },
                content.len(),
                digest::md5_text(content),
                date,
                "application/octet-stream"@,
                creds,
            ),
            body: Some(content),
        }
    }
}

impl BosBucket {
    /// The bucket `name` at `endpoint`.
    pub fn new(name: &str, endpoint: &str, ssl: BosSsl) -> (bucket: BosBucket)
        ensures
            bucket@ == (BucketView {
                name: name@,
                base_url: base_url_text(endpoint@, name@, ssl),
                host: endpoint@,
            }),
    {
        BosBucket {
            name: name.to_owned(),
            base_url: base_url(endpoint, name, ssl),
            host: endpoint.to_owned(),
        }
    }

    /// The bucket as text, for people to read.
    pub fn to_string(&self) -> (text: String)
        ensures
            text@ == "Bucket(name="@ + self@.name + ", base_url="@ + self@.base_url + ")"@,
    {
        let mut text = "Bucket(name=".to_owned();
        text.append(self.name.as_str());
        text.append(", base_url=");
        text.append(self.base_url.as_str());
        text.append(")");
        text
    }

    /// The address of the object `key`.
    fn object_url(&self, key: &str) -> (url: String)
        ensures
            url@ == self@.object_url(key@),
    {
        let mut url = self.base_url.clone();
        url.append("/");
        url.append(key);
        url
    }

    /// The request that asks what the store holds under `key`, made at the
    /// time of the call. It fails where the address of the object is no URL.
    pub fn head(&self, key: &str, creds: &BosCredentials) -> (request: Result<BosRequest, BosError>)
        ensures
            match weburl::parsed_url(self@.object_url(key@)) {
                Ok(parts) => request is Ok && exists|date: Seq<char>| #[trigger]
                    clock::is_utc_timestamp(date, true) && request->Ok_0@ == self@.head_request(
                        key@,
                        parts,
                        date,
                        creds@,
                    ),
                Err(error) => request == Err::<BosRequest, BosError>(BosError::From(error)),
            },
    {
        let url = self.object_url(key);
        let date = clock::utc_now(true);
        match weburl::parse_url(url.as_str()) {
            Ok(parts) => Ok(self.head_at(key, &parts, date.as_str(), creds)),
            Err(error) => Err(BosError::From(error)),
        }
    }

    /// The request that asks what the store holds under `key`, made at `date`
    /// for an address with the given parts.
    pub fn head_at(&self, key: &str, parts: &UrlParts, date: &str, creds: &BosCredentials) -> (request:
        BosRequest)
        ensures
            request@ == self@.head_request(key@, parts@, date@, creds@),
    {
        let content_type = "application/octet-stream";
        let auth = self.auth("HEAD", parts.path.as_str(), "", 0, "", date, content_type, creds);
        BosRequest {
            verb: "HEAD".to_owned(),
            url: self.object_url(key),
            content_md5: "".to_owned(),
            content_length: 0,
            content_type: content_type.to_owned(),
            host: self.host.clone(),
            date: date.to_owned(),
            authorization: auth,
            body: None,
        }
    }

    /// The request that stores `content` under `key`, made at the time of the
    /// call. It fails where the address of the object is no URL.
    pub fn put(&self, key: &str, content: Bytes, creds: &BosCredentials) -> (request: Result<
        BosRequest,
        BosError,
    >)
        ensures
            match weburl::parsed_url(self@.object_url(key@)) {
                Ok(parts) => request is Ok && exists|date: Seq<char>| #[trigger]
                    clock::is_utc_timestamp(date, true) && request->Ok_0@ == self@.put_request(
                        key@,
                        buffer::bytes_held(content),
                        parts,
                        date,
                        creds@,
                    ),
                Err(error) => request == Err::<BosRequest, BosError>(BosError::From(error)),
            },
    {
        let url = self.object_url(key);
        let date = clock::utc_now(true);
        match weburl::parse_url(url.as_str()) {
            Ok(parts) => Ok(self.put_at(key, content, &parts, date.as_str(), creds)),
            Err(error) => Err(BosError::From(error)),
        }
    }

    /// The request that stores `content` under `key`, made at `date` for an
    /// address with the given parts.
    pub fn put_at(
        &self,
        key: &str,
        content: Bytes,
        parts: &UrlParts,
        date: &str,
        creds: &BosCredentials,
    ) -> (request: BosRequest)
        ensures
            request@ == self@.put_request(
                key@,
                buffer::bytes_held(content),
                parts@,
                date@,
                creds@,
            ),
    {
        let content_type = "application/octet-stream";
        let md5 = digest::md5_hash(buffer::bytes_slice(&content));
        let content_length = buffer::bytes_slice(&content).len();
        let query_string = match &parts.query {
            Some(query) => query.as_str(),
            None => "",
        };
        let auth = self.auth(
            "PUT",
            parts.path.as_str(),
            query_string,
            content_length,
            md5.as_str(),
            date,
            content_type,
            creds,
        );
        BosRequest {
            verb: "PUT".to_owned(),
            url: self.object_url(key),
            content_md5: md5,
            content_length,
            content_type: content_type.to_owned(),
            host: self.host.clone(),
            date: date.to_owned(),
            authorization: auth,
            body: Some(content),
        }
    }

    /// The authorization of a request to this bucket's host.
    pub fn auth(
        &self,
        verb: &str,
        canonical_uri: &str,
        canonical_query_string: &str,
        content_length: usize,
        md5: &str,
        date: &str,
        content_type: &str,
        creds: &BosCredentials,
    ) -> (value: String)
        ensures
            value@ == auth_text(
                self@.host,
                verb@,
                canonical_uri@,
                canonical_query_string@,
                content_length as nat,
                md5@,
                date@,
                content_type@,
                creds@,
            ),
            value@.len() == authorization_prefix_text(
                sign_key_info_text(creds@.access, date@),
            ).len() + 64,
    {
        let info = sign_key_info(creds.access(), date);
        let sign_key = digest::signature(info.as_str(), creds.secret());
        let headers = canonical_headers(content_length, md5, content_type, self.host.as_str(), date);
        let request = canonical_request(
            verb,
            canonical_uri,
            canonical_query_string,
            headers.as_str(),
        );
        let signature = digest::signature(request.as_str(), sign_key.as_str());
        authorization(info.as_str(), signature.as_str())
    }
}

/// A request for what the store holds is signed for the very values that it
/// carries.
pub proof fn law_head_signs_what_it_carries(
    bucket: BucketView,
    key: Seq<char>,
    parts: UrlPartsView,
    date: Seq<char>,
    creds: CredentialsView,
)
    ensures
        bucket.head_request(key, parts, date, creds).signs_what_it_carries(
            parts.path,
            Seq::empty(),
            creds,
        ),
{
    reveal_strlit("");
    assert(""@ =~= Seq::<char>::empty());
}

/// A request that stores an object is signed for the very values that it
/// carries, and it carries the digest and the length of its own body.
pub proof fn law_put_signs_what_it_carries(
    bucket: BucketView,
    key: Seq<char>,
    content: Seq<u8>,
    parts: UrlPartsView,
    date: Seq<char>,
    creds: CredentialsView,
)
    ensures
        ({
            let request = bucket.put_request(key, content, parts, date, creds);
            &&& request.signs_what_it_carries(
                parts.path,
                match parts.query {
                    Some(query) => query,
                    None => Seq::empty(),
                },
                creds,
            )
            &&& request.body == Some(content)
            &&& request.content_length == content.len()
            &&& request.content_md5 == digest::md5_text(content)
        }),
{
    reveal_strlit("");
    assert(""@ =~= Seq::<char>::empty());
}

} // verus!
