use bytes::Bytes;
use crates_io_cn::bos::bucket::{
    authorization, base_url, canonical_headers, canonical_request, sign_key_info, BosBucket,
    BosRequest, BosSsl,
};
use crates_io_cn::bos::credentials::{BosCredentials, BosError, BosIamProvider};
use crates_io_cn::digest::{md5_hash, md5_text_of_digest, signature, signature_of_code};
use crates_io_cn::text::decimal;
use crates_io_cn::weburl::UrlParts;

const DATE: &str = "2021-02-10T12:00:00Z";
const PREFIX: &str = "bce-auth-v1/ak/2021-02-10T12:00:00Z/1800/content-length;content-md5;\
                      content-type;host;x-bce-date/";

fn creds() -> BosCredentials {
    BosIamProvider::new("ak", "sk", Some("token")).credentials().unwrap()
}

fn bucket() -> BosBucket {
    BosBucket::new("crates", "bj.bcebos.com", BosSsl::No)
}

fn parts(query: Option<&str>) -> UrlParts {
    UrlParts {
        path: "/crates/serde/1.0.0".to_string(),
        query: query.map(|query| query.to_string()),
    }
}

fn header(request: &BosRequest, name: &str) -> String {
    let headers = request.headers();
    let found: Vec<&(String, String)> = headers.iter().filter(|h| h.0 == name).collect();
    assert_eq!(found.len(), 1);
    found[0].1.clone()
}

#[test]
fn md5_is_written_in_base64() {
    assert_eq!(md5_hash(b""), "1B2M2Y8AsgTpgAmY7PhCfg==");
    assert_eq!(md5_hash(b"hello world"), "XrY7u+Ae7tCTyyK7j1rNww==");
}

#[test]
fn base64_pads_the_last_group() {
    assert_eq!(md5_text_of_digest(b""), "");
    assert_eq!(md5_text_of_digest(b"f"), "Zg==");
    assert_eq!(md5_text_of_digest(b"fo"), "Zm8=");
    assert_eq!(md5_text_of_digest(b"foo"), "Zm9v");
    assert_eq!(md5_text_of_digest(b"foob"), "Zm9vYg==");
    assert_eq!(md5_text_of_digest(&[0xfb, 0xff, 0xbf]), "+/+/");
    assert_eq!(md5_text_of_digest(&[0, 0, 0]), "AAAA");
    assert_ne!(md5_text_of_digest(&[0]), md5_text_of_digest(&[0, 0]));
    assert_ne!(md5_text_of_digest(&[0, 0]), md5_text_of_digest(&[0, 0, 0]));
}

#[test]
fn base64_of_different_bytes_differs() {
    for a in 0..=255u8 {
        for b in 0..=255u8 {
            assert_eq!(
                md5_text_of_digest(&[7, 9, a]) == md5_text_of_digest(&[7, 9, b]),
                a == b
            );
        }
    }
}

#[test]
fn signature_is_hmac_sha256_in_hex() {
    assert_eq!(
        signature("what do ya want for nothing?", "Jefe"),
        "5bdcc146bf60754e6a042426089575c75a003f089d2739839dec58b964ec3843"
    );
    assert_eq!(
        signature("", ""),
        "b613679a0814d9ec772f95d778c35fc5ff1697c493715653c6c712144292c5ad"
    );
}

#[test]
fn a_short_key_is_filled_up_with_zeros() {
    assert_eq!(signature("x", "k"), signature("x", "k\0"));
    assert_eq!(signature("x", ""), signature("x", "\0\0"));
    let block = "k".repeat(64);
    assert_ne!(signature("x", &block), signature("x", &format!("{}\0", block)));
    let last = "k".repeat(63);
    assert_eq!(signature("x", &last), signature("x", &format!("{}\0", last)));
}

#[test]
fn a_long_key_counts_as_its_digest() {
    assert_eq!(
        signature("x", &"k".repeat(65)),
        "75092ca3ee2b307470c227697b42b3e65376aa3bae98fb5a1f7b7536daa9588a"
    );
}

#[test]
fn codes_are_written_in_lower_case_hex() {
    assert_eq!(signature_of_code(&[]), "");
    assert_eq!(signature_of_code(&[0x00, 0x9a, 0xff, 0xb0]), "009affb0");
}

#[test]
fn decimal_has_no_leading_zeros() {
    assert_eq!(decimal(0), "0");
    assert_eq!(decimal(9), "9");
    assert_eq!(decimal(10), "10");
    assert_eq!(decimal(1234567890), "1234567890");
    assert_eq!(decimal(usize::MAX), usize::MAX.to_string());
}

#[test]
fn base_url_has_scheme_endpoint_and_name() {
    assert_eq!(
        base_url("bj.bcebos.com", "crates", BosSsl::Yes),
        "https://bj.bcebos.com/crates"
    );
    assert_eq!(
        base_url("bj.bcebos.com", "crates", BosSsl::No),
        "http://bj.bcebos.com/crates"
    );
}

#[test]
fn bucket_is_shown_with_name_and_address() {
    assert_eq!(
        bucket().to_string(),
        "Bucket(name=crates, base_url=http://bj.bcebos.com/crates)"
    );
}

#[test]
fn provider_hands_out_what_it_was_given() {
    let full = creds();
    assert_eq!(full.access(), "ak");
    assert_eq!(full.secret(), "sk");
    assert_eq!(full.security_token(), &Some("token".to_string()));
    let bare = BosIamProvider::new("a", "s", None).credentials().unwrap();
    assert_eq!(bare.access(), "a");
    assert_eq!(bare.secret(), "s");
    assert_eq!(bare.security_token(), &None);
    let copy = full.clone();
    assert_eq!(copy.access(), "ak");
    assert_eq!(copy.secret(), "sk");
    assert_eq!(copy.security_token(), &Some("token".to_string()));
}

#[test]
fn sign_key_info_holds_for_half_an_hour() {
    assert_eq!(
        sign_key_info("ak", DATE),
        "bce-auth-v1/ak/2021-02-10T12:00:00Z/1800"
    );
}

#[test]
fn canonical_headers_are_percent_encoded_but_for_the_host() {
    assert_eq!(
        canonical_headers(11, "a+b/c=", "application/octet-stream", "h:80", DATE),
        "content-length:11\n\
         content-md5:a%2Bb%2Fc%3D\n\
         content-type:application%2Foctet-stream\n\
         host:h:80\n\
         x-bce-date:2021-02-10T12%3A00%3A00Z"
    );
}

#[test]
fn percent_encoding_leaves_no_line_break() {
    let headers = canonical_headers(0, "a\nb\r-._~ é", "", "h", "");
    assert_eq!(
        headers,
        "content-length:0\ncontent-md5:a%0Ab%0D-._~%20%C3%A9\ncontent-type:\nhost:h\nx-bce-date:"
    );
}

#[test]
fn canonical_request_has_one_line_for_each_part() {
    assert_eq!(
        canonical_request("PUT", "/a/b", "q=1", "host:h"),
        "PUT\n/a/b\nq=1\nhost:h"
    );
}

#[test]
fn authorization_names_the_signed_headers() {
    assert_eq!(
        authorization("info", "sig"),
        "info/content-length;content-md5;content-type;host;x-bce-date/sig"
    );
}

#[test]
fn auth_signs_with_a_derived_key() {
    let value = bucket().auth(
        "HEAD",
        "/crates/serde/1.0.0",
        "",
        0,
        "",
        DATE,
        "application/octet-stream",
        &creds(),
    );
    assert_eq!(
        value,
        format!(
            "{}4d80c17f125d054e031181ed8d17d0872360b2e373cc55f3b82d7f8c6082dc67",
            PREFIX
        )
    );
}

#[test]
fn head_carries_what_it_signs() {
    let request = bucket().head_at("serde/1.0.0", &parts(Some("a=b")), DATE, &creds());
    assert_eq!(request.verb, "HEAD");
    assert_eq!(request.url, "http://bj.bcebos.com/crates/serde/1.0.0");
    assert!(request.body.is_none());
    assert_eq!(header(&request, "Content-Md5"), "");
    assert_eq!(header(&request, "content-length"), "0");
    assert_eq!(header(&request, "content-type"), "application/octet-stream");
    assert_eq!(header(&request, "host"), "bj.bcebos.com");
    assert_eq!(header(&request, "X-BCE-Date"), DATE);
    assert_eq!(
        header(&request, "authorization"),
        format!(
            "{}4d80c17f125d054e031181ed8d17d0872360b2e373cc55f3b82d7f8c6082dc67",
            PREFIX
        )
    );
}

#[test]
fn put_carries_what_it_signs() {
    let content = Bytes::copy_from_slice(b"hello world");
    let request = bucket().put_at("serde/1.0.0", content, &parts(None), DATE, &creds());
    assert_eq!(request.verb, "PUT");
    assert_eq!(request.url, "http://bj.bcebos.com/crates/serde/1.0.0");
    assert_eq!(&request.body.as_ref().unwrap()[..], b"hello world");
    let names: Vec<String> = request.headers().into_iter().map(|h| h.0).collect();
    assert_eq!(
        names,
        [
            "Content-Md5",
            "content-length",
            "content-type",
            "host",
            "X-BCE-Date",
            "authorization"
        ]
    );
    assert_eq!(header(&request, "Content-Md5"), "XrY7u+Ae7tCTyyK7j1rNww==");
    assert_eq!(header(&request, "content-length"), "11");
    assert_eq!(
        header(&request, "authorization"),
        format!(
            "{}321731c8e9c9a58269f079b27a4fd8acc3b18e79b00fe0ccf21deb56137eef52",
            PREFIX
        )
    );
}

#[test]
fn put_signs_the_query() {
    let content = Bytes::copy_from_slice(b"hello world");
    let request = bucket().put_at("serde/1.0.0", content, &parts(Some("a=b")), DATE, &creds());
    assert_eq!(
        request.authorization,
        format!(
            "{}780b7907424f649bd6a5f09ac1dd3ecbdc451b58abec164e0bba5a88007ce2d9",
            PREFIX
        )
    );
}

#[test]
fn head_is_made_now_for_the_parsed_address() {
    let request = bucket().head("serde/1.0.0", &creds()).unwrap();
    let date = request.date.clone();
    assert_eq!(date.len(), 20);
    assert!(date.ends_with('Z'));
    assert_eq!(&date[10..11], "T");
    let same = bucket().head_at("serde/1.0.0", &parts(None), &date, &creds());
    assert_eq!(request.authorization, same.authorization);
    assert_eq!(request.url, same.url);
}

#[test]
fn put_is_made_now_for_the_parsed_address() {
    let content = Bytes::copy_from_slice(b"hello world");
    let request = bucket()
        .put("serde/1.0.0?a=b", content.clone(), &creds())
        .unwrap();
    let date = request.date.clone();
    let same = bucket().put_at("serde/1.0.0?a=b", content, &parts(Some("a=b")), &date, &creds());
    assert_eq!(request.authorization, same.authorization);
    assert_eq!(request.url, same.url);
    assert_eq!(request.content_length, 11);
}

#[test]
fn path_is_signed_in_its_encoded_form() {
    let request = bucket().head("a b", &creds()).unwrap();
    let encoded = UrlParts {
        path: "/crates/a%20b".to_string(),
        query: None,
    };
    let same = bucket().head_at("a b", &encoded, &request.date, &creds());
    assert_eq!(request.authorization, same.authorization);
    assert_eq!(request.url, "http://bj.bcebos.com/crates/a b");
}

#[test]
fn an_address_that_is_no_url_is_refused() {
    let nowhere = BosBucket::new("crates", "", BosSsl::No);
    let nowhere = BosBucket::new("crates", &format!("[{}", nowhere.to_string()), BosSsl::No);
    assert!(matches!(
        nowhere.head("k", &creds()),
        Err(BosError::From(url::ParseError::InvalidIpv6Address))
    ));
    let port = BosBucket::new("crates", "host:port", BosSsl::Yes);
    assert!(matches!(
        port.put("k", Bytes::copy_from_slice(b""), &creds()),
        Err(BosError::From(url::ParseError::InvalidPort))
    ));
}
