use hmac::Mac;
use ima_cli::api::CosCredential;
use ima_cli::cos::{
    build_authorization, cos_upload_outcome, cos_upload_request, hmac_sha1, sha1_hex, url_encode, utf8_bytes,
};
use ima_cli::error::Error;

fn reference_hmac(key: &[u8], data: &[u8]) -> Vec<u8> {
    let mut mac = hmac::Hmac::<sha1::Sha1>::new_from_slice(key).unwrap();
    mac.update(data);
    mac.finalize().into_bytes().to_vec()
}

fn reference_hex(bytes: &[u8]) -> String {
    bytes.iter().map(|b| format!("{:02x}", b)).collect()
}

#[test]
fn test_hmac_sha1() {
    let key = b"secret_key";
    let data = b"hello";
    let result = hmac_sha1(key, data);
    assert!(!result.is_empty());
}

#[test]
fn test_sha1_hex() {
    let data = b"hello";
    let result = sha1_hex(data);
    assert_eq!(result, "aaf4c61ddcc5e8a2dabede0f3b482cd9aea9434d");
}

#[test]
fn test_url_encode() {
    assert_eq!(url_encode("hello"), "hello");
    assert_eq!(url_encode("hello world"), "hello%20world");
    assert!(url_encode("测试").contains("%"));
}

#[test]
fn hmac_sha1_is_twenty_bytes_and_keyed() {
    let a = hmac_sha1(b"key", b"message");
    let b = hmac_sha1(b"other", b"message");
    assert_eq!(a.len(), 20);
    assert_ne!(a, b);
    assert_eq!(a, reference_hmac(b"key", b"message"));
}

#[test]
fn sha1_hex_of_empty_input() {
    assert_eq!(sha1_hex(b""), "da39a3ee5e6b4b0d3255bfef95601890afd80709");
}

#[test]
fn url_encode_multibyte_and_reserved() {
    assert_eq!(url_encode("测试"), "%E6%B5%8B%E8%AF%95");
    assert_eq!(url_encode("a-b_c.d~e"), "a-b_c.d~e");
    assert_eq!(url_encode("a/b?c=d&e"), "a%2Fb%3Fc%3Dd%26e");
    assert_eq!(url_encode("é"), "%C3%A9");
    assert_eq!(url_encode("😀"), "%F0%9F%98%80");
    assert_eq!(url_encode(""), "");
}

#[test]
fn url_encode_of_concatenation_is_concatenation() {
    let a = "x y/";
    let b = "测z";
    assert_eq!(url_encode(&format!("{}{}", a, b)), format!("{}{}", url_encode(a), url_encode(b)));
}

#[test]
fn url_encode_output_is_url_safe() {
    let out = url_encode("any text: ä/ß?#[]@!$&'()*+,;= 漢字");
    assert!(out.chars().all(|c| c.is_ascii_alphanumeric() || "-_.~%".contains(c)));
}

#[test]
fn utf8_bytes_match_std() {
    for c in ['a', 'é', '测', '😀', '\u{7ff}', '\u{800}', '\u{ffff}', '\u{10000}'] {
        let mut buf = [0u8; 4];
        assert_eq!(utf8_bytes(c), c.encode_utf8(&mut buf).as_bytes().to_vec());
    }
}

#[test]
fn authorization_matches_the_signing_steps() {
    let auth = build_authorization("AKID", "SECRET", "PUT", "/dir/file.pdf", 1234, "bucket.cos.ap-guangzhou.myqcloud.com", 1700000000, 1700003600);
    let key_time = "1700000000;1700003600";
    let sign_key = reference_hex(&reference_hmac(b"SECRET", key_time.as_bytes()));
    let http_string = "put\n/dir/file.pdf\n\ncontent-length=1234&host=bucket.cos.ap-guangzhou.myqcloud.com\n";
    let string_to_sign = format!("sha1\n{}\n{}\n", key_time, sha1_hex(http_string.as_bytes()));
    let signature = reference_hex(&reference_hmac(sign_key.as_bytes(), string_to_sign.as_bytes()));
    let expected = format!(
        "q-sign-algorithm=sha1&q-ak=AKID&q-sign-time={kt}&q-key-time={kt}&q-header-list=content-length;host&q-url-param-list=&q-signature={sig}",
        kt = key_time,
        sig = signature
    );
    assert_eq!(auth, expected);
}

#[test]
fn authorization_keys_the_signature_with_the_hex_sign_key() {
    let auth = build_authorization("AKID", "SECRET", "PUT", "/f", 1, "h", 0, 1);
    let sign_key_raw = reference_hmac(b"SECRET", b"0;1");
    let http_string = "put\n/f\n\ncontent-length=1&host=h\n";
    let string_to_sign = format!("sha1\n0;1\n{}\n", sha1_hex(http_string.as_bytes()));
    let raw_keyed = reference_hex(&reference_hmac(&sign_key_raw, string_to_sign.as_bytes()));
    assert!(!auth.ends_with(&raw_keyed));
}

#[test]
fn authorization_with_negative_times_and_encoded_host() {
    let auth = build_authorization("id", "k", "Get", "/", 0, "h st", -5, 7);
    assert!(auth.contains("&q-sign-time=-5;7&q-key-time=-5;7&"));
    let http_string = "get\n/\n\ncontent-length=0&host=h%20st\n";
    let string_to_sign = format!("sha1\n-5;7\n{}\n", sha1_hex(http_string.as_bytes()));
    let sign_key = reference_hex(&reference_hmac(b"k", b"-5;7"));
    let sig = reference_hex(&reference_hmac(sign_key.as_bytes(), string_to_sign.as_bytes()));
    assert!(auth.ends_with(&format!("&q-signature={}", sig)));
}

fn credential() -> CosCredential {
    CosCredential {
        token: "TOKEN".to_string(),
        secret_id: "SID".to_string(),
        secret_key: "SKEY".to_string(),
        start_time: 0,
        expired_time: 0,
        appid: "1250000000".to_string(),
        bucket_name: "bkt".to_string(),
        region: "ap-shanghai".to_string(),
        custom_domain: None,
        cos_key: "kb/abc.pdf".to_string(),
    }
}

#[test]
fn upload_request_targets_the_bucket() {
    let c = credential();
    let r = cos_upload_request(&c, 42, 1000);
    assert_eq!(r.host, "bkt.cos.ap-shanghai.myqcloud.com");
    assert_eq!(r.url, "https://bkt.cos.ap-shanghai.myqcloud.com/kb/abc.pdf");
    assert_eq!(r.security_token, "TOKEN");
    assert_eq!(r.content_length, 42);
    assert_eq!(
        r.authorization,
        build_authorization("SID", "SKEY", "PUT", "/kb/abc.pdf", 42, "bkt.cos.ap-shanghai.myqcloud.com", 1000, 4600)
    );
}

#[test]
fn upload_outcome_by_status() {
    assert!(cos_upload_outcome(200, "").is_ok());
    assert!(cos_upload_outcome(204, "").is_ok());
    match cos_upload_outcome(403, "denied") {
        Err(Error::CosUploadFailed(m)) => assert_eq!(m, "COS upload failed (HTTP 403 Forbidden): denied"),
        other => panic!("unexpected {:?}", other),
    }
    assert!(cos_upload_outcome(301, "").is_err());
}

fn percent_decode(s: &str) -> String {
    let chars: Vec<char> = s.chars().collect();
    let mut bytes: Vec<u8> = Vec::new();
    let mut i = 0;
    while i < chars.len() {
        if chars[i] == '%' && i + 2 < chars.len() && chars[i + 1].is_ascii_hexdigit() && chars[i + 2].is_ascii_hexdigit() {
            let hi = chars[i + 1].to_digit(16).unwrap() as u8;
            let lo = chars[i + 2].to_digit(16).unwrap() as u8;
            bytes.push(hi * 16 + lo);
            i += 3;
        } else {
            let mut buf = [0u8; 4];
            bytes.extend_from_slice(chars[i].encode_utf8(&mut buf).as_bytes());
            i += 1;
        }
    }
    String::from_utf8(bytes).unwrap()
}

#[test]
fn url_encode_decodes_back() {
    for s in ["", "hello world", "测试/文件.pdf", "a%b", "100%", "~-_.", "é😀\n\t", "%41"] {
        assert_eq!(percent_decode(&url_encode(s)), s);
    }
}

#[test]
fn upload_request_host_is_under_myqcloud_and_repeatable() {
    let mut c = credential();
    c.bucket_name = "weird bucket".to_string();
    c.region = "".to_string();
    let a = cos_upload_request(&c, 7, -3);
    let b = cos_upload_request(&c, 7, -3);
    assert!(a.host.ends_with(".myqcloud.com"));
    assert_eq!(a.host, "weird bucket.cos..myqcloud.com");
    assert_eq!((a.url, a.host, a.authorization, a.security_token, a.content_length), (b.url, b.host, b.authorization, b.security_token, b.content_length));
}

#[test]
fn authorization_signature_is_forty_lowercase_hex_digits() {
    let auth = build_authorization("AKID", "sk", "PUT", "/a.pdf", 3, "b-1.cos.ap-g.myqcloud.com", 100, 3700);
    let prefix = "q-sign-algorithm=sha1&q-ak=AKID&q-sign-time=100;3700&q-key-time=100;3700&q-header-list=content-length;host&q-url-param-list=&q-signature=";
    assert!(auth.starts_with(prefix));
    let sig = &auth[prefix.len()..];
    assert_eq!(sig.len(), 40);
    assert!(sig.chars().all(|c| c.is_ascii_digit() || ('a'..='f').contains(&c)));
}
