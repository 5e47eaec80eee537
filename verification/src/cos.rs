//! COS (Cloud Object Storage) upload: the request signature, URL encoding,
//! and the request and outcome of a PUT upload with temporary credentials.

use vstd::prelude::*;
use vstd::utf8::{decode_utf8, encode_scalar, encode_utf8};

use hex::ToHex;
use hmac::Mac;

use crate::api::{CosCredential, http_success, is_success, status_line, status_text};
use crate::error::Error;
use crate::text::{decimal, lowercase, push_char, signed_decimal, to_lowercase, u64_to_decimal, i64_to_decimal};

verus! {

// ---------------------------------------------------------------------------
// Digests
// ---------------------------------------------------------------------------

/// The HMAC-SHA1 tag of `data` under `key`.
pub uninterp spec fn hmac_sha1_tag(key: Seq<u8>, data: Seq<u8>) -> Seq<u8>;

/// The SHA-1 digest of `data`.
pub uninterp spec fn sha1_digest(data: Seq<u8>) -> Seq<u8>;

/// `hmac::Hmac::<sha1::Sha1>` keyed with `key` (`new_from_slice`, which takes
/// a key of any length), fed `data` (`update`) and finalized. Claimed: the
/// tag is a function of key and data, and is 20 bytes long (the SHA-1 output
/// size).
#[verifier::external_body]
fn hmac_sha1_raw(key: &[u8], data: &[u8]) -> (tag: Vec<u8>)
    ensures
        tag@ == hmac_sha1_tag(key@, data@),
        tag@.len() == 20,
{
    let mut mac = <hmac::Hmac<sha1::Sha1> as Mac>::new_from_slice(key).expect("HMAC can take key of any size");
    mac.update(data);
    mac.finalize().into_bytes().to_vec()
}

/// `<sha1::Sha1 as sha1::Digest>::digest`. Claimed: the digest is a function of
/// the data, and is 20 bytes long.
#[verifier::external_body]
fn sha1_raw(data: &[u8]) -> (d: Vec<u8>)
    ensures
        d@ == sha1_digest(data@),
        d@.len() == 20,
{
    <sha1::Sha1 as sha1::Digest>::digest(data).to_vec()
}

/// A lowercase hexadecimal digit.
pub open spec fn hex_digit_lower(n: int) -> char {
    if n < 10 {
        (n + 48) as char
    } else {
        (n + 87) as char
    }
}

/// Lowercase hexadecimal notation of bytes, two digits per byte.
pub open spec fn hex_lower(bytes: Seq<u8>) -> Seq<char>
    decreases bytes.len(),
{
    if bytes.len() == 0 {
        Seq::<char>::empty()
    } else {
        hex_lower(bytes.drop_last()) + seq![
            hex_digit_lower((bytes.last() / 16) as int),
            hex_digit_lower((bytes.last() % 16) as int),
        ]
    }
}

/// `hex::ToHex::encode_hex::<String>`. Claimed: two lowercase hexadecimal
/// digits per byte, high nibble first, as the crate's source writes them.
#[verifier::external_body]
fn hex_encode(data: &[u8]) -> (s: String)
    ensures
        s@ == hex_lower(data@),
{
    data.encode_hex::<String>()
}

/// Hexadecimal notation is two characters per byte.
pub proof fn lemma_hex_lower_len(bytes: Seq<u8>)
    ensures
        hex_lower(bytes).len() == 2 * bytes.len(),
    decreases bytes.len(),
{
    if bytes.len() > 0 {
        lemma_hex_lower_len(bytes.drop_last());
    }
}

/// A lowercase hexadecimal digit: `0` to `9` or `a` to `f`.
pub open spec fn is_lower_hex_digit(c: char) -> bool {
    let u = c as u32;
    48 <= u <= 57 || 97 <= u <= 102
}

/// Hexadecimal notation uses lowercase hexadecimal digits only.
pub proof fn lemma_hex_lower_digits(bytes: Seq<u8>)
    ensures
        forall|i: int| 0 <= i < hex_lower(bytes).len() ==> is_lower_hex_digit(#[trigger] hex_lower(bytes)[i]),
    decreases bytes.len(),
{
    if bytes.len() > 0 {
        lemma_hex_lower_digits(bytes.drop_last());
        let prev = hex_lower(bytes.drop_last());
        let b = bytes.last();
        assert forall|i: int| 0 <= i < hex_lower(bytes).len() implies is_lower_hex_digit(
            #[trigger] hex_lower(bytes)[i],
        ) by {
            if i >= prev.len() {
                assert(b / 16 < 16 && b % 16 < 16);
            } else {
                assert(hex_lower(bytes)[i] == prev[i]);
            }
        }
    }
}

/// Compute HMAC-SHA1.
pub fn hmac_sha1(key: &[u8], data: &[u8]) -> (tag: Vec<u8>)
    ensures
        tag@ == hmac_sha1_tag(key@, data@),
        tag@.len() == 20,
{
    hmac_sha1_raw(key, data)
}

/// Compute the SHA1 hash of `data` in lowercase hex.
pub fn sha1_hex(data: &[u8]) -> (s: String)
    ensures
        s@ == hex_lower(sha1_digest(data@)),
        s@.len() == 40,
{
    let digest = sha1_raw(data);
    let s = hex_encode(digest.as_slice());
    proof {
        lemma_hex_lower_len(digest@);
    }
    s
}

// ---------------------------------------------------------------------------
// URL encoding
// ---------------------------------------------------------------------------

/// Characters left as they are by URL encoding: ASCII letters and digits,
/// `-`, `_`, `.` and `~`.
pub open spec fn is_unreserved(c: char) -> bool {
    let u = c as u32;
    ||| 97 <= u <= 122
    ||| 65 <= u <= 90
    ||| 48 <= u <= 57
    ||| u == 45
    ||| u == 95
    ||| u == 46
    ||| u == 126
}

/// An uppercase hexadecimal digit.
pub open spec fn hex_digit_upper(n: int) -> char {
    if n < 10 {
        (n + 48) as char
    } else {
        (n + 55) as char
    }
}

/// Each byte written as `%` and two uppercase hexadecimal digits.
pub open spec fn percent_encoded(bytes: Seq<u8>) -> Seq<char>
    decreases bytes.len(),
{
    if bytes.len() == 0 {
        Seq::<char>::empty()
    } else {
        percent_encoded(bytes.drop_last()) + seq![
            '%',
            hex_digit_upper((bytes.last() / 16) as int),
            hex_digit_upper((bytes.last() % 16) as int),
        ]
    }
}

/// The URL encoding of one character: itself when unreserved, otherwise its
/// UTF-8 bytes percent-encoded.
pub open spec fn url_encode_char(c: char) -> Seq<char> {
    if is_unreserved(c) {
        seq![c]
    } else {
        percent_encoded(encode_scalar(c as u32))
    }
}

/// The URL encoding of a string, character by character.
pub open spec fn url_encoded(s: Seq<char>) -> Seq<char>
    decreases s.len(),
{
    if s.len() == 0 {
        Seq::<char>::empty()
    } else {
        url_encoded(s.drop_last()) + url_encode_char(s.last())
    }
}

fn hex_upper_digit(n: u8) -> (c: char)
    requires
        n < 16,
    ensures
        c == hex_digit_upper(n as int),
{
    if n < 10 {
        (n + 48) as char
    } else {
        (n + 55) as char
    }
}

/// The UTF-8 bytes of a character.
pub fn utf8_bytes(c: char) -> (v: Vec<u8>)
    ensures
        v@ == encode_scalar(c as u32),
{
    let u = c as u32;
    proof {
        vstd::utf8::char_is_scalar(c);
    }
    if u <= 0x7F {
        vec![(u & 0x7F) as u8]
    } else if u <= 0x7FF {
        vec![0xC0 | ((u >> 6) & 0x1F) as u8, 0x80 | (u & 0x3F) as u8]
    } else if u <= 0xFFFF {
        vec![0xE0 | ((u >> 12) & 0x0F) as u8, 0x80 | ((u >> 6) & 0x3F) as u8, 0x80 | (u & 0x3F) as u8]
    } else {
        vec![
            0xF0 | ((u >> 18) & 0x7) as u8,
            0x80 | ((u >> 12) & 0x3F) as u8,
            0x80 | ((u >> 6) & 0x3F) as u8,
            0x80 | (u & 0x3F) as u8,
        ]
    }
}

fn push_percent_encoded(out: &mut String, bytes: &Vec<u8>)
    ensures
        final(out)@ == old(out)@ + percent_encoded(bytes@),
{
    let ghost start = out@;
    let mut i: usize = 0;
    assert(bytes@.take(0) =~= Seq::<u8>::empty());
    while i < bytes.len()
        invariant
            i <= bytes@.len(),
            out@ == start + percent_encoded(bytes@.take(i as int)),
        decreases bytes@.len() - i,
    {
        let b = bytes[i];
        push_char(out, '%');
        push_char(out, hex_upper_digit(b / 16));
        push_char(out, hex_upper_digit(b % 16));
        assert(bytes@.take(i + 1).drop_last() =~= bytes@.take(i as int));
        i = i + 1;
        assert(out@ =~= start + percent_encoded(bytes@.take(i as int)));
    }
    assert(bytes@.take(i as int) =~= bytes@);
}

/// URL encode a string: unreserved characters stay, every other character
/// becomes its UTF-8 bytes, each written `%XX` in uppercase hexadecimal.
pub fn url_encode(s: &str) -> (r: String)
    ensures
        r@ == url_encoded(s@),
{
    let mut result = String::new();
    for c in it: s.chars()
        invariant
            it.seq() == s@,
            result@ == url_encoded(it.seq().take(it.index() as int)),
    {
        let ghost before = result@;
        let ghost i = it.index();
        let code = c as u32;
        if (97 <= code && code <= 122) || (65 <= code && code <= 90) || (48 <= code && code <= 57)
            || code == 45 || code == 95 || code == 46 || code == 126 {
            push_char(&mut result, c);
        } else {
            let bytes = utf8_bytes(c);
            push_percent_encoded(&mut result, &bytes);
        }
        assert(it.seq().take(i + 1).drop_last() =~= it.seq().take(i as int));
        assert(it.seq().take(i + 1).last() == c);
        assert(result@ =~= url_encoded(it.seq().take(i + 1)));
    }
    assert(s@.take(s@.len() as int) =~= s@);
    result
}

/// URL encoding works character by character: the encoding of a
/// concatenation is the concatenation of the encodings.
pub proof fn lemma_url_encoded_concat(a: Seq<char>, b: Seq<char>)
    ensures
        url_encoded(a + b) == url_encoded(a) + url_encoded(b),
    decreases b.len(),
{
    if b.len() == 0 {
        assert(a + b =~= a);
        assert(url_encoded(a) + url_encoded(b) =~= url_encoded(a));
    } else {
        assert((a + b).drop_last() =~= a + b.drop_last());
        lemma_url_encoded_concat(a, b.drop_last());
        assert(url_encoded(a + b) =~= url_encoded(a) + url_encoded(b));
    }
}

/// A string of unreserved characters is its own URL encoding.
pub proof fn lemma_url_encoded_unreserved(s: Seq<char>)
    requires
        forall|i: int| 0 <= i < s.len() ==> is_unreserved(#[trigger] s[i]),
    ensures
        url_encoded(s) == s,
    decreases s.len(),
{
    if s.len() > 0 {
        lemma_url_encoded_unreserved(s.drop_last());
        assert(is_unreserved(s[s.len() - 1]));
        assert(url_encoded(s) =~= s);
    }
}

/// URL encoding keeps exactly the ASCII letters, the digits, `-`, `_`, `.`
/// and `~`: each of them is its own encoding, so a string made of them comes
/// back unchanged; every other character becomes `%` and two hexadecimal
/// digits for each of its UTF-8 bytes.
pub proof fn lemma_url_encoding_keeps_letters_and_digits(s: Seq<char>, c: char)
    ensures
        ('a' <= c <= 'z' || 'A' <= c <= 'Z' || '0' <= c <= '9' || c == '-' || c == '_' || c == '.' || c == '~')
            ==> url_encoded(seq![c]) == seq![c],
        !('a' <= c <= 'z' || 'A' <= c <= 'Z' || '0' <= c <= '9' || c == '-' || c == '_' || c == '.' || c == '~')
            ==> url_encoded(seq![c]).len() == 3 * encode_scalar(c as u32).len() && url_encoded(seq![c])[0] == '%',
        (forall|i: int|
            0 <= i < s.len() ==> {
                let d = #[trigger] s[i];
                'a' <= d <= 'z' || 'A' <= d <= 'Z' || '0' <= d <= '9' || d == '-' || d == '_' || d == '.' || d == '~'
            }) ==> url_encoded(s) == s,
{
    assert(seq![c].drop_last() =~= Seq::<char>::empty());
    assert(seq![c].last() == c);
    assert(url_encoded(Seq::<char>::empty()) == Seq::<char>::empty());
    assert(url_encoded(seq![c]) =~= url_encode_char(c));
    if !is_unreserved(c) {
        lemma_percent_encoded_shape(encode_scalar(c as u32));
        vstd::utf8::char_is_scalar(c);
    }
    if forall|i: int|
        0 <= i < s.len() ==> {
            let d = #[trigger] s[i];
            'a' <= d <= 'z' || 'A' <= d <= 'Z' || '0' <= d <= '9' || d == '-' || d == '_' || d == '.' || d == '~'
        } {
        lemma_url_encoded_unreserved(s);
    }
}

proof fn lemma_percent_encoded_shape(bytes: Seq<u8>)
    ensures
        percent_encoded(bytes).len() == 3 * bytes.len(),
        bytes.len() > 0 ==> percent_encoded(bytes)[0] == '%',
    decreases bytes.len(),
{
    if bytes.len() > 0 {
        lemma_percent_encoded_shape(bytes.drop_last());
        if bytes.len() > 1 {
            assert(percent_encoded(bytes)[0] == percent_encoded(bytes.drop_last())[0]);
        } else {
            assert(bytes.drop_last() =~= Seq::<u8>::empty());
        }
    }
}

proof fn lemma_percent_encoded_safe(bytes: Seq<u8>)
    ensures
        forall|i: int| 0 <= i < percent_encoded(bytes).len() ==> {
            let c = #[trigger] percent_encoded(bytes)[i];
            is_unreserved(c) || c == '%'
        },
    decreases bytes.len(),
{
    if bytes.len() > 0 {
        lemma_percent_encoded_safe(bytes.drop_last());
        let prev = percent_encoded(bytes.drop_last());
        let b = bytes.last();
        assert forall|i: int| 0 <= i < percent_encoded(bytes).len() implies {
            let c = #[trigger] percent_encoded(bytes)[i];
            is_unreserved(c) || c == '%'
        } by {
            if i >= prev.len() {
                assert(b / 16 < 16 && b % 16 < 16);
            } else {
                assert(percent_encoded(bytes)[i] == prev[i]);
            }
        }
    }
}

/// The URL encoding of any string holds only unreserved characters and `%`.
pub proof fn lemma_url_encoded_safe(s: Seq<char>)
    ensures
        forall|i: int| 0 <= i < url_encoded(s).len() ==> {
            let c = #[trigger] url_encoded(s)[i];
            is_unreserved(c) || c == '%'
        },
    decreases s.len(),
{
    if s.len() > 0 {
        lemma_url_encoded_safe(s.drop_last());
        let prev = url_encoded(s.drop_last());
        let c = s.last();
        if !is_unreserved(c) {
            lemma_percent_encoded_safe(encode_scalar(c as u32));
        }
        assert forall|i: int| 0 <= i < url_encoded(s).len() implies {
            let d = #[trigger] url_encoded(s)[i];
            is_unreserved(d) || d == '%'
        } by {
            if i >= prev.len() {
                assert(url_encoded(s)[i] == url_encode_char(c)[i - prev.len()]);
            } else {
                assert(url_encoded(s)[i] == prev[i]);
            }
        }
    }
}


/// A hexadecimal digit, in either case.
pub open spec fn is_hex_digit(c: char) -> bool {
    let u = c as u32;
    ||| 48 <= u <= 57
    ||| 65 <= u <= 70
    ||| 97 <= u <= 102
}

/// The value of a hexadecimal digit.
pub open spec fn hex_value(c: char) -> int {
    let u = c as u32;
    if 48 <= u <= 57 {
        u - 48
    } else if 65 <= u <= 70 {
        u - 55
    } else {
        u - 87
    }
}

/// Percent-decoding, left to right: `%` and two hexadecimal digits give the
/// byte they write; any other character gives its UTF-8 bytes.
pub open spec fn url_decoded(s: Seq<char>) -> Seq<u8>
    decreases s.len(),
{
    if s.len() == 0 {
        Seq::<u8>::empty()
    } else if s.len() >= 3 && s[0] == '%' && is_hex_digit(s[1]) && is_hex_digit(s[2]) {
        seq![(hex_value(s[1]) * 16 + hex_value(s[2])) as u8] + url_decoded(s.skip(3))
    } else {
        encode_scalar(s[0] as u32) + url_decoded(s.skip(1))
    }
}

proof fn lemma_hex_digit_upper_value(n: int)
    requires
        0 <= n < 16,
    ensures
        is_hex_digit(hex_digit_upper(n)),
        hex_value(hex_digit_upper(n)) == n,
{
}

proof fn lemma_percent_encoded_concat(a: Seq<u8>, b: Seq<u8>)
    ensures
        percent_encoded(a + b) == percent_encoded(a) + percent_encoded(b),
    decreases b.len(),
{
    if b.len() == 0 {
        assert(a + b =~= a);
        assert(percent_encoded(a) + percent_encoded(b) =~= percent_encoded(a));
    } else {
        assert((a + b).drop_last() =~= a + b.drop_last());
        lemma_percent_encoded_concat(a, b.drop_last());
        assert(percent_encoded(a + b) =~= percent_encoded(a) + percent_encoded(b));
    }
}

proof fn lemma_url_decoded_percent(bytes: Seq<u8>, rest: Seq<char>)
    ensures
        url_decoded(percent_encoded(bytes) + rest) == bytes + url_decoded(rest),
    decreases bytes.len(),
{
    if bytes.len() == 0 {
        assert(percent_encoded(bytes) + rest =~= rest);
        assert(bytes + url_decoded(rest) =~= url_decoded(rest));
    } else {
        let b0 = bytes[0];
        let tail = bytes.drop_first();
        assert(bytes =~= seq![b0] + tail);
        lemma_percent_encoded_concat(seq![b0], tail);
        assert(seq![b0].drop_last() =~= Seq::<u8>::empty());
        assert(seq![b0].last() == b0);
        assert(percent_encoded(Seq::<u8>::empty()) == Seq::<char>::empty());
        let hi = hex_digit_upper((b0 / 16) as int);
        let lo = hex_digit_upper((b0 % 16) as int);
        assert(percent_encoded(seq![b0]) =~= seq!['%', hi, lo]);
        lemma_hex_digit_upper_value((b0 / 16) as int);
        lemma_hex_digit_upper_value((b0 % 16) as int);
        let t = percent_encoded(bytes) + rest;
        assert(t =~= seq!['%', hi, lo] + (percent_encoded(tail) + rest));
        assert(t.skip(3) =~= percent_encoded(tail) + rest);
        assert(((b0 / 16) as int * 16 + (b0 % 16) as int) as u8 == b0);
        lemma_url_decoded_percent(tail, rest);
        assert(url_decoded(t) =~= bytes + url_decoded(rest));
    }
}

proof fn lemma_url_decoded_char(c: char, rest: Seq<char>)
    ensures
        url_decoded(url_encode_char(c) + rest) == encode_scalar(c as u32) + url_decoded(rest),
{
    if is_unreserved(c) {
        let t = seq![c] + rest;
        assert(t[0] == c);
        assert(t.skip(1) =~= rest);
    } else {
        lemma_url_decoded_percent(encode_scalar(c as u32), rest);
    }
}

/// Percent-decoding undoes URL encoding: decoding the URL encoding of a
/// string gives its UTF-8 bytes, and so, read as UTF-8, the string itself.
pub proof fn lemma_url_decode_round_trip(s: Seq<char>)
    ensures
        url_decoded(url_encoded(s)) == encode_utf8(s),
        decode_utf8(url_decoded(url_encoded(s))) == s,
    decreases s.len(),
{
    if s.len() == 0 {
        assert(url_encoded(s) =~= Seq::<char>::empty());
    } else {
        let c = s[0];
        let tail = s.drop_first();
        assert(s =~= seq![c] + tail);
        lemma_url_encoded_concat(seq![c], tail);
        assert(seq![c].drop_last() =~= Seq::<char>::empty());
        assert(seq![c].last() == c);
        assert(url_encoded(Seq::<char>::empty()) == Seq::<char>::empty());
        assert(url_encoded(seq![c]) =~= url_encode_char(c));
        lemma_url_decoded_char(c, url_encoded(tail));
        lemma_url_decode_round_trip(tail);
    }
    vstd::utf8::encode_utf8_decode_utf8(s);
}


// ---------------------------------------------------------------------------
// Request signature
// ---------------------------------------------------------------------------

/// The key time of a signature: `start;expired` in seconds.
pub open spec fn key_time(start_time: i64, expired_time: i64) -> Seq<char> {
    signed_decimal(start_time as int) + ";"@ + signed_decimal(expired_time as int)
}

/// The signed headers of a PUT: `content-length` and `host`, URL encoded.
pub open spec fn http_headers(content_length: usize, host: Seq<char>) -> Seq<char> {
    "content-length="@ + url_encoded(decimal(content_length as nat)) + "&host="@ + url_encoded(host)
}

/// `method\npathname\nparams\nheaders\n`, with no parameters.
pub open spec fn http_string(
    method: Seq<char>,
    pathname: Seq<char>,
    content_length: usize,
    host: Seq<char>,
) -> Seq<char> {
    lowercase(method) + "\n"@ + pathname + "\n\n"@ + http_headers(content_length, host) + "\n"@
}

/// `sha1\nKeyTime\nSHA1(HttpString)\n`.
pub open spec fn string_to_sign(key_time: Seq<char>, http_string: Seq<char>) -> Seq<char> {
    "sha1\n"@ + key_time + "\n"@ + hex_lower(sha1_digest(encode_utf8(http_string))) + "\n"@
}

/// The COS Authorization header value: SignKey is HMAC-SHA1(SecretKey, KeyTime)
/// written in lowercase hexadecimal, the signature is HMAC-SHA1 of
/// StringToSign keyed with the UTF-8 bytes of that text, and the key time is
/// given both as sign time and key time.
pub open spec fn cos_authorization(
    secret_id: Seq<char>,
    secret_key: Seq<char>,
    method: Seq<char>,
    pathname: Seq<char>,
    content_length: usize,
    host: Seq<char>,
    start_time: i64,
    expired_time: i64,
) -> Seq<char> {
    let kt = key_time(start_time, expired_time);
    let sign_key = hex_lower(hmac_sha1_tag(encode_utf8(secret_key), encode_utf8(kt)));
    let to_sign = string_to_sign(kt, http_string(method, pathname, content_length, host));
    let signature = hmac_sha1_tag(encode_utf8(sign_key), encode_utf8(to_sign));
    authorization_prefix(secret_id, kt) + hex_lower(signature)
}

/// The COS Authorization header value up to its signature.
pub open spec fn authorization_prefix(secret_id: Seq<char>, key_time: Seq<char>) -> Seq<char> {
    "q-sign-algorithm=sha1&q-ak="@ + secret_id + "&q-sign-time="@ + key_time + "&q-key-time="@ + key_time
        + "&q-header-list="@ + "content-length;host"@ + "&q-url-param-list=&q-signature="@
}

/// Build the COS Authorization header.
pub fn build_authorization(
    secret_id: &str,
    secret_key: &str,
    method: &str,
    pathname: &str,
    content_length: usize,
    host: &str,
    start_time: i64,
    expired_time: i64,
) -> (r: String)
    ensures
        r@ == cos_authorization(
            secret_id@,
            secret_key@,
            method@,
            pathname@,
            content_length,
            host@,
            start_time,
            expired_time,
        ),
        r@.len() == authorization_prefix(secret_id@, key_time(start_time, expired_time)).len() + 40,
        r@.subrange(0, r@.len() - 40) == authorization_prefix(secret_id@, key_time(start_time, expired_time)),
        forall|i: int| r@.len() - 40 <= i < r@.len() ==> is_lower_hex_digit(#[trigger] r@[i]),
{
    let mut kt = i64_to_decimal(start_time);
    kt.append(";");
    let expired = i64_to_decimal(expired_time);
    kt.append(expired.as_str());
    assert(kt@ =~= key_time(start_time, expired_time));

    // 1. SignKey = hex(HMAC-SHA1(SecretKey, KeyTime))
    let sign_key_tag = hmac_sha1(secret_key.as_bytes(), kt.as_str().as_bytes());
    let sign_key = hex_encode(sign_key_tag.as_slice());

    // 2. Signed headers: content-length and host
    let length_text = u64_to_decimal(content_length as u64);
    let mut headers = String::from_str("content-length=");
    let encoded_length = url_encode(length_text.as_str());
    headers.append(encoded_length.as_str());
    headers.append("&host=");
    let encoded_host = url_encode(host);
    headers.append(encoded_host.as_str());
    assert(headers@ =~= http_headers(content_length, host@));

    // 3. HttpString = method\npathname\nparams\nheaders\n
    let mut http = to_lowercase(method);
    http.append("\n");
    http.append(pathname);
    http.append("\n\n");
    http.append(headers.as_str());
    http.append("\n");
    assert(http@ =~= http_string(method@, pathname@, content_length, host@));

    // 4. StringToSign = sha1\nKeyTime\nSHA1(HttpString)\n
    let mut to_sign = String::from_str("sha1\n");
    to_sign.append(kt.as_str());
    to_sign.append("\n");
    let digest = sha1_hex(http.as_str().as_bytes());
    to_sign.append(digest.as_str());
    to_sign.append("\n");
    assert(to_sign@ =~= string_to_sign(kt@, http@));

    // 5. Signature = HMAC-SHA1(SignKey, StringToSign), keyed with the SignKey text
    let signature = hmac_sha1(sign_key.as_str().as_bytes(), to_sign.as_str().as_bytes());
    let signature_hex = hex_encode(signature.as_slice());
    proof {
        lemma_hex_lower_len(signature@);
        lemma_hex_lower_digits(signature@);
    }

    // 6. Authorization header
    let mut r = String::from_str("q-sign-algorithm=sha1&q-ak=");
    r.append(secret_id);
    r.append("&q-sign-time=");
    r.append(kt.as_str());
    r.append("&q-key-time=");
    r.append(kt.as_str());
    r.append("&q-header-list=");
    r.append("content-length;host");
    r.append("&q-url-param-list=&q-signature=");
    r.append(signature_hex.as_str());
    assert(r@ =~= cos_authorization(
        secret_id@,
        secret_key@,
        method@,
        pathname@,
        content_length,
        host@,
        start_time,
        expired_time,
    ));
    let ghost prefix = authorization_prefix(secret_id@, kt@);
    assert(r@ =~= prefix + signature_hex@);
    assert(r@.subrange(0, r@.len() - 40) =~= prefix);
    assert forall|i: int| r@.len() - 40 <= i < r@.len() implies is_lower_hex_digit(#[trigger] r@[i]) by {
        assert(r@[i] == signature_hex@[i - prefix.len()]);
    }
    r
}

// ---------------------------------------------------------------------------
// Upload
// ---------------------------------------------------------------------------

/// A signed PUT of a file's content to COS.
#[derive(Debug)]
pub struct CosUploadRequest {
    /// `https://{host}{pathname}`
    pub url: String,
    /// `{bucket}.cos.{region}.myqcloud.com`
    pub host: String,
    /// The Authorization header value
    pub authorization: String,
    /// The `x-cos-security-token` header value
    pub security_token: String,
    /// The Content-Length header value
    pub content_length: usize,
}

/// Validity of a signature, in seconds.
pub const SIGNATURE_VALIDITY_SECS: i64 = 3600;

/// The COS host of a bucket in a region.
pub open spec fn cos_host(bucket: Seq<char>, region: Seq<char>) -> Seq<char> {
    bucket + ".cos."@ + region + ".myqcloud.com"@
}

/// Whether `r` is the request that uploads `content_length` bytes with a
/// temporary credential, signed at `start_time` for one hour.
pub open spec fn upload_request_of(
    credential: CosCredential,
    content_length: usize,
    start_time: i64,
    r: CosUploadRequest,
) -> bool {
    &&& r.host@ == cos_host(credential.bucket_name@, credential.region@)
    &&& r.url@ == "https://"@ + r.host@ + "/"@ + credential.cos_key@
    &&& r.authorization@ == cos_authorization(
        credential.secret_id@,
        credential.secret_key@,
        "PUT"@,
        "/"@ + credential.cos_key@,
        content_length,
        r.host@,
        start_time,
        (start_time + SIGNATURE_VALIDITY_SECS) as i64,
    )
    &&& r.security_token@ == credential.token@
    &&& r.content_length == content_length
}

/// Every COS host is under `myqcloud.com`.
pub proof fn lemma_cos_host_suffix(bucket: Seq<char>, region: Seq<char>)
    ensures
        cos_host(bucket, region).len() >= 13,
        cos_host(bucket, region).subrange(
            cos_host(bucket, region).len() - 13,
            cos_host(bucket, region).len() as int,
        ) == ".myqcloud.com"@,
{
    let h = cos_host(bucket, region);
    reveal_strlit(".myqcloud.com");
    assert(h.subrange(h.len() - 13, h.len() as int) =~= ".myqcloud.com"@);
}

/// The upload request depends on the credential, the content length and the
/// signing time alone: two requests made from the same three are the same.
pub proof fn lemma_upload_request_determined(
    credential: CosCredential,
    content_length: usize,
    start_time: i64,
    r1: CosUploadRequest,
    r2: CosUploadRequest,
)
    requires
        upload_request_of(credential, content_length, start_time, r1),
        upload_request_of(credential, content_length, start_time, r2),
    ensures
        r1.url@ == r2.url@,
        r1.host@ == r2.host@,
        r1.authorization@ == r2.authorization@,
        r1.security_token@ == r2.security_token@,
        r1.content_length == r2.content_length,
{
}

/// The request that uploads `content_length` bytes with a temporary
/// credential, signed at `start_time` for one hour. The signature expires at
/// `start_time + 3600`, so `start_time` leaves room for that sum in an `i64`.
pub fn cos_upload_request(credential: &CosCredential, content_length: usize, start_time: i64) -> (r: CosUploadRequest)
    requires
        start_time <= i64::MAX - SIGNATURE_VALIDITY_SECS,
    ensures
        upload_request_of(*credential, content_length, start_time, r),
{
    let mut host = String::from_str(credential.bucket_name.as_str());
    host.append(".cos.");
    host.append(credential.region.as_str());
    host.append(".myqcloud.com");
    let mut pathname = String::from_str("/");
    pathname.append(credential.cos_key.as_str());
    let expired_time = start_time + SIGNATURE_VALIDITY_SECS;
    let authorization = build_authorization(
        credential.secret_id.as_str(),
        credential.secret_key.as_str(),
        "PUT",
        pathname.as_str(),
        content_length,
        host.as_str(),
        start_time,
        expired_time,
    );
    let mut url = String::from_str("https://");
    url.append(host.as_str());
    url.append(pathname.as_str());
    assert(url@ =~= "https://"@ + host@ + "/"@ + credential.cos_key@);
    CosUploadRequest {
        url,
        host,
        authorization,
        security_token: credential.token.clone(),
        content_length,
    }
}

/// The outcome of a COS upload from its response: success on a 2xx status,
/// otherwise `CosUploadFailed` with the status and the response body.
pub fn cos_upload_outcome(status: u16, body: &str) -> (r: Result<(), Error>)
    requires
        100 <= status <= 999,
    ensures
        is_success(status) ==> r is Ok,
        !is_success(status) ==> (r matches Err(Error::CosUploadFailed(m)) && m@
            == "COS upload failed (HTTP "@ + status_line(status) + "): "@ + body@),
{
    if http_success(status) {
        return Ok(());
    }
    let mut m = String::from_str("COS upload failed (HTTP ");
    let st = status_text(status);
    m.append(st.as_str());
    m.append("): ");
    m.append(body);
    Err(Error::CosUploadFailed(m))
}

} // verus!
