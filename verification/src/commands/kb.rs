//! Knowledge base commands: file type and size rules, the upload plan, and
//! the parsing of command arguments.

use vstd::prelude::*;

use crate::api::{AddKnowledgeParams, CheckRepeatedNameParam, CheckRepeatedNamesParams, CreateMediaParams, FileInfo};
use crate::config::{opt_view, opt_str_view};
use crate::error::Error;
use crate::text::{
    ascii_lowercase, contains, decimal, is_ascii_text, digit_char, has_prefix, has_substring, occurs_at, lowercase, parse_i32, parse_i32_spec,
    push_char, push_decimal, split_on, split_str, starts_with, str_equal, to_lowercase, trim, trim_str,
};

verus! {

/// One megabyte.
pub const MB: u64 = 1048576;

/// One kilobyte.
pub const KB: u64 = 1024;

/// Integers below this bound are exact as `f64`.
pub const F64_EXACT_BOUND: u64 = 0x20_0000_0000_0000;

/// `n / d` rounded to the nearest integer, ties to even.
pub open spec fn rounded_quotient(n: nat, d: nat) -> nat {
    let q = n / d;
    let r = n % d;
    if 2 * r > d || (2 * r == d && q % 2 == 1) {
        q + 1
    } else {
        q
    }
}

/// The spacing of `f64` values around `n` (1 below 2^53, doubling with each
/// further bit).
pub open spec fn f64_ulp(n: nat) -> nat
    decreases n,
{
    if n < F64_EXACT_BOUND {
        1
    } else {
        2 * f64_ulp(n / 2)
    }
}

/// The value of `n as f64`: `n` rounded to a multiple of its spacing,
/// ties to even.
pub open spec fn f64_of(n: nat) -> nat {
    rounded_quotient(n, f64_ulp(n)) * f64_ulp(n)
}

/// `x / unit` written with one decimal (`{:.1}`), rounding ties to even.
pub open spec fn one_decimal(x: nat, unit: nat) -> Seq<char> {
    let t = rounded_quotient(x * 10, unit);
    decimal(t / 10) + "."@ + seq![digit_char((t % 10) as int)]
}

/// A size for display: MB or KB with one decimal, or plain bytes.
pub open spec fn format_size_spec(bytes: u64) -> Seq<char> {
    if bytes >= MB {
        one_decimal(f64_of(bytes as nat), MB as nat) + " MB"@
    } else if bytes >= KB {
        one_decimal(f64_of(bytes as nat), KB as nat) + " KB"@
    } else {
        decimal(bytes as nat) + " B"@
    }
}

fn rounded_div(n: u128, d: u128) -> (q: u128)
    requires
        0 < d <= 0x1_0000_0000_0000_0000,
        n < 0x10_0000_0000_0000_0000_0000_0000,
    ensures
        q == rounded_quotient(n as nat, d as nat),
        q <= n / d + 1,
{
    let q = n / d;
    let r = n % d;
    if 2 * r > d || (2 * r == d && q % 2 == 1) {
        q + 1
    } else {
        q
    }
}

/// The value of `n as f64`, exactly.
fn f64_value(n: u64) -> (x: u128)
    ensures
        x == f64_of(n as nat),
        x <= 2 * (n as nat),
{
    let mut ulp: u128 = 1;
    let mut m: u64 = n;
    while m >= F64_EXACT_BOUND
        invariant
            1 <= ulp <= 0x1_0000_0000_0000_0000,
            ulp == 1 || ulp <= n,
            m == n as nat / ulp as nat,
            f64_ulp(n as nat) == ulp * f64_ulp(m as nat),
        decreases m,
    {
        proof {
            vstd::arithmetic::div_mod::lemma_div_denominator(n as int, ulp as int, 2);
            let m2 = (m / 2) as nat;
            assert(f64_ulp(m as nat) == 2 * f64_ulp(m2));
            assert(ulp * (2 * f64_ulp(m2)) == (ulp * 2) * f64_ulp(m2)) by (nonlinear_arith);
            assert(m2 >= 1);
            assert(n as nat / (ulp as nat * 2) >= 1);
            assert((ulp * 2) <= n) by (nonlinear_arith)
                requires
                    n as nat / (ulp as nat * 2) >= 1,
                    ulp >= 1,
            {
                vstd::arithmetic::div_mod::lemma_fundamental_div_mod(n as int, ulp as int * 2);
            }
        }
        m = m / 2;
        ulp = ulp * 2;
    }
    assert(f64_ulp(m as nat) == 1);
    assert(ulp * f64_ulp(m as nat) == ulp) by (nonlinear_arith)
        requires
            f64_ulp(m as nat) == 1,
    {
    }
    let q = rounded_div(n as u128, ulp);
    proof {
        vstd::arithmetic::div_mod::lemma_fundamental_div_mod(n as int, ulp as int);
        assert((n as nat / ulp as nat) * ulp as nat <= n) by (nonlinear_arith)
            requires
                (n as int) == ulp as int * (n as int / ulp as int) + (n as int % ulp as int),
                0 <= n as int % ulp as int,
                n as int / ulp as int >= 0,
        {
        }
        if ulp == 1 {
            assert(q == n);
        } else {
            assert(q * ulp <= 2 * (n as nat)) by (nonlinear_arith)
                requires
                    q <= n as nat / ulp as nat + 1,
                    (n as nat / ulp as nat) * ulp as nat <= n,
                    ulp <= n,
            {
            }
        }
    }
    q * ulp
}

fn push_one_decimal(out: &mut String, x: u128, unit: u128)
    requires
        unit == MB || unit == KB,
        x <= 2 * (u64::MAX as nat),
    ensures
        final(out)@ == old(out)@ + one_decimal(x as nat, unit as nat),
{
    let t = rounded_div(x * 10, unit);
    proof {
        assert((x * 10) as nat / (unit as nat) <= (x * 10) as nat / 1024) by (nonlinear_arith)
            requires
                unit >= 1024,
        {
            vstd::arithmetic::div_mod::lemma_div_is_ordered_by_denominator(
                (x * 10) as int,
                1024,
                unit as int,
            );
        }
        assert((x * 10) as nat / 1024 <= 0x1000_0000_0000_0000) by (nonlinear_arith)
            requires
                x <= 2 * (u64::MAX as nat),
        {
        }
    }
    let whole = t / 10;
    let tenth = t % 10;
    push_decimal(out, whole as u64);
    out.append(".");
    push_char(out, crate::text::digit_of_u64(tenth as u64));
}

/// Format file size for display: MB or KB with one decimal, rounding ties
/// to even as `{:.1}` does on the `f64` quotient, or plain bytes.
pub fn format_size(bytes: u64) -> (s: String)
    ensures
        s@ == format_size_spec(bytes),
{
    if bytes >= MB {
        let x = f64_value(bytes);
        let mut s = String::new();
        push_one_decimal(&mut s, x, MB as u128);
        s.append(" MB");
        assert(s@ =~= format_size_spec(bytes));
        s
    } else if bytes >= KB {
        let x = f64_value(bytes);
        let mut s = String::new();
        push_one_decimal(&mut s, x, KB as u128);
        s.append(" KB");
        assert(s@ =~= format_size_spec(bytes));
        s
    } else {
        let mut s = String::new();
        push_decimal(&mut s, bytes);
        s.append(" B");
        assert(s@ =~= format_size_spec(bytes));
        s
    }
}


// ---------------------------------------------------------------------------
// File types and size limits
// ---------------------------------------------------------------------------

/// The media type of a (lowercase) file extension, or 0 when it names none.
pub open spec fn media_type_by_extension(ext: Seq<char>) -> i32 {
    if ext == "pdf"@ {
        1
    } else if ext == "doc"@ || ext == "docx"@ {
        3
    } else if ext == "ppt"@ || ext == "pptx"@ {
        4
    } else if ext == "xls"@ || ext == "xlsx"@ || ext == "csv"@ {
        5
    } else if ext == "md"@ || ext == "markdown"@ {
        7
    } else if ext == "png"@ || ext == "jpg"@ || ext == "jpeg"@ || ext == "webp"@ || ext == "gif"@ {
        9
    } else if ext == "txt"@ {
        13
    } else if ext == "xmind"@ {
        14
    } else if ext == "mp3"@ || ext == "m4a"@ || ext == "wav"@ || ext == "aac"@ {
        15
    } else {
        0
    }
}

/// The media type of a content type, or 0 when it names none.
pub open spec fn media_type_by_content_type(ct: Seq<char>) -> i32 {
    if has_prefix(ct, "application/pdf"@) {
        1
    } else if has_substring(ct, "word"@) || has_substring(ct, "document"@) {
        3
    } else if has_substring(ct, "powerpoint"@) || has_substring(ct, "presentation"@) {
        4
    } else if has_substring(ct, "excel"@) || has_substring(ct, "spreadsheet"@) || ct == "text/csv"@ {
        5
    } else if has_substring(ct, "markdown"@) {
        7
    } else if has_prefix(ct, "image/"@) {
        9
    } else if ct == "text/plain"@ {
        13
    } else if has_substring(ct, "xmind"@) || has_substring(ct, "zip"@) {
        14
    } else if has_prefix(ct, "audio/"@) {
        15
    } else {
        0
    }
}

/// The media type of a file: by its lowercase extension first, by its
/// content type when the extension names none; 0 when neither does.
pub open spec fn media_type_spec(ext_lower: Seq<char>, content_type: Seq<char>) -> i32 {
    if media_type_by_extension(ext_lower) != 0 {
        media_type_by_extension(ext_lower)
    } else {
        media_type_by_content_type(content_type)
    }
}

fn is_one_of(s: &str, a: &str, b: &str) -> (r: bool)
    ensures
        r == (s@ == a@ || s@ == b@),
{
    str_equal(s, a) || str_equal(s, b)
}

fn extension_media_type(ext: &str) -> (m: i32)
    ensures
        m == media_type_by_extension(ext@),
{
    if str_equal(ext, "pdf") {
        1
    } else if is_one_of(ext, "doc", "docx") {
        3
    } else if is_one_of(ext, "ppt", "pptx") {
        4
    } else if is_one_of(ext, "xls", "xlsx") || str_equal(ext, "csv") {
        5
    } else if is_one_of(ext, "md", "markdown") {
        7
    } else if is_one_of(ext, "png", "jpg") || is_one_of(ext, "jpeg", "webp") || str_equal(ext, "gif") {
        9
    } else if str_equal(ext, "txt") {
        13
    } else if str_equal(ext, "xmind") {
        14
    } else if is_one_of(ext, "mp3", "m4a") || is_one_of(ext, "wav", "aac") {
        15
    } else {
        0
    }
}

fn content_type_media_type(ct: &str) -> (m: i32)
    ensures
        m == media_type_by_content_type(ct@),
{
    if starts_with(ct, "application/pdf") {
        1
    } else if contains(ct, "word") || contains(ct, "document") {
        3
    } else if contains(ct, "powerpoint") || contains(ct, "presentation") {
        4
    } else if contains(ct, "excel") || contains(ct, "spreadsheet") || str_equal(ct, "text/csv") {
        5
    } else if contains(ct, "markdown") {
        7
    } else if starts_with(ct, "image/") {
        9
    } else if str_equal(ct, "text/plain") {
        13
    } else if contains(ct, "xmind") || contains(ct, "zip") {
        14
    } else if starts_with(ct, "audio/") {
        15
    } else {
        0
    }
}

/// The media type of a file from its lowercase extension and its content
/// type: by extension first, by content type otherwise, 0 for neither.
pub fn media_type_from(ext_lower: &str, content_type: &str) -> (m: i32)
    ensures
        m == media_type_spec(ext_lower@, content_type@),
{
    let by_ext = extension_media_type(ext_lower);
    if by_ext != 0 {
        by_ext
    } else {
        content_type_media_type(content_type)
    }
}

/// The detail of the error for a file type that names no media type.
pub open spec fn unsupported_type_detail(ext: Seq<char>, content_type: Seq<char>) -> Seq<char> {
    "Unsupported file type: extension="@ + ext + ", content_type="@ + content_type
}

/// Determine media type from file extension (lowercased) and content type.
pub fn determine_media_type(ext: &str, content_type: &str) -> (r: Result<i32, Error>)
    ensures
        media_type_spec(lowercase(ext@), content_type@) != 0 ==> r == Ok::<i32, Error>(
            media_type_spec(lowercase(ext@), content_type@),
        ),
        media_type_spec(lowercase(ext@), content_type@) == 0 ==> (r matches Err(
            Error::FileValidationFailed(m),
        ) && m@ == unsupported_type_detail(ext@, content_type@)),
        is_ascii_text(ext@) ==> lowercase(ext@) == ascii_lowercase(ext@),
{
    let lower = to_lowercase(ext);
    let media_type = media_type_from(lower.as_str(), content_type);
    if media_type == 0 {
        let mut m = String::from_str("Unsupported file type: extension=");
        m.append(ext);
        m.append(", content_type=");
        m.append(content_type);
        return Err(Error::FileValidationFailed(m));
    }
    Ok(media_type)
}

/// Extension matching ignores case: the ASCII lowercase of an ASCII
/// extension is ASCII and is its own lowercase, so an extension and its
/// lowercase name the same media type, whatever the content type.
pub proof fn lemma_media_type_ignores_case(ext: Seq<char>, content_type: Seq<char>)
    requires
        is_ascii_text(ext),
    ensures
        is_ascii_text(ascii_lowercase(ext)),
        ascii_lowercase(ascii_lowercase(ext)) == ascii_lowercase(ext),
        media_type_spec(ascii_lowercase(ascii_lowercase(ext)), content_type) == media_type_spec(
            ascii_lowercase(ext),
            content_type,
        ),
{
    let l = ascii_lowercase(ext);
    assert forall|i: int| 0 <= i < l.len() implies (#[trigger] l[i] as u32) < 128 by {
        assert((ext[i] as u32) < 128);
    }
    assert(ascii_lowercase(l) =~= l);
}

/// The size limit of a media type: 10 MB for spreadsheets, Markdown, text
/// and Xmind; 30 MB for images; 200 MB for everything else.
pub open spec fn size_limit_spec(media_type: i32) -> u64 {
    if media_type == 5 || media_type == 7 || media_type == 13 || media_type == 14 {
        (10 * MB) as u64
    } else if media_type == 9 {
        (30 * MB) as u64
    } else {
        (200 * MB) as u64
    }
}

/// The size limit of a media type, in bytes.
pub fn size_limit(media_type: i32) -> (limit: u64)
    ensures
        limit == size_limit_spec(media_type),
{
    if media_type == 5 || media_type == 7 || media_type == 13 || media_type == 14 {
        10 * MB
    } else if media_type == 9 {
        30 * MB
    } else {
        200 * MB
    }
}

/// The detail of the error for a file over its size limit.
pub open spec fn size_exceeded_detail(size: u64, limit: u64) -> Seq<char> {
    "File size "@ + format_size_spec(size) + " exceeds the "@ + format_size_spec(limit)
        + " limit for this file type"@
}

/// Check file size limits by media type.
pub fn check_file_size_limit(media_type: i32, size: u64) -> (r: Result<(), Error>)
    ensures
        size <= size_limit_spec(media_type) ==> r is Ok,
        size > size_limit_spec(media_type) ==> (r matches Err(Error::FileValidationFailed(m)) && m@
            == size_exceeded_detail(size, size_limit_spec(media_type))),
{
    let limit = size_limit(media_type);
    if size > limit {
        let mut m = String::from_str("File size ");
        let shown = format_size(size);
        m.append(shown.as_str());
        m.append(" exceeds the ");
        let shown_limit = format_size(limit);
        m.append(shown_limit.as_str());
        m.append(" limit for this file type");
        return Err(Error::FileValidationFailed(m));
    }
    Ok(())
}

/// A file accepted at some size is accepted at every smaller size.
pub proof fn lemma_size_limit_monotone(media_type: i32, size: u64, smaller: u64)
    requires
        smaller <= size,
        size <= size_limit_spec(media_type),
    ensures
        smaller <= size_limit_spec(media_type),
{
}

/// The documented extension table: each lowercase extension names its media
/// type whatever the content type (pdf 1; doc, docx 3; ppt, pptx 4; xls,
/// xlsx, csv 5; md, markdown 7; png, jpg, jpeg, webp, gif 9; txt 13; xmind
/// 14; mp3, m4a, wav, aac 15).
pub proof fn lemma_extension_table(content_type: Seq<char>)
    ensures
        media_type_spec("pdf"@, content_type) == 1,
        media_type_spec("doc"@, content_type) == 3,
        media_type_spec("docx"@, content_type) == 3,
        media_type_spec("ppt"@, content_type) == 4,
        media_type_spec("pptx"@, content_type) == 4,
        media_type_spec("xls"@, content_type) == 5,
        media_type_spec("xlsx"@, content_type) == 5,
        media_type_spec("csv"@, content_type) == 5,
        media_type_spec("md"@, content_type) == 7,
        media_type_spec("markdown"@, content_type) == 7,
        media_type_spec("png"@, content_type) == 9,
        media_type_spec("jpg"@, content_type) == 9,
        media_type_spec("jpeg"@, content_type) == 9,
        media_type_spec("webp"@, content_type) == 9,
        media_type_spec("gif"@, content_type) == 9,
        media_type_spec("txt"@, content_type) == 13,
        media_type_spec("xmind"@, content_type) == 14,
        media_type_spec("mp3"@, content_type) == 15,
        media_type_spec("m4a"@, content_type) == 15,
        media_type_spec("wav"@, content_type) == 15,
        media_type_spec("aac"@, content_type) == 15,
{
    reveal_strlit("pdf");
    reveal_strlit("doc");
    reveal_strlit("docx");
    reveal_strlit("ppt");
    reveal_strlit("pptx");
    reveal_strlit("xls");
    reveal_strlit("xlsx");
    reveal_strlit("csv");
    reveal_strlit("md");
    reveal_strlit("markdown");
    reveal_strlit("png");
    reveal_strlit("jpg");
    reveal_strlit("jpeg");
    reveal_strlit("webp");
    reveal_strlit("gif");
    reveal_strlit("txt");
    reveal_strlit("xmind");
    reveal_strlit("mp3");
    reveal_strlit("m4a");
    reveal_strlit("wav");
    reveal_strlit("aac");
    // Each entry differs from every entry before it, by length or by a character.
    assert("doc"@[0] != "pdf"@[0]);
    assert(
        "docx"@.len() != "pdf"@.len()
            && "docx"@.len() != "doc"@.len()
    );
    assert(
        "ppt"@[1] != "pdf"@[1]
            && "ppt"@[0] != "doc"@[0]
            && "ppt"@.len() != "docx"@.len()
    );
    assert(
        "pptx"@.len() != "pdf"@.len()
            && "pptx"@.len() != "doc"@.len()
            && "pptx"@[0] != "docx"@[0]
            && "pptx"@.len() != "ppt"@.len()
    );
    assert(
        "xls"@[0] != "pdf"@[0]
            && "xls"@[0] != "doc"@[0]
            && "xls"@.len() != "docx"@.len()
            && "xls"@[0] != "ppt"@[0]
            && "xls"@.len() != "pptx"@.len()
    );
    assert(
        "xlsx"@.len() != "pdf"@.len()
            && "xlsx"@.len() != "doc"@.len()
            && "xlsx"@[0] != "docx"@[0]
            && "xlsx"@.len() != "ppt"@.len()
            && "xlsx"@[0] != "pptx"@[0]
            && "xlsx"@.len() != "xls"@.len()
    );
    assert(
        "csv"@[0] != "pdf"@[0]
            && "csv"@[0] != "doc"@[0]
            && "csv"@.len() != "docx"@.len()
            && "csv"@[0] != "ppt"@[0]
            && "csv"@.len() != "pptx"@.len()
            && "csv"@[0] != "xls"@[0]
            && "csv"@.len() != "xlsx"@.len()
    );
    assert(
        "md"@.len() != "pdf"@.len()
            && "md"@.len() != "doc"@.len()
            && "md"@.len() != "docx"@.len()
            && "md"@.len() != "ppt"@.len()
            && "md"@.len() != "pptx"@.len()
            && "md"@.len() != "xls"@.len()
            && "md"@.len() != "xlsx"@.len()
            && "md"@.len() != "csv"@.len()
    );
    assert(
        "markdown"@.len() != "pdf"@.len()
            && "markdown"@.len() != "doc"@.len()
            && "markdown"@.len() != "docx"@.len()
            && "markdown"@.len() != "ppt"@.len()
            && "markdown"@.len() != "pptx"@.len()
            && "markdown"@.len() != "xls"@.len()
            && "markdown"@.len() != "xlsx"@.len()
            && "markdown"@.len() != "csv"@.len()
            && "markdown"@.len() != "md"@.len()
    );
    assert(
        "png"@[1] != "pdf"@[1]
            && "png"@[0] != "doc"@[0]
            && "png"@.len() != "docx"@.len()
            && "png"@[1] != "ppt"@[1]
            && "png"@.len() != "pptx"@.len()
            && "png"@[0] != "xls"@[0]
            && "png"@.len() != "xlsx"@.len()
            && "png"@[0] != "csv"@[0]
            && "png"@.len() != "md"@.len()
            && "png"@.len() != "markdown"@.len()
    );
    assert(
        "jpg"@[0] != "pdf"@[0]
            && "jpg"@[0] != "doc"@[0]
            && "jpg"@.len() != "docx"@.len()
            && "jpg"@[0] != "ppt"@[0]
            && "jpg"@.len() != "pptx"@.len()
            && "jpg"@[0] != "xls"@[0]
            && "jpg"@.len() != "xlsx"@.len()
            && "jpg"@[0] != "csv"@[0]
            && "jpg"@.len() != "md"@.len()
            && "jpg"@.len() != "markdown"@.len()
            && "jpg"@[0] != "png"@[0]
    );
    assert(
        "jpeg"@.len() != "pdf"@.len()
            && "jpeg"@.len() != "doc"@.len()
            && "jpeg"@[0] != "docx"@[0]
            && "jpeg"@.len() != "ppt"@.len()
            && "jpeg"@[0] != "pptx"@[0]
            && "jpeg"@.len() != "xls"@.len()
            && "jpeg"@[0] != "xlsx"@[0]
            && "jpeg"@.len() != "csv"@.len()
            && "jpeg"@.len() != "md"@.len()
            && "jpeg"@.len() != "markdown"@.len()
            && "jpeg"@.len() != "png"@.len()
            && "jpeg"@.len() != "jpg"@.len()
    );
    assert(
        "webp"@.len() != "pdf"@.len()
            && "webp"@.len() != "doc"@.len()
            && "webp"@[0] != "docx"@[0]
            && "webp"@.len() != "ppt"@.len()
            && "webp"@[0] != "pptx"@[0]
            && "webp"@.len() != "xls"@.len()
            && "webp"@[0] != "xlsx"@[0]
            && "webp"@.len() != "csv"@.len()
            && "webp"@.len() != "md"@.len()
            && "webp"@.len() != "markdown"@.len()
            && "webp"@.len() != "png"@.len()
            && "webp"@.len() != "jpg"@.len()
            && "webp"@[0] != "jpeg"@[0]
    );
    assert(
        "gif"@[0] != "pdf"@[0]
            && "gif"@[0] != "doc"@[0]
            && "gif"@.len() != "docx"@.len()
            && "gif"@[0] != "ppt"@[0]
            && "gif"@.len() != "pptx"@.len()
            && "gif"@[0] != "xls"@[0]
            && "gif"@.len() != "xlsx"@.len()
            && "gif"@[0] != "csv"@[0]
            && "gif"@.len() != "md"@.len()
            && "gif"@.len() != "markdown"@.len()
            && "gif"@[0] != "png"@[0]
            && "gif"@[0] != "jpg"@[0]
            && "gif"@.len() != "jpeg"@.len()
            && "gif"@.len() != "webp"@.len()
    );
    assert(
        "txt"@[0] != "pdf"@[0]
            && "txt"@[0] != "doc"@[0]
            && "txt"@.len() != "docx"@.len()
            && "txt"@[0] != "ppt"@[0]
            && "txt"@.len() != "pptx"@.len()
            && "txt"@[0] != "xls"@[0]
            && "txt"@.len() != "xlsx"@.len()
            && "txt"@[0] != "csv"@[0]
            && "txt"@.len() != "md"@.len()
            && "txt"@.len() != "markdown"@.len()
            && "txt"@[0] != "png"@[0]
            && "txt"@[0] != "jpg"@[0]
            && "txt"@.len() != "jpeg"@.len()
            && "txt"@.len() != "webp"@.len()
            && "txt"@[0] != "gif"@[0]
    );
    assert(
        "xmind"@.len() != "pdf"@.len()
            && "xmind"@.len() != "doc"@.len()
            && "xmind"@.len() != "docx"@.len()
            && "xmind"@.len() != "ppt"@.len()
            && "xmind"@.len() != "pptx"@.len()
            && "xmind"@.len() != "xls"@.len()
            && "xmind"@.len() != "xlsx"@.len()
            && "xmind"@.len() != "csv"@.len()
            && "xmind"@.len() != "md"@.len()
            && "xmind"@.len() != "markdown"@.len()
            && "xmind"@.len() != "png"@.len()
            && "xmind"@.len() != "jpg"@.len()
            && "xmind"@.len() != "jpeg"@.len()
            && "xmind"@.len() != "webp"@.len()
            && "xmind"@.len() != "gif"@.len()
            && "xmind"@.len() != "txt"@.len()
    );
    assert(
        "mp3"@[0] != "pdf"@[0]
            && "mp3"@[0] != "doc"@[0]
            && "mp3"@.len() != "docx"@.len()
            && "mp3"@[0] != "ppt"@[0]
            && "mp3"@.len() != "pptx"@.len()
            && "mp3"@[0] != "xls"@[0]
            && "mp3"@.len() != "xlsx"@.len()
            && "mp3"@[0] != "csv"@[0]
            && "mp3"@.len() != "md"@.len()
            && "mp3"@.len() != "markdown"@.len()
            && "mp3"@[0] != "png"@[0]
            && "mp3"@[0] != "jpg"@[0]
            && "mp3"@.len() != "jpeg"@.len()
            && "mp3"@.len() != "webp"@.len()
            && "mp3"@[0] != "gif"@[0]
            && "mp3"@[0] != "txt"@[0]
            && "mp3"@.len() != "xmind"@.len()
    );
    assert(
        "m4a"@[0] != "pdf"@[0]
            && "m4a"@[0] != "doc"@[0]
            && "m4a"@.len() != "docx"@.len()
            && "m4a"@[0] != "ppt"@[0]
            && "m4a"@.len() != "pptx"@.len()
            && "m4a"@[0] != "xls"@[0]
            && "m4a"@.len() != "xlsx"@.len()
            && "m4a"@[0] != "csv"@[0]
            && "m4a"@.len() != "md"@.len()
            && "m4a"@.len() != "markdown"@.len()
            && "m4a"@[0] != "png"@[0]
            && "m4a"@[0] != "jpg"@[0]
            && "m4a"@.len() != "jpeg"@.len()
            && "m4a"@.len() != "webp"@.len()
            && "m4a"@[0] != "gif"@[0]
            && "m4a"@[0] != "txt"@[0]
            && "m4a"@.len() != "xmind"@.len()
            && "m4a"@[1] != "mp3"@[1]
    );
    assert(
        "wav"@[0] != "pdf"@[0]
            && "wav"@[0] != "doc"@[0]
            && "wav"@.len() != "docx"@.len()
            && "wav"@[0] != "ppt"@[0]
            && "wav"@.len() != "pptx"@.len()
            && "wav"@[0] != "xls"@[0]
            && "wav"@.len() != "xlsx"@.len()
            && "wav"@[0] != "csv"@[0]
            && "wav"@.len() != "md"@.len()
            && "wav"@.len() != "markdown"@.len()
            && "wav"@[0] != "png"@[0]
            && "wav"@[0] != "jpg"@[0]
            && "wav"@.len() != "jpeg"@.len()
            && "wav"@.len() != "webp"@.len()
            && "wav"@[0] != "gif"@[0]
            && "wav"@[0] != "txt"@[0]
            && "wav"@.len() != "xmind"@.len()
            && "wav"@[0] != "mp3"@[0]
            && "wav"@[0] != "m4a"@[0]
    );
    assert(
        "aac"@[0] != "pdf"@[0]
            && "aac"@[0] != "doc"@[0]
            && "aac"@.len() != "docx"@.len()
            && "aac"@[0] != "ppt"@[0]
            && "aac"@.len() != "pptx"@.len()
            && "aac"@[0] != "xls"@[0]
            && "aac"@.len() != "xlsx"@.len()
            && "aac"@[0] != "csv"@[0]
            && "aac"@.len() != "md"@.len()
            && "aac"@.len() != "markdown"@.len()
            && "aac"@[0] != "png"@[0]
            && "aac"@[0] != "jpg"@[0]
            && "aac"@.len() != "jpeg"@.len()
            && "aac"@.len() != "webp"@.len()
            && "aac"@[0] != "gif"@[0]
            && "aac"@[0] != "txt"@[0]
            && "aac"@.len() != "xmind"@.len()
            && "aac"@[0] != "mp3"@[0]
            && "aac"@[0] != "m4a"@[0]
            && "aac"@[0] != "wav"@[0]
    );
}

/// `p` does not occur in `s` when one of its characters occurs nowhere in `s`.
proof fn lemma_missing_char(s: Seq<char>, p: Seq<char>, k: int)
    requires
        0 <= k < p.len(),
        forall|j: int| 0 <= j < s.len() ==> s[j] != p[k],
    ensures
        !has_substring(s, p),
{
    if has_substring(s, p) {
        let i = choose|i: int| occurs_at(s, p, i);
        assert(s.subrange(i, i + p.len())[k] == p[k]);
    }
}

/// `p` does not occur in `s` when two adjacent characters of it are never
/// adjacent in `s`.
proof fn lemma_missing_pair(s: Seq<char>, p: Seq<char>, k: int)
    requires
        0 <= k && k + 1 < p.len(),
        forall|j: int| 0 <= j && j + 1 < s.len() ==> !(#[trigger] s[j] == p[k] && s[j + 1] == p[k + 1]),
    ensures
        !has_substring(s, p),
{
    if has_substring(s, p) {
        let i = choose|i: int| occurs_at(s, p, i);
        assert(s.subrange(i, i + p.len())[k] == p[k]);
        assert(s.subrange(i, i + p.len())[k + 1] == p[k + 1]);
    }
}

/// The documented content types: when the extension names no media type,
/// `application/pdf` gives 1, `application/msword` 3,
/// `application/vnd.ms-powerpoint` 4, `application/vnd.ms-excel` 5,
/// `text/markdown` 7, images 9, `text/plain` 13, `application/x-xmind` 14 and
/// audio 15.
pub proof fn lemma_content_type_table(ext: Seq<char>)
    requires
        media_type_by_extension(ext) == 0,
    ensures
        media_type_spec(ext, "application/pdf"@) == 1,
        media_type_spec(ext, "application/msword"@) == 3,
        media_type_spec(ext, "application/vnd.ms-powerpoint"@) == 4,
        media_type_spec(ext, "application/vnd.ms-excel"@) == 5,
        media_type_spec(ext, "text/markdown"@) == 7,
        media_type_spec(ext, "image/png"@) == 9,
        media_type_spec(ext, "image/jpeg"@) == 9,
        media_type_spec(ext, "text/plain"@) == 13,
        media_type_spec(ext, "application/x-xmind"@) == 14,
        media_type_spec(ext, "audio/mpeg"@) == 15,
{
    assert(media_type_by_content_type("application/pdf"@) == 1) by {
        reveal_strlit("application/pdf");
        assert("application/pdf"@.subrange(0, 15) =~= "application/pdf"@);
    }
    assert(media_type_by_content_type("application/msword"@) == 3) by {
        reveal_strlit("application/msword");
        reveal_strlit("application/pdf");
        reveal_strlit("word");
        assert("application/msword"@.subrange(0, 15)[12] != "application/pdf"@[12]);
        assert("application/msword"@.subrange(14, 18) =~= "word"@);
        assert(occurs_at("application/msword"@, "word"@, 14));
    }
    assert(media_type_by_content_type("application/vnd.ms-powerpoint"@) == 4) by {
        reveal_strlit("application/pdf");
        reveal_strlit("application/vnd.ms-powerpoint");
        reveal_strlit("document");
        reveal_strlit("powerpoint");
        reveal_strlit("word");
        assert("application/vnd.ms-powerpoint"@.subrange(0, 15)[12] != "application/pdf"@[12]);
        lemma_missing_pair("application/vnd.ms-powerpoint"@, "word"@, 0);
        lemma_missing_char("application/vnd.ms-powerpoint"@, "document"@, 3);
        assert("application/vnd.ms-powerpoint"@.subrange(19, 29) =~= "powerpoint"@);
        assert(occurs_at("application/vnd.ms-powerpoint"@, "powerpoint"@, 19));
    }
    assert(media_type_by_content_type("application/vnd.ms-excel"@) == 5) by {
        reveal_strlit("application/pdf");
        reveal_strlit("application/vnd.ms-excel");
        reveal_strlit("document");
        reveal_strlit("excel");
        reveal_strlit("powerpoint");
        reveal_strlit("presentation");
        reveal_strlit("word");
        assert("application/vnd.ms-excel"@.subrange(0, 15)[12] != "application/pdf"@[12]);
        lemma_missing_char("application/vnd.ms-excel"@, "word"@, 0);
        lemma_missing_char("application/vnd.ms-excel"@, "document"@, 3);
        lemma_missing_char("application/vnd.ms-excel"@, "powerpoint"@, 2);
        lemma_missing_char("application/vnd.ms-excel"@, "presentation"@, 1);
        assert("application/vnd.ms-excel"@.subrange(19, 24) =~= "excel"@);
        assert(occurs_at("application/vnd.ms-excel"@, "excel"@, 19));
    }
    assert(media_type_by_content_type("text/markdown"@) == 7) by {
        reveal_strlit("application/pdf");
        reveal_strlit("document");
        reveal_strlit("excel");
        reveal_strlit("markdown");
        reveal_strlit("powerpoint");
        reveal_strlit("presentation");
        reveal_strlit("spreadsheet");
        reveal_strlit("text/csv");
        reveal_strlit("text/markdown");
        reveal_strlit("word");
        assert("text/markdown"@.len() < "application/pdf"@.len());
        lemma_missing_pair("text/markdown"@, "word"@, 0);
        lemma_missing_char("text/markdown"@, "document"@, 2);
        lemma_missing_char("text/markdown"@, "powerpoint"@, 0);
        lemma_missing_char("text/markdown"@, "presentation"@, 0);
        lemma_missing_char("text/markdown"@, "excel"@, 2);
        lemma_missing_char("text/markdown"@, "spreadsheet"@, 0);
        assert("text/markdown"@.len() != "text/csv"@.len());
        assert("text/markdown"@.subrange(5, 13) =~= "markdown"@);
        assert(occurs_at("text/markdown"@, "markdown"@, 5));
    }
    assert(media_type_by_content_type("image/png"@) == 9) by {
        reveal_strlit("application/pdf");
        reveal_strlit("document");
        reveal_strlit("excel");
        reveal_strlit("image/");
        reveal_strlit("image/png");
        reveal_strlit("markdown");
        reveal_strlit("powerpoint");
        reveal_strlit("presentation");
        reveal_strlit("spreadsheet");
        reveal_strlit("text/csv");
        reveal_strlit("word");
        assert("image/png"@.len() < "application/pdf"@.len());
        lemma_missing_char("image/png"@, "word"@, 0);
        lemma_missing_char("image/png"@, "document"@, 0);
        lemma_missing_char("image/png"@, "powerpoint"@, 1);
        lemma_missing_char("image/png"@, "presentation"@, 1);
        lemma_missing_char("image/png"@, "excel"@, 1);
        lemma_missing_char("image/png"@, "spreadsheet"@, 0);
        assert("image/png"@.len() != "text/csv"@.len());
        lemma_missing_char("image/png"@, "markdown"@, 2);
        assert("image/png"@.subrange(0, 6) =~= "image/"@);
    }
    assert(media_type_by_content_type("image/jpeg"@) == 9) by {
        reveal_strlit("application/pdf");
        reveal_strlit("document");
        reveal_strlit("excel");
        reveal_strlit("image/");
        reveal_strlit("image/jpeg");
        reveal_strlit("markdown");
        reveal_strlit("powerpoint");
        reveal_strlit("presentation");
        reveal_strlit("spreadsheet");
        reveal_strlit("text/csv");
        reveal_strlit("word");
        assert("image/jpeg"@.len() < "application/pdf"@.len());
        lemma_missing_char("image/jpeg"@, "word"@, 0);
        lemma_missing_char("image/jpeg"@, "document"@, 0);
        lemma_missing_char("image/jpeg"@, "powerpoint"@, 1);
        lemma_missing_char("image/jpeg"@, "presentation"@, 1);
        lemma_missing_char("image/jpeg"@, "excel"@, 1);
        lemma_missing_char("image/jpeg"@, "spreadsheet"@, 0);
        assert("image/jpeg"@.len() != "text/csv"@.len());
        lemma_missing_char("image/jpeg"@, "markdown"@, 2);
        assert("image/jpeg"@.subrange(0, 6) =~= "image/"@);
    }
    assert(media_type_by_content_type("text/plain"@) == 13) by {
        reveal_strlit("application/pdf");
        reveal_strlit("document");
        reveal_strlit("excel");
        reveal_strlit("image/");
        reveal_strlit("markdown");
        reveal_strlit("powerpoint");
        reveal_strlit("presentation");
        reveal_strlit("spreadsheet");
        reveal_strlit("text/csv");
        reveal_strlit("text/plain");
        reveal_strlit("word");
        assert("text/plain"@.len() < "application/pdf"@.len());
        lemma_missing_char("text/plain"@, "word"@, 0);
        lemma_missing_char("text/plain"@, "document"@, 0);
        lemma_missing_char("text/plain"@, "powerpoint"@, 1);
        lemma_missing_char("text/plain"@, "presentation"@, 1);
        lemma_missing_char("text/plain"@, "excel"@, 2);
        lemma_missing_char("text/plain"@, "spreadsheet"@, 0);
        assert("text/plain"@.len() != "text/csv"@.len());
        lemma_missing_char("text/plain"@, "markdown"@, 0);
        assert("text/plain"@.subrange(0, 6)[0] != "image/"@[0]);
    }
    assert(media_type_by_content_type("application/x-xmind"@) == 14) by {
        reveal_strlit("application/pdf");
        reveal_strlit("application/x-xmind");
        reveal_strlit("document");
        reveal_strlit("excel");
        reveal_strlit("image/");
        reveal_strlit("markdown");
        reveal_strlit("powerpoint");
        reveal_strlit("presentation");
        reveal_strlit("spreadsheet");
        reveal_strlit("text/csv");
        reveal_strlit("text/plain");
        reveal_strlit("word");
        reveal_strlit("xmind");
        assert("application/x-xmind"@.subrange(0, 15)[12] != "application/pdf"@[12]);
        lemma_missing_char("application/x-xmind"@, "word"@, 0);
        lemma_missing_char("application/x-xmind"@, "document"@, 3);
        lemma_missing_char("application/x-xmind"@, "powerpoint"@, 2);
        lemma_missing_char("application/x-xmind"@, "presentation"@, 1);
        lemma_missing_char("application/x-xmind"@, "excel"@, 0);
        lemma_missing_char("application/x-xmind"@, "spreadsheet"@, 0);
        assert("application/x-xmind"@.len() != "text/csv"@.len());
        lemma_missing_char("application/x-xmind"@, "markdown"@, 2);
        assert("application/x-xmind"@.subrange(0, 6)[0] != "image/"@[0]);
        assert("application/x-xmind"@.len() != "text/plain"@.len());
        assert("application/x-xmind"@.subrange(14, 19) =~= "xmind"@);
        assert(occurs_at("application/x-xmind"@, "xmind"@, 14));
    }
    assert(media_type_by_content_type("audio/mpeg"@) == 15) by {
        reveal_strlit("application/pdf");
        reveal_strlit("audio/");
        reveal_strlit("audio/mpeg");
        reveal_strlit("document");
        reveal_strlit("excel");
        reveal_strlit("image/");
        reveal_strlit("markdown");
        reveal_strlit("powerpoint");
        reveal_strlit("presentation");
        reveal_strlit("spreadsheet");
        reveal_strlit("text/csv");
        reveal_strlit("text/plain");
        reveal_strlit("word");
        reveal_strlit("xmind");
        reveal_strlit("zip");
        assert("audio/mpeg"@.len() < "application/pdf"@.len());
        lemma_missing_char("audio/mpeg"@, "word"@, 0);
        lemma_missing_char("audio/mpeg"@, "document"@, 2);
        lemma_missing_char("audio/mpeg"@, "powerpoint"@, 2);
        lemma_missing_char("audio/mpeg"@, "presentation"@, 1);
        lemma_missing_char("audio/mpeg"@, "excel"@, 1);
        lemma_missing_char("audio/mpeg"@, "spreadsheet"@, 0);
        assert("audio/mpeg"@.len() != "text/csv"@.len());
        lemma_missing_char("audio/mpeg"@, "markdown"@, 2);
        assert("audio/mpeg"@.subrange(0, 6)[0] != "image/"@[0]);
        assert("audio/mpeg"@[0] != "text/plain"@[0]);
        lemma_missing_char("audio/mpeg"@, "xmind"@, 0);
        lemma_missing_char("audio/mpeg"@, "zip"@, 0);
        assert("audio/mpeg"@.subrange(0, 6) =~= "audio/"@);
    }
}

/// The documented size limits: 10 MiB (10485760 bytes) for spreadsheets,
/// Markdown, text and Xmind (5, 7, 13, 14), 30 MiB (31457280 bytes) for
/// images (9), 200 MiB (209715200 bytes) for every other media type; a file
/// passes the check exactly when its size is at most its limit.
pub proof fn lemma_size_limit_table(media_type: i32, size: u64)
    ensures
        (media_type == 5 || media_type == 7 || media_type == 13 || media_type == 14) ==> size_limit_spec(
            media_type,
        ) == 10485760,
        media_type == 9 ==> size_limit_spec(media_type) == 31457280,
        !(media_type == 5 || media_type == 7 || media_type == 13 || media_type == 14 || media_type == 9)
            ==> size_limit_spec(media_type) == 209715200,
        media_type == 7 ==> (size <= size_limit_spec(media_type) <==> size <= 10485760),
{
}

/// A known extension decides the media type whatever the content type.
pub proof fn lemma_extension_decides(ext_lower: Seq<char>, ct1: Seq<char>, ct2: Seq<char>)
    requires
        media_type_by_extension(ext_lower) != 0,
    ensures
        media_type_spec(ext_lower, ct1) == media_type_spec(ext_lower, ct2),
{
}

// ---------------------------------------------------------------------------
// Upload plan
// ---------------------------------------------------------------------------

/// The first MIME type that `mime_guess` guesses from a path.
pub uninterp spec fn mime_guess_first(path: Seq<char>) -> Option<Seq<char>>;

/// `mime_guess::from_path(path).first()`, displayed. Claimed: the guess is a
/// function of the path alone (its extension, looked up in the crate's
/// static table).
#[verifier::external_body]
fn guess_mime(path: &str) -> (r: Option<String>)
    ensures
        opt_view(r) == mime_guess_first(path@),
{
    match mime_guess::from_path(path).first() {
        Some(m) => Some(m.to_string()),
        None => None,
    }
}

/// The content type of an upload: the one given, else the guess from the
/// path, else `application/octet-stream`.
pub open spec fn content_type_spec(explicit: Option<Seq<char>>, path: Seq<char>) -> Seq<char> {
    match explicit {
        Some(c) => c,
        None => match mime_guess_first(path) {
            Some(g) => g,
            None => "application/octet-stream"@,
        },
    }
}

/// Determine the content type of an upload.
pub fn choose_content_type(explicit: Option<&str>, path: &str) -> (ct: String)
    ensures
        ct@ == content_type_spec(opt_str_view(explicit), path@),
{
    match explicit {
        Some(c) => String::from_str(c),
        None => match guess_mime(path) {
            Some(g) => g,
            None => String::from_str("application/octet-stream"),
        },
    }
}

/// What an upload needs before its credentials are requested: the media
/// creation request and the file's media type.
#[derive(Debug)]
pub struct UploadPlan {
    pub create_params: CreateMediaParams,
    pub media_type: i32,
}

/// Plans the upload of a file that has been read: `file_name` and
/// `extension` are those of its path (`None` when missing or not UTF-8),
/// `file_size` its length in bytes.
pub fn plan_upload(
    file_path: &str,
    file_name: Option<String>,
    extension: Option<&str>,
    content_type: Option<&str>,
    kb_id: &str,
    file_size: u64,
) -> (r: Result<UploadPlan, Error>)
    ensures
        file_name is None ==> (r matches Err(Error::InvalidArgument(m)) && m@ == "Invalid file path"@),
        file_name matches Some(name) ==> {
            let ct = content_type_spec(opt_str_view(content_type), file_path@);
            let ext = lowercase(
                match extension {
                    Some(e) => e@,
                    None => ""@,
                },
            );
            let mt = media_type_spec(lowercase(ext), ct);
            if mt == 0 {
                r matches Err(Error::FileValidationFailed(m)) && m@ == unsupported_type_detail(ext, ct)
            } else if file_size > size_limit_spec(mt) {
                r matches Err(Error::FileValidationFailed(m)) && m@ == size_exceeded_detail(
                    file_size,
                    size_limit_spec(mt),
                )
            } else {
                r matches Ok(p) && p.media_type == mt && p.create_params.file_name == name
                    && p.create_params.file_size == file_size && p.create_params.content_type@ == ct
                    && p.create_params.knowledge_base_id@ == kb_id@ && p.create_params.file_ext@ == ext
            }
        },
{
    let file_name = match file_name {
        Some(n) => n,
        None => return Err(Error::InvalidArgument(String::from_str("Invalid file path"))),
    };
    let ct = choose_content_type(content_type, file_path);
    let ext = match extension {
        Some(e) => to_lowercase(e),
        None => to_lowercase(""),
    };
    let media_type = match determine_media_type(ext.as_str(), ct.as_str()) {
        Ok(m) => m,
        Err(e) => return Err(e),
    };
    match check_file_size_limit(media_type, file_size) {
        Ok(()) => {},
        Err(e) => return Err(e),
    }
    Ok(UploadPlan {
        create_params: CreateMediaParams {
            file_name,
            file_size,
            content_type: ct,
            knowledge_base_id: String::from_str(kb_id),
            file_ext: ext,
        },
        media_type,
    })
}

/// The knowledge entry for an uploaded file: titled by the given title or
/// the file name, with the file's COS key, size and modification time.
pub fn add_knowledge_params(
    media_type: i32,
    media_id: String,
    title: Option<String>,
    file_name: String,
    kb_id: String,
    folder_id: Option<String>,
    cos_key: String,
    file_size: u64,
    last_modify_time: i64,
) -> (p: AddKnowledgeParams)
    ensures
        p.media_type == media_type,
        p.media_id == Some(media_id),
        p.title@ == match title {
            Some(t) => t@,
            None => file_name@,
        },
        p.knowledge_base_id == kb_id,
        p.folder_id == folder_id,
        p.note_info is None && p.web_info is None && p.session_info is None,
        p.file_info matches Some(f) && f.cos_key == cos_key && f.file_size == file_size
            && f.last_modify_time == last_modify_time && f.password is None && f.file_name@
            == file_name@,
{
    let title = match title {
        Some(t) => t,
        None => file_name.clone(),
    };
    AddKnowledgeParams {
        media_type,
        media_id: Some(media_id),
        title,
        knowledge_base_id: kb_id,
        folder_id,
        note_info: None,
        web_info: None,
        session_info: None,
        file_info: Some(FileInfo { cos_key, file_size, last_modify_time, password: None, file_name }),
    }
}

// ---------------------------------------------------------------------------
// Arguments
// ---------------------------------------------------------------------------

/// Knowledge base IDs from a comma-separated list, each trimmed.
pub fn parse_id_list(ids: &str) -> (r: Vec<String>)
    ensures
        r@.len() == split_on(ids@, ',').len(),
        forall|i: int| 0 <= i < r@.len() ==> #[trigger] r@[i]@ == trim(split_on(ids@, ',')[i]),
{
    let pieces = split_str(ids, ',');
    let mut r: Vec<String> = Vec::new();
    let mut i: usize = 0;
    while i < pieces.len()
        invariant
            i <= pieces@.len(),
            pieces@.len() == split_on(ids@, ',').len(),
            forall|k: int| 0 <= k < pieces@.len() ==> #[trigger] pieces@[k]@ == split_on(ids@, ',')[k],
            r@.len() == i,
            forall|k: int| 0 <= k < i ==> #[trigger] r@[k]@ == trim(split_on(ids@, ',')[k]),
        decreases pieces@.len() - i,
    {
        let t = trim_str(pieces[i].as_str());
        r.push(t);
        i = i + 1;
    }
    r
}

/// What one `name:media_type` argument gives: the name and media type, or
/// the detail of the `InvalidArgument` error it raises.
pub open spec fn file_spec_entry(spec: Seq<char>) -> Result<(Seq<char>, i32), Seq<char>> {
    let parts = split_on(spec, ':');
    if parts.len() != 2 {
        Err("Invalid file spec '"@ + spec + "'. Expected format: name:media_type"@)
    } else {
        match parse_i32_spec(parts[1]) {
            Some(mt) => Ok((parts[0], mt)),
            None => Err("Invalid media type '"@ + parts[1] + "'"@),
        }
    }
}

fn parse_file_spec(spec: &String) -> (r: Result<CheckRepeatedNameParam, Error>)
    ensures
        match file_spec_entry(spec@) {
            Ok((name, mt)) => r matches Ok(p) && p.name@ == name && p.media_type == mt,
            Err(d) => r matches Err(Error::InvalidArgument(m)) && m@ == d,
        },
{
    let parts = split_str(spec.as_str(), ':');
    if parts.len() != 2 {
        let mut m = String::from_str("Invalid file spec '");
        m.append(spec.as_str());
        m.append("'. Expected format: name:media_type");
        return Err(Error::InvalidArgument(m));
    }
    match parse_i32(parts[1].as_str()) {
        Some(media_type) => Ok(CheckRepeatedNameParam { name: parts[0].clone(), media_type }),
        None => {
            let mut m = String::from_str("Invalid media type '");
            m.append(parts[1].as_str());
            m.append("'");
            Err(Error::InvalidArgument(m))
        },
    }
}

/// The repeated-name check request for `name:media_type` arguments; the
/// first malformed argument is reported.
pub fn build_check_repeated_params(
    kb_id: String,
    folder_id: Option<String>,
    files: &Vec<String>,
) -> (r: Result<CheckRepeatedNamesParams, Error>)
    ensures
        r is Ok <==> forall|i: int| 0 <= i < files@.len() ==> (#[trigger] file_spec_entry(files@[i]@)) is Ok,
        (forall|i: int| 0 <= i < files@.len() ==> (#[trigger] file_spec_entry(files@[i]@)) is Ok)
            ==> (r matches Ok(p) && p.knowledge_base_id == kb_id && p.folder_id == folder_id
            && p.params@.len() == files@.len() && forall|i: int|
            0 <= i < files@.len() ==> #[trigger] file_spec_entry(files@[i]@) == Ok::<
                (Seq<char>, i32),
                Seq<char>,
            >((p.params@[i].name@, p.params@[i].media_type))),
        r is Err ==> exists|i: int|
            #![trigger files@[i]]
            0 <= i < files@.len() && (forall|j: int| 0 <= j < i ==> (#[trigger] file_spec_entry(files@[j]@)) is Ok)
                && (file_spec_entry(files@[i]@) matches Err(d) && r matches Err(
                Error::InvalidArgument(m),
            ) && m@ == d),
{
    let mut params: Vec<CheckRepeatedNameParam> = Vec::new();
    let mut i: usize = 0;
    while i < files.len()
        invariant
            i <= files@.len(),
            params@.len() == i,
            forall|j: int| 0 <= j < i ==> (#[trigger] file_spec_entry(files@[j]@)) == Ok::<
                (Seq<char>, i32),
                Seq<char>,
            >((params@[j].name@, params@[j].media_type)),
        decreases files@.len() - i,
    {
        match parse_file_spec(&files[i]) {
            Ok(p) => params.push(p),
            Err(e) => {
                assert(forall|j: int| 0 <= j < i ==> (#[trigger] file_spec_entry(files@[j]@)) is Ok);
                return Err(e);
            },
        }
        i = i + 1;
    }
    Ok(CheckRepeatedNamesParams { params, knowledge_base_id: kb_id, folder_id })
}

} // verus!
