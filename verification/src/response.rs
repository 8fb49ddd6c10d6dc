//! Response serialization: the wire bytes of a response head — status line,
//! conditional `content-type` header from the extension table, exact
//! `content-length` — and the complete bodies of the not-found and
//! bad-request responses.
use vstd::prelude::*;

verus! {

use crate::text::{ascii_bytes_of, decimal_rep, append_ascii, append_bytes, append_decimal,
    ascii_vec, bytes_eq_ascii, copy_range, opt_bytes_view};

/// The largest index of `b` in `s`, or -1 when `b` does not occur.
pub open spec fn last_index_of(s: Seq<u8>, b: u8) -> int
    decreases s.len(),
{
    if s.len() == 0 {
        -1
    } else if s[s.len() - 1] == b {
        s.len() - 1
    } else {
        last_index_of(s.drop_last(), b)
    }
}

proof fn lemma_last_index_of(s: Seq<u8>, b: u8)
    ensures
        -1 <= last_index_of(s, b) < s.len(),
        last_index_of(s, b) >= 0 ==> s[last_index_of(s, b)] == b,
        forall|j: int| last_index_of(s, b) < j < s.len() ==> s[j] != b,
    decreases s.len(),
{
    if s.len() > 0 && s[s.len() - 1] != b {
        lemma_last_index_of(s.drop_last(), b);
        assert forall|j: int| last_index_of(s, b) < j < s.len() implies s[j] != b by {
            if j < s.len() - 1 {
                assert(s.drop_last()[j] != b);
                assert(s[j] == s.drop_last()[j]);
            }
        }
    }
}

/// The extension of the file name at the end of a path: the part of the last
/// path component after its last dot, when that dot is neither the
/// component's first byte nor absent.
pub open spec fn ext_of(path: Seq<u8>) -> Option<Seq<u8>> {
    let slash = last_index_of(path, '/' as u8);
    let dot = last_index_of(path, '.' as u8);
    if dot > slash + 1 {
        Option::Some(path.subrange(dot + 1, path.len() as int))
    } else {
        Option::None
    }
}

/// Computes the extension of the file name at the end of a path.
pub fn extension_of(path: &Vec<u8>) -> (r: Option<Vec<u8>>)
    ensures
        opt_bytes_view(r) == ext_of(path@),
{
    proof {
        lemma_last_index_of(path@, '/' as u8);
        lemma_last_index_of(path@, '.' as u8);
    }
    let n = path.len();
    let mut i: usize = n;
    while i > 0
        invariant
            i <= n,
            n == path@.len(),
            forall|j: int| i <= j < n ==> path@[j] != '/' as u8 && path@[j] != '.' as u8,
        decreases i,
    {
        let c = path[i - 1];
        if c == '/' as u8 {
            proof {
                lemma_last_index_of(path@, '/' as u8);
                lemma_last_index_of(path@, '.' as u8);
                let slash = last_index_of(path@, '/' as u8);
                let dot = last_index_of(path@, '.' as u8);
                assert(slash >= i - 1) by {
                    if slash < i - 1 {
                        assert(path@[i - 1] != '/' as u8);
                    }
                }
                assert(dot < i - 1) by {
                    if dot >= i - 1 {
                        assert(path@[dot] == '.' as u8);
                    }
                }
            }
            return None;
        }
        if c == '.' as u8 {
            let dot = i - 1;
            proof {
                lemma_last_index_of(path@, '/' as u8);
                lemma_last_index_of(path@, '.' as u8);
                let slash = last_index_of(path@, '/' as u8);
                let ld = last_index_of(path@, '.' as u8);
                assert(ld == dot) by {
                    if ld < dot {
                        assert(path@[dot as int] != '.' as u8);
                    }
                    if ld > dot {
                        assert(path@[ld] == '.' as u8);
                    }
                }
                if dot > 0 && path@[dot - 1] != '/' as u8 {
                    assert(slash < dot - 1) by {
                        if slash >= 0 {
                            assert(path@[slash] == '/' as u8);
                        }
                    }
                } else {
                    if dot > 0 {
                        assert(slash >= dot - 1) by {
                            if slash < dot - 1 {
                                assert(path@[dot - 1] != '/' as u8);
                            }
                        }
                    }
                }
            }
            if dot == 0 || path[dot - 1] == '/' as u8 {
                return None;
            }
            return Some(copy_range(path, dot + 1, n));
        }
        i -= 1;
    }
    proof {
        let dot = last_index_of(path@, '.' as u8);
        assert(dot == -1) by {
            if dot >= 0 {
                assert(path@[dot] == '.' as u8);
            }
        }
    }
    None
}

/// The content type served for a file extension, when the extension is one
/// the responder knows; requests for any other extension carry no
/// `content-type` header.
pub open spec fn content_type_for_ext(e: Seq<u8>) -> Option<Seq<u8>> {
    if e == ascii_bytes_of("html"@) {
        Option::Some(ascii_bytes_of("text/html"@))
    } else if e == ascii_bytes_of("js"@) {
        Option::Some(ascii_bytes_of("application/javascript"@))
    } else if e == ascii_bytes_of("pdf"@) {
        Option::Some(ascii_bytes_of("application/pdf"@))
    } else if e == ascii_bytes_of("json"@) {
        Option::Some(ascii_bytes_of("application/json"@))
    } else if e == ascii_bytes_of("zip"@) {
        Option::Some(ascii_bytes_of("application/zip"@))
    } else if e == ascii_bytes_of("jpg"@) || e == ascii_bytes_of("jpeg"@) {
        Option::Some(ascii_bytes_of("image/jpeg"@))
    } else if e == ascii_bytes_of("png"@) {
        Option::Some(ascii_bytes_of("image/png"@))
    } else if e == ascii_bytes_of("gif"@) {
        Option::Some(ascii_bytes_of("image/gif"@))
    } else if e == ascii_bytes_of("csv"@) {
        Option::Some(ascii_bytes_of("text/csv"@))
    } else if e == ascii_bytes_of("css"@) {
        Option::Some(ascii_bytes_of("text/css"@))
    } else if e == ascii_bytes_of("php"@) {
        Option::Some(ascii_bytes_of("text/php"@))
    } else {
        Option::None
    }
}

/// The content type served for a path, from its extension.
pub open spec fn content_type_of(path: Seq<u8>) -> Option<Seq<u8>> {
    match ext_of(path) {
        Option::Some(e) => content_type_for_ext(e),
        Option::None => Option::None,
    }
}

/// Computes the content type served for a path.
pub fn content_type_for(path: &Vec<u8>) -> (r: Option<Vec<u8>>)
    ensures
        opt_bytes_view(r) == content_type_of(path@),
{
    proof {
        reveal_strlit("html");
        reveal_strlit("js");
        reveal_strlit("pdf");
        reveal_strlit("json");
        reveal_strlit("zip");
        reveal_strlit("jpg");
        reveal_strlit("jpeg");
        reveal_strlit("png");
        reveal_strlit("gif");
        reveal_strlit("csv");
        reveal_strlit("css");
        reveal_strlit("php");
        reveal_strlit("text/html");
        reveal_strlit("application/javascript");
        reveal_strlit("application/pdf");
        reveal_strlit("application/json");
        reveal_strlit("application/zip");
        reveal_strlit("image/jpeg");
        reveal_strlit("image/png");
        reveal_strlit("image/gif");
        reveal_strlit("text/csv");
        reveal_strlit("text/css");
        reveal_strlit("text/php");
    }
    match extension_of(path) {
        None => None,
        Some(e) => {
            if bytes_eq_ascii(&e, "html") {
                Some(ascii_vec("text/html"))
            } else if bytes_eq_ascii(&e, "js") {
                Some(ascii_vec("application/javascript"))
            } else if bytes_eq_ascii(&e, "pdf") {
                Some(ascii_vec("application/pdf"))
            } else if bytes_eq_ascii(&e, "json") {
                Some(ascii_vec("application/json"))
            } else if bytes_eq_ascii(&e, "zip") {
                Some(ascii_vec("application/zip"))
            } else if bytes_eq_ascii(&e, "jpg") || bytes_eq_ascii(&e, "jpeg") {
                Some(ascii_vec("image/jpeg"))
            } else if bytes_eq_ascii(&e, "png") {
                Some(ascii_vec("image/png"))
            } else if bytes_eq_ascii(&e, "gif") {
                Some(ascii_vec("image/gif"))
            } else if bytes_eq_ascii(&e, "csv") {
                Some(ascii_vec("text/csv"))
            } else if bytes_eq_ascii(&e, "css") {
                Some(ascii_vec("text/css"))
            } else if bytes_eq_ascii(&e, "php") {
                Some(ascii_vec("text/php"))
            } else {
                None
            }
        },
    }
}

/// The registered reason phrase for an HTTP status code, when one exists.
pub uninterp spec fn canonical_reason_of(code: u16) -> Option<Seq<u8>>;

/// Relies on http::StatusCode::from_u16 followed by
/// http::StatusCode::canonical_reason: the registered reason phrase is a
/// fixed table keyed by the numeric code alone; a code outside 100..=999 or
/// without a registered phrase has none.
#[verifier::external_body]
fn canonical_reason_bytes(code: u16) -> (r: Option<Vec<u8>>)
    ensures
        opt_bytes_view(r) == canonical_reason_of(code),
{
    match http::StatusCode::from_u16(code) {
        Ok(status) => status.canonical_reason().map(|reason| reason.as_bytes().to_vec()),
        Err(_) => None,
    }
}

/// The reason phrase written into a generic status line: the registered one,
/// or nothing when the code has none.
pub open spec fn reason_suffix(code: u16) -> Seq<u8> {
    match canonical_reason_of(code) {
        Option::Some(r) => r,
        Option::None => Seq::empty(),
    }
}

/// The status line for a response code. The codes the responder itself
/// serves have fixed spellings; any other code is written generically with
/// its registered reason phrase.
pub open spec fn status_line_spec(code: u16) -> Seq<u8> {
    if code == 200 {
        ascii_bytes_of("HTTP/1.1 200 OK\r\n"@)
    } else if code == 404 {
        ascii_bytes_of("HTTP/1.1 404 Not Found\r\n"@)
    } else {
        ascii_bytes_of("HTTP/1.1 "@) + decimal_rep(code as nat) + seq![' ' as u8] + reason_suffix(
            code,
        ) + ascii_bytes_of("\r\n"@)
    }
}

/// Builds the status line for a response code.
pub fn status_line(code: u16) -> (r: Vec<u8>)
    ensures
        r@ == status_line_spec(code),
{
    proof {
        reveal_strlit("HTTP/1.1 200 OK\r\n");
        reveal_strlit("HTTP/1.1 404 Not Found\r\n");
        reveal_strlit("HTTP/1.1 ");
        reveal_strlit("\r\n");
    }
    let mut v: Vec<u8> = Vec::new();
    if code == 200 {
        append_ascii(&mut v, "HTTP/1.1 200 OK\r\n");
    } else if code == 404 {
        append_ascii(&mut v, "HTTP/1.1 404 Not Found\r\n");
    } else {
        append_ascii(&mut v, "HTTP/1.1 ");
        append_decimal(&mut v, code as u64);
        v.push(' ' as u8);
        proof {
            assert(v@ =~= ascii_bytes_of("HTTP/1.1 "@) + decimal_rep(code as nat) + seq![
                ' ' as u8,
            ]);
        }
        match canonical_reason_bytes(code) {
            Some(reason) => {
                append_bytes(&mut v, &reason);
            },
            None => {
                proof {
                    assert(v@ =~= ascii_bytes_of("HTTP/1.1 "@) + decimal_rep(code as nat) + seq![
                        ' ' as u8,
                    ] + reason_suffix(code));
                }
            },
        }
        append_ascii(&mut v, "\r\n");
        proof {
            assert(v@ =~= status_line_spec(code));
        }
    }
    v
}

/// One serialized header line.
pub open spec fn header_line_spec(name: Seq<u8>, value: Seq<u8>) -> Seq<u8> {
    name + ascii_bytes_of(": "@) + value + ascii_bytes_of("\r\n"@)
}

/// Appends one serialized header line.
fn append_header(v: &mut Vec<u8>, name: &str, value: &Vec<u8>)
    requires
        vstd::string::is_ascii(name),
    ensures
        final(v)@ == old(v)@ + header_line_spec(ascii_bytes_of(name@), value@),
{
    proof {
        reveal_strlit(": ");
        reveal_strlit("\r\n");
    }
    append_ascii(v, name);
    append_ascii(v, ": ");
    append_bytes(v, value);
    append_ascii(v, "\r\n");
    proof {
        assert(v@ =~= old(v)@ + header_line_spec(ascii_bytes_of(name@), value@));
    }
}

/// The head of a response that serves the file at `path`, of exactly `size`
/// bytes: a 200 status line, the content type when the extension names one,
/// a `content-length` of exactly `size`, and the blank line; the file's
/// bytes follow it on the wire unchanged.
pub open spec fn file_head_spec(path: Seq<u8>, size: u64) -> Seq<u8> {
    status_line_spec(200) + (match content_type_of(path) {
        Option::Some(ct) => header_line_spec(ascii_bytes_of("content-type"@), ct),
        Option::None => Seq::empty(),
    }) + header_line_spec(ascii_bytes_of("content-length"@), decimal_rep(size as nat))
        + ascii_bytes_of("\r\n"@)
}

/// Builds the head of a response that serves a file.
pub fn file_response_head(path: &Vec<u8>, size: u64) -> (r: Vec<u8>)
    ensures
        r@ == file_head_spec(path@, size),
{
    proof {
        reveal_strlit("content-type");
        reveal_strlit("content-length");
        reveal_strlit("\r\n");
    }
    let mut v = status_line(200);
    match content_type_for(path) {
        Some(ct) => {
            append_header(&mut v, "content-type", &ct);
        },
        None => {},
    }
    let mut length = Vec::new();
    append_decimal(&mut length, size);
    append_header(&mut v, "content-length", &length);
    append_ascii(&mut v, "\r\n");
    proof {
        assert(v@ =~= file_head_spec(path@, size));
    }
    v
}

/// The head of the not-found response for a page of `len` bytes: a 404
/// status line, `text/html` content type, a `content-length` of exactly
/// `len`, and the blank line.
pub open spec fn not_found_head_spec(len: nat) -> Seq<u8> {
    status_line_spec(404) + header_line_spec(
        ascii_bytes_of("content-type"@),
        ascii_bytes_of("text/html"@),
    ) + header_line_spec(ascii_bytes_of("content-length"@), decimal_rep(len)) + ascii_bytes_of(
        "\r\n"@,
    )
}

/// The complete not-found response: its head for the page's exact length,
/// then the configured page itself as the whole body.
pub open spec fn not_found_response_spec(page: Seq<u8>) -> Seq<u8> {
    not_found_head_spec(page.len()) + page
}

/// Builds the complete not-found response around the configured page.
pub fn not_found_response(page: &Vec<u8>) -> (r: Vec<u8>)
    ensures
        r@ == not_found_response_spec(page@),
{
    proof {
        reveal_strlit("content-type");
        reveal_strlit("content-length");
        reveal_strlit("text/html");
        reveal_strlit("\r\n");
    }
    let mut v = status_line(404);
    let ctype = ascii_vec("text/html");
    append_header(&mut v, "content-type", &ctype);
    let mut length = Vec::new();
    append_decimal(&mut length, page.len() as u64);
    append_header(&mut v, "content-length", &length);
    append_ascii(&mut v, "\r\n");
    append_bytes(&mut v, page);
    proof {
        assert(v@ =~= not_found_response_spec(page@));
    }
    v
}

/// An existing regular file is served whole: when the primary target of a
/// request opens as a regular file, resolution yields exactly that path,
/// and the head served for it and the file's byte count is the 200 status
/// line, the content type its extension names (or no such header), a
/// `content-length` of exactly that count, and the blank line; the file's
/// bytes follow it on the wire unchanged.
pub proof fn lemma_existing_file_served(
    fs: spec_fn(Seq<u8>) -> crate::resolve::ProbeOutcome,
    root: Seq<u8>,
    path: Seq<u8>,
    size: u64,
)
    requires
        crate::resolve::valid_request_path(path),
        fs(crate::resolve::primary_target(root, path)) == crate::resolve::ProbeOutcome::FileOpened,
    ensures
        crate::resolve::fresh_resolution(fs, root, path) == Option::Some(
            crate::resolve::primary_target(root, path),
        ),
        file_head_spec(crate::resolve::primary_target(root, path), size) == status_line_spec(200)
            + (match content_type_of(crate::resolve::primary_target(root, path)) {
            Option::Some(ct) => header_line_spec(ascii_bytes_of("content-type"@), ct),
            Option::None => Seq::<u8>::empty(),
        }) + header_line_spec(ascii_bytes_of("content-length"@), decimal_rep(size as nat))
            + ascii_bytes_of("\r\n"@),
{
}

/// The complete bad-request response: a 400 status line, a `content-length`
/// of zero, the blank line, and nothing after it — the body is empty and the
/// connection is closed without further processing.
pub open spec fn bad_request_response_spec() -> Seq<u8> {
    status_line_spec(400) + header_line_spec(ascii_bytes_of("content-length"@), ascii_bytes_of("0"@))
        + ascii_bytes_of("\r\n"@)
}

/// Builds the complete bad-request response.
pub fn bad_request_response() -> (r: Vec<u8>)
    ensures
        r@ == bad_request_response_spec(),
{
    proof {
        reveal_strlit("content-length");
        reveal_strlit("0");
        reveal_strlit("\r\n");
    }
    let mut v = status_line(400);
    let zero = ascii_vec("0");
    append_header(&mut v, "content-length", &zero);
    append_ascii(&mut v, "\r\n");
    proof {
        assert(v@ =~= bad_request_response_spec());
    }
    v
}

} // verus!
