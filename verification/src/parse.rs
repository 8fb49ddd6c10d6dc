//! Incremental request extraction: the consumed subset of the wire protocol
//! is `METHOD SP PATH SP VERSION CRLF`, then header lines `NAME ':' VALUE
//! CRLF`, then a blank-line terminator; only the path is extracted.
//!
//! The extractor is called on the whole buffer after every read. Any byte
//! that violates the grammar anywhere in the bytes present makes the request
//! malformed. Once the path is terminated by its space — even though headers
//! are still incomplete — the path is returned immediately rather than
//! waiting for the rest; whatever follows the blank line is body and is
//! never inspected.
use vstd::prelude::*;

verus! {

/// A method or header-name byte: ASCII letters, digits, and the token
/// punctuation.
pub open spec fn is_token_byte(b: u8) -> bool {
    ('a' as u8 <= b && b <= 'z' as u8) || ('A' as u8 <= b && b <= 'Z' as u8) || ('0' as u8 <= b
        && b <= '9' as u8) || b == '!' as u8 || b == '#' as u8 || b == '$' as u8 || b == '%' as u8
        || b == '&' as u8 || b == '\'' as u8 || b == '*' as u8 || b == '+' as u8 || b == '-' as u8
        || b == '.' as u8 || b == '^' as u8 || b == '_' as u8 || b == '`' as u8 || b == '|' as u8
        || b == '~' as u8
}

/// A path byte: any visible ASCII byte.
pub open spec fn is_path_byte(b: u8) -> bool {
    '!' as u8 <= b && b <= '~' as u8
}

/// A header-value byte: anything but the line terminator.
pub open spec fn is_value_byte(b: u8) -> bool {
    b != '\r' as u8 && b != '\n' as u8
}

/// The first index at or after `i` whose byte fails `ok`, or the end of the
/// buffer when every remaining byte passes.
pub open spec fn span_end(s: Seq<u8>, i: int, ok: spec_fn(u8) -> bool) -> int
    recommends
        0 <= i <= s.len(),
    decreases s.len() - i,
{
    if i < 0 || i >= s.len() {
        i
    } else if ok(s[i]) {
        span_end(s, i + 1, ok)
    } else {
        i
    }
}

/// The token-byte class as a value.
pub open spec fn token_class() -> spec_fn(u8) -> bool {
    |b: u8| is_token_byte(b)
}

/// The path-byte class as a value.
pub open spec fn path_class() -> spec_fn(u8) -> bool {
    |b: u8| is_path_byte(b)
}

/// The value-byte class as a value.
pub open spec fn value_class() -> spec_fn(u8) -> bool {
    |b: u8| is_value_byte(b)
}

/// Whether the bytes from `i` on are consistent with `HTTP/` digit `.`
/// digit `CRLF`, as far as they are present.
pub open spec fn version_ok(s: Seq<u8>, i: int) -> bool {
    &&& (i < s.len() ==> s[i] == 'H' as u8)
    &&& (i + 1 < s.len() ==> s[i + 1] == 'T' as u8)
    &&& (i + 2 < s.len() ==> s[i + 2] == 'T' as u8)
    &&& (i + 3 < s.len() ==> s[i + 3] == 'P' as u8)
    &&& (i + 4 < s.len() ==> s[i + 4] == '/' as u8)
    &&& (i + 5 < s.len() ==> '0' as u8 <= s[i + 5] && s[i + 5] <= '9' as u8)
    &&& (i + 6 < s.len() ==> s[i + 6] == '.' as u8)
    &&& (i + 7 < s.len() ==> '0' as u8 <= s[i + 7] && s[i + 7] <= '9' as u8)
    &&& (i + 8 < s.len() ==> s[i + 8] == '\r' as u8)
    &&& (i + 9 < s.len() ==> s[i + 9] == '\n' as u8)
}

/// Whether the header lines from `i` on are consistent with the grammar, as
/// far as they are present: each line a token name, a colon, value bytes and
/// CRLF, until the blank line that ends the head; nothing after the blank
/// line is inspected.
pub open spec fn headers_ok(s: Seq<u8>, i: int) -> bool
    recommends
        0 <= i,
    decreases s.len() - i,
    via headers_ok_decreases
{
    if i < 0 || i >= s.len() {
        true
    } else if s[i] == '\r' as u8 {
        i + 1 < s.len() ==> s[i + 1] == '\n' as u8
    } else {
        let name_end = span_end(s, i, token_class());
        if name_end >= s.len() {
            true
        } else if name_end == i || s[name_end] != ':' as u8 {
            false
        } else {
            let value_end = span_end(s, name_end + 1, value_class());
            if value_end >= s.len() {
                true
            } else if s[value_end] != '\r' as u8 {
                false
            } else if value_end + 1 >= s.len() {
                true
            } else if s[value_end + 1] != '\n' as u8 {
                false
            } else {
                headers_ok(s, value_end + 2)
            }
        }
    }
}

#[via_fn]
proof fn headers_ok_decreases(s: Seq<u8>, i: int) {
    if 0 <= i < s.len() && s[i] != '\r' as u8 {
        lemma_span_end_bounds(s, i, token_class());
        let name_end = span_end(s, i, token_class());
        if name_end < s.len() {
            lemma_span_end_bounds(s, name_end + 1, value_class());
        }
    }
}

/// Whether everything after the request path — version, then headers — is
/// consistent with the grammar, as far as it is present.
pub open spec fn tail_ok(s: Seq<u8>, i: int) -> bool {
    version_ok(s, i) && (i + 10 <= s.len() ==> headers_ok(s, i + 10))
}

/// What one extraction attempt over the bytes read so far concludes.
#[derive(Debug, PartialEq, Eq)]
pub enum ExtractOutcome {
    /// The bytes so far are a proper prefix of a request whose path is not
    /// yet terminated: read more and retry.
    NeedMore,
    /// The bytes so far violate the grammar: answer with the bad-request
    /// response and close.
    Malformed,
    /// The request path, available as soon as it is terminated by its
    /// space, headers complete or not.
    Found(Vec<u8>),
}

/// Ghost mirror of `ExtractOutcome`.
pub ghost enum ExtractModel {
    NeedMore,
    Malformed,
    Found(Seq<u8>),
}

impl View for ExtractOutcome {
    type V = ExtractModel;

    open spec fn view(&self) -> ExtractModel {
        match self {
            ExtractOutcome::NeedMore => ExtractModel::NeedMore,
            ExtractOutcome::Malformed => ExtractModel::Malformed,
            ExtractOutcome::Found(p) => ExtractModel::Found(p@),
        }
    }
}

/// The outcome of extraction on a buffer: the method must be a nonempty
/// token ended by a space, the path a nonempty run of path bytes ended by a
/// space, and everything after it consistent with version and headers as far
/// as it is present. The path is reported as soon as its terminating space
/// has arrived; a violation anywhere in the bytes present is malformed; and
/// otherwise more bytes are needed.
pub open spec fn extract_model(s: Seq<u8>) -> ExtractModel {
    let m_end = span_end(s, 0, token_class());
    if m_end >= s.len() {
        ExtractModel::NeedMore
    } else if m_end == 0 || s[m_end] != ' ' as u8 {
        ExtractModel::Malformed
    } else {
        let p_end = span_end(s, m_end + 1, path_class());
        if p_end >= s.len() {
            ExtractModel::NeedMore
        } else if p_end == m_end + 1 || s[p_end] != ' ' as u8 {
            ExtractModel::Malformed
        } else if tail_ok(s, p_end + 1) {
            ExtractModel::Found(s.subrange(m_end + 1, p_end))
        } else {
            ExtractModel::Malformed
        }
    }
}

/// Whether a byte is a token byte.
fn token_byte(b: u8) -> (r: bool)
    ensures
        r == is_token_byte(b),
{
    (b >= 'a' as u8 && b <= 'z' as u8) || (b >= 'A' as u8 && b <= 'Z' as u8) || (b >= '0' as u8
        && b <= '9' as u8) || b == '!' as u8 || b == '#' as u8 || b == '$' as u8 || b == '%' as u8
        || b == '&' as u8 || b == '\'' as u8 || b == '*' as u8 || b == '+' as u8 || b == '-' as u8
        || b == '.' as u8 || b == '^' as u8 || b == '_' as u8 || b == '`' as u8 || b == '|' as u8
        || b == '~' as u8
}

/// Whether a byte is a path byte.
fn path_byte(b: u8) -> (r: bool)
    ensures
        r == is_path_byte(b),
{
    b >= '!' as u8 && b <= '~' as u8
}

/// Whether a byte is a header-value byte.
fn value_byte(b: u8) -> (r: bool)
    ensures
        r == is_value_byte(b),
{
    b != '\r' as u8 && b != '\n' as u8
}

/// Scans to the end of a run of token bytes.
fn scan_token(s: &[u8], start: usize) -> (r: usize)
    requires
        start <= s@.len(),
    ensures
        r == span_end(s@, start as int, token_class()),
        start <= r <= s@.len(),
{
    let n = s.len();
    let mut i = start;
    while i < n && token_byte(*vstd::slice::slice_index_get(s, i))
        invariant
            start <= i <= n,
            n == s@.len(),
            span_end(s@, start as int, token_class()) == span_end(s@, i as int, token_class()),
        decreases n - i,
    {
        proof {
            assert(span_end(s@, i as int, token_class()) == span_end(
                s@,
                i + 1,
                token_class(),
            ));
        }
        i += 1;
    }
    proof {
        assert(span_end(s@, i as int, token_class()) == i);
    }
    i
}

/// Scans to the end of a run of path bytes.
fn scan_path(s: &[u8], start: usize) -> (r: usize)
    requires
        start <= s@.len(),
    ensures
        r == span_end(s@, start as int, path_class()),
        start <= r <= s@.len(),
{
    let n = s.len();
    let mut i = start;
    while i < n && path_byte(*vstd::slice::slice_index_get(s, i))
        invariant
            start <= i <= n,
            n == s@.len(),
            span_end(s@, start as int, path_class()) == span_end(s@, i as int, path_class()),
        decreases n - i,
    {
        proof {
            assert(span_end(s@, i as int, path_class()) == span_end(s@, i + 1, path_class()));
        }
        i += 1;
    }
    proof {
        assert(span_end(s@, i as int, path_class()) == i);
    }
    i
}

/// Scans to the end of a run of header-value bytes.
fn scan_value(s: &[u8], start: usize) -> (r: usize)
    requires
        start <= s@.len(),
    ensures
        r == span_end(s@, start as int, value_class()),
        start <= r <= s@.len(),
{
    let n = s.len();
    let mut i = start;
    while i < n && value_byte(*vstd::slice::slice_index_get(s, i))
        invariant
            start <= i <= n,
            n == s@.len(),
            span_end(s@, start as int, value_class()) == span_end(s@, i as int, value_class()),
        decreases n - i,
    {
        proof {
            assert(span_end(s@, i as int, value_class()) == span_end(s@, i + 1, value_class()));
        }
        i += 1;
    }
    proof {
        assert(span_end(s@, i as int, value_class()) == i);
    }
    i
}

/// Checks the header lines from `start` on, as far as they are present.
fn headers_check(s: &[u8], start: usize) -> (r: bool)
    requires
        start <= s@.len(),
    ensures
        r == headers_ok(s@, start as int),
{
    let n = s.len();
    let mut j = start;
    loop
        invariant
            start <= j <= n,
            n == s@.len(),
            headers_ok(s@, start as int) == headers_ok(s@, j as int),
        decreases n - j,
    {
        if j >= n {
            return true;
        }
        let c = *vstd::slice::slice_index_get(s, j);
        if c == '\r' as u8 {
            if j + 1 < n {
                return *vstd::slice::slice_index_get(s, j + 1) == '\n' as u8;
            }
            return true;
        }
        let name_end = scan_token(s, j);
        if name_end >= n {
            return true;
        }
        if name_end == j || *vstd::slice::slice_index_get(s, name_end) != ':' as u8 {
            return false;
        }
        let value_end = scan_value(s, name_end + 1);
        if value_end >= n {
            return true;
        }
        if *vstd::slice::slice_index_get(s, value_end) != '\r' as u8 {
            return false;
        }
        if value_end + 1 >= n {
            return true;
        }
        if *vstd::slice::slice_index_get(s, value_end + 1) != '\n' as u8 {
            return false;
        }
        proof {
            assert(headers_ok(s@, j as int) == headers_ok(s@, value_end + 2));
        }
        j = value_end + 2;
    }
}

/// Checks version and headers after the request path, as far as they are
/// present.
fn tail_check(s: &[u8], start: usize) -> (r: bool)
    requires
        start <= s@.len(),
    ensures
        r == tail_ok(s@, start as int),
{
    let n = s.len();
    let rem = n - start;
    if rem > 0 && *vstd::slice::slice_index_get(s, start) != 'H' as u8 {
        return false;
    }
    if rem > 1 && *vstd::slice::slice_index_get(s, start + 1) != 'T' as u8 {
        return false;
    }
    if rem > 2 && *vstd::slice::slice_index_get(s, start + 2) != 'T' as u8 {
        return false;
    }
    if rem > 3 && *vstd::slice::slice_index_get(s, start + 3) != 'P' as u8 {
        return false;
    }
    if rem > 4 && *vstd::slice::slice_index_get(s, start + 4) != '/' as u8 {
        return false;
    }
    if rem > 5 {
        let b = *vstd::slice::slice_index_get(s, start + 5);
        if b < '0' as u8 || b > '9' as u8 {
            return false;
        }
    }
    if rem > 6 && *vstd::slice::slice_index_get(s, start + 6) != '.' as u8 {
        return false;
    }
    if rem > 7 {
        let b = *vstd::slice::slice_index_get(s, start + 7);
        if b < '0' as u8 || b > '9' as u8 {
            return false;
        }
    }
    if rem > 8 && *vstd::slice::slice_index_get(s, start + 8) != '\r' as u8 {
        return false;
    }
    if rem > 9 && *vstd::slice::slice_index_get(s, start + 9) != '\n' as u8 {
        return false;
    }
    if rem >= 10 {
        return headers_check(s, start + 10);
    }
    true
}

/// Attempts to extract the request path from the bytes read so far, as
/// `extract_model` states.
pub fn extract_request_path(buf: &[u8]) -> (r: ExtractOutcome)
    ensures
        r@ == extract_model(buf@),
{
    let n = buf.len();
    let m_end = scan_token(buf, 0);
    if m_end >= n {
        return ExtractOutcome::NeedMore;
    }
    if m_end == 0 || *vstd::slice::slice_index_get(buf, m_end) != ' ' as u8 {
        return ExtractOutcome::Malformed;
    }
    let p_start = m_end + 1;
    let p_end = scan_path(buf, p_start);
    if p_end >= n {
        return ExtractOutcome::NeedMore;
    }
    if p_end == p_start || *vstd::slice::slice_index_get(buf, p_end) != ' ' as u8 {
        return ExtractOutcome::Malformed;
    }
    if !tail_check(buf, p_end + 1) {
        return ExtractOutcome::Malformed;
    }
    let path_slice = vstd::slice::slice_subrange(buf, p_start, p_end);
    let path = vstd::slice::slice_to_vec(path_slice);
    ExtractOutcome::Found(path)
}

/// A found path is never empty and holds only path bytes — in particular it
/// contains no spaces and no line terminators.
pub proof fn lemma_found_path_shape(s: Seq<u8>)
    requires
        extract_model(s) matches ExtractModel::Found(p),
    ensures
        extract_model(s) matches ExtractModel::Found(p) ==> p.len() > 0 && (forall|j: int|
            0 <= j < p.len() ==> is_path_byte(#[trigger] p[j])),
{
    let m_end = span_end(s, 0, token_class());
    lemma_span_end_bounds(s, 0, token_class());
    let p_start = m_end + 1;
    let p_end = span_end(s, p_start, path_class());
    lemma_span_end_bounds(s, p_start, path_class());
    lemma_span_end_classifies(s, p_start, path_class());
    let p = s.subrange(p_start, p_end);
    assert forall|j: int| 0 <= j < p.len() implies is_path_byte(#[trigger] p[j]) by {
        assert(p[j] == s[p_start + j]);
        assert(path_class()(s[p_start + j]));
    }
}

/// A span stays within the buffer and starts no earlier than where it began.
proof fn lemma_span_end_bounds(s: Seq<u8>, i: int, ok: spec_fn(u8) -> bool)
    requires
        0 <= i <= s.len(),
    ensures
        i <= span_end(s, i, ok) <= s.len(),
    decreases s.len() - i,
{
    if i < s.len() && ok(s[i]) {
        lemma_span_end_bounds(s, i + 1, ok);
    }
}

/// Everything inside a span satisfies its class.
proof fn lemma_span_end_classifies(s: Seq<u8>, i: int, ok: spec_fn(u8) -> bool)
    requires
        0 <= i <= s.len(),
    ensures
        forall|j: int| i <= j < span_end(s, i, ok) ==> ok(#[trigger] s[j]),
    decreases s.len() - i,
{
    if i < s.len() && ok(s[i]) {
        lemma_span_end_classifies(s, i + 1, ok);
    }
}

} // verus!
