//! Byte-level text helpers shared by the wire serializer and the resolver:
//! ASCII literals as byte sequences, and decimal rendering of integers.
use vstd::prelude::*;

verus! {

use vstd::string::StringSliceAdditionalSpecFns;

/// The bytes of an ASCII character sequence, one byte per character.
pub open spec fn ascii_bytes_of(s: Seq<char>) -> Seq<u8> {
    Seq::new(s.len(), |i: int| s[i] as u8)
}

/// Appends the bytes of an ASCII string to a byte vector.
pub fn append_ascii(v: &mut Vec<u8>, s: &str)
    requires
        vstd::string::is_ascii(s),
    ensures
        final(v)@ == old(v)@ + ascii_bytes_of(s@),
{
    proof {
        vstd::string::is_ascii_spec_bytes(s);
    }
    let bs = s.as_bytes();
    let n = bs.len();
    let mut i: usize = 0;
    while i < n
        invariant
            n == bs@.len(),
            i <= n,
            bs@ == s.spec_bytes(),
            s.spec_bytes() =~= ascii_bytes_of(s@),
            v@ == old(v)@ + bs@.subrange(0, i as int),
        decreases n - i,
    {
        let b = *vstd::slice::slice_index_get(bs, i);
        v.push(b);
        proof {
            assert(v@ =~= old(v)@ + bs@.subrange(0, i + 1));
        }
        i += 1;
    }
    proof {
        assert(bs@.subrange(0, n as int) =~= bs@);
    }
}

/// Appends the contents of one byte vector to another.
pub fn append_bytes(v: &mut Vec<u8>, w: &Vec<u8>)
    ensures
        final(v)@ == old(v)@ + w@,
{
    let n = w.len();
    let mut i: usize = 0;
    while i < n
        invariant
            n == w@.len(),
            i <= n,
            v@ == old(v)@ + w@.subrange(0, i as int),
        decreases n - i,
    {
        let b = w[i];
        v.push(b);
        proof {
            assert(v@ =~= old(v)@ + w@.subrange(0, i + 1));
        }
        i += 1;
    }
    proof {
        assert(w@.subrange(0, n as int) =~= w@);
    }
}

/// Whether a byte sequence equals the bytes of an ASCII string.
pub fn bytes_eq_ascii(v: &Vec<u8>, s: &str) -> (r: bool)
    requires
        vstd::string::is_ascii(s),
    ensures
        r == (v@ == ascii_bytes_of(s@)),
{
    proof {
        vstd::string::is_ascii_spec_bytes(s);
    }
    let bs = s.as_bytes();
    let n = bs.len();
    if v.len() != n {
        proof {
            assert(v@ != ascii_bytes_of(s@)) by {
                assert(ascii_bytes_of(s@).len() == bs@.len());
            }
        }
        return false;
    }
    let mut i: usize = 0;
    while i < n
        invariant
            n == bs@.len(),
            v@.len() == n,
            i <= n,
            bs@ == s.spec_bytes(),
            s.spec_bytes() =~= ascii_bytes_of(s@),
            forall|j: int| 0 <= j < i ==> v@[j] == bs@[j],
        decreases n - i,
    {
        let b = *vstd::slice::slice_index_get(bs, i);
        if v[i] != b {
            return false;
        }
        i += 1;
    }
    proof {
        assert(v@ =~= ascii_bytes_of(s@));
    }
    true
}

/// Builds the bytes of an ASCII string as a vector.
pub fn ascii_vec(s: &str) -> (r: Vec<u8>)
    requires
        vstd::string::is_ascii(s),
    ensures
        r@ == ascii_bytes_of(s@),
{
    let mut v: Vec<u8> = Vec::new();
    append_ascii(&mut v, s);
    v
}

/// The byte sequences of an optional byte vector.
pub open spec fn opt_bytes_view(r: Option<Vec<u8>>) -> Option<Seq<u8>> {
    match r {
        Option::Some(v) => Option::Some(v@),
        Option::None => Option::None,
    }
}

/// Copies the range `[from, to)` of a byte vector.
pub fn copy_range(v: &Vec<u8>, from: usize, to: usize) -> (r: Vec<u8>)
    requires
        from <= to <= v@.len(),
    ensures
        r@ == v@.subrange(from as int, to as int),
{
    let mut r: Vec<u8> = Vec::new();
    let mut i: usize = from;
    while i < to
        invariant
            from <= i <= to <= v@.len(),
            r@ == v@.subrange(from as int, i as int),
        decreases to - i,
    {
        let b = v[i];
        r.push(b);
        proof {
            assert(r@ =~= v@.subrange(from as int, i + 1));
        }
        i += 1;
    }
    r
}

/// The decimal digit characters of `n`, as ASCII bytes, with no leading zeros
/// (the single digit `0` for zero).
pub open spec fn decimal_rep(n: nat) -> Seq<u8>
    decreases n,
{
    if n < 10 {
        seq![(n + ('0' as u8)) as u8]
    } else {
        decimal_rep(n / 10) + seq![(n % 10 + ('0' as u8)) as u8]
    }
}

/// Appends the decimal rendering of `n` to a byte vector.
pub fn append_decimal(v: &mut Vec<u8>, n: u64)
    ensures
        final(v)@ == old(v)@ + decimal_rep(n as nat),
    decreases n,
{
    if n >= 10 {
        append_decimal(v, n / 10);
    }
    let d: u8 = (n % 10) as u8 + ('0' as u8);
    v.push(d);
    proof {
        if n < 10 {
            assert(v@ =~= old(v)@ + decimal_rep(n as nat));
        } else {
            assert(v@ =~= old(v)@ + decimal_rep(n as nat / 10) + seq![
                (n as nat % 10 + ('0' as u8)) as u8,
            ]);
            assert(v@ =~= old(v)@ + decimal_rep(n as nat));
        }
    }
}

} // verus!
