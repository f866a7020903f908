//! Byte-level text utilities: literal bytes, decimal formatting, and
//! substring scanning. All process output is handled as raw bytes, so the
//! parsing and command-building layers above work over `Vec<u8>`.

use vstd::prelude::*;
use vstd::slice::slice_subrange;
use vstd::slice::slice_to_vec;
use vstd::string::StringSliceAdditionalSpecFns;

verus! {

/// The UTF-8 bytes of a string literal, as a fresh vector.
pub fn lit_bytes(s: &str) -> (r: Vec<u8>)
    ensures
        r@ == s.spec_bytes(),
{
    slice_to_vec(s.as_bytes())
}

/// Appends the bytes of a slice to `out`.
pub fn push_bytes(out: &mut Vec<u8>, s: &[u8])
    ensures
        final(out)@ == old(out)@ + s@,
{
    let mut v = slice_to_vec(s);
    out.append(&mut v);
}

/// Appends the UTF-8 bytes of a string literal to `out`.
pub fn push_lit(out: &mut Vec<u8>, s: &str)
    ensures
        final(out)@ == old(out)@ + s.spec_bytes(),
{
    let mut v = lit_bytes(s);
    out.append(&mut v);
}

/// The decimal digits of `n`, most significant first, as ASCII bytes.
pub open spec fn dec_digits(n: nat) -> Seq<u8>
    decreases n,
{
    if n < 10 {
        seq![(48 + n) as u8]
    } else {
        dec_digits(n / 10).push((48 + n % 10) as u8)
    }
}

/// Appends the decimal rendering of `n` to `out`.
pub fn push_dec_u32(out: &mut Vec<u8>, n: u32)
    ensures
        final(out)@ == old(out)@ + dec_digits(n as nat),
    decreases n,
{
    if n < 10 {
        out.push(48 + n as u8);
        assert(out@ =~= old(out)@ + dec_digits(n as nat));
    } else {
        push_dec_u32(out, n / 10);
        out.push(48 + (n % 10) as u8);
        assert(out@ =~= old(out)@ + dec_digits(n as nat));
    }
}

/// The needle `n` occurs in `h` starting at index `i`.
pub open spec fn match_at(h: Seq<u8>, n: Seq<u8>, i: int) -> bool {
    &&& 0 <= i
    &&& i + n.len() <= h.len()
    &&& h.subrange(i, i + n.len()) == n
}

/// The needle `n` occurs somewhere in `h`.
pub open spec fn contains_seq(h: Seq<u8>, n: Seq<u8>) -> bool {
    exists|i: int| match_at(h, n, i)
}

/// Index of the last occurrence of `n` in `h` at position `i` or earlier,
/// if there is one.
pub open spec fn find_at_or_before(h: Seq<u8>, n: Seq<u8>, i: int) -> Option<int>
    decreases i + 1,
{
    if i < 0 {
        None
    } else if match_at(h, n, i) {
        Some(i)
    } else {
        find_at_or_before(h, n, i - 1)
    }
}

/// Index of the last occurrence of `n` in `h`, if there is one.
pub open spec fn rfind_seq(h: Seq<u8>, n: Seq<u8>) -> Option<int> {
    find_at_or_before(h, n, h.len() - n.len())
}

/// Index of the first newline in `h` at position `i` or later, or the
/// length of `h` if there is none.
pub open spec fn line_end_from(h: Seq<u8>, i: int) -> int
    decreases h.len() - i,
{
    if i < 0 || i >= h.len() {
        h.len() as int
    } else if h[i] == 10 {
        i
    } else {
        line_end_from(h, i + 1)
    }
}

/// The text captured by the leftmost occurrence of `p` that is followed on
/// the same line by at least one byte: everything from the end of `p` up to
/// (not including) the next newline. This mirrors a leftmost regular
/// expression match of the pattern `p` followed by `(.+)`.
pub open spec fn capture_after(h: Seq<u8>, p: Seq<u8>, i: int) -> Option<Seq<u8>>
    decreases h.len() - i,
{
    if i < 0 || i + p.len() >= h.len() {
        None
    } else if match_at(h, p, i) && h[i + p.len()] != 10 {
        Some(h.subrange(i + p.len(), line_end_from(h, i + p.len())))
    } else {
        capture_after(h, p, i + 1)
    }
}

/// The rest-of-line capture of the leftmost productive occurrence of `p`.
pub open spec fn line_capture(h: Seq<u8>, p: Seq<u8>) -> Option<Seq<u8>> {
    capture_after(h, p, 0)
}

/// Whether `n` occurs in `h` starting exactly at `i`.
pub fn bytes_match_at(h: &[u8], n: &[u8], i: usize) -> (r: bool)
    requires
        i + n@.len() <= h@.len(),
    ensures
        r == match_at(h@, n@, i as int),
{
    let h_len = h.len();
    let n_len = n.len();
    let mut j: usize = 0;
    while j < n_len
        invariant
            j <= n@.len(),
            h_len == h@.len(),
            n_len == n@.len(),
            i + n@.len() <= h@.len(),
            forall|k: int| 0 <= k < j ==> h@[i + k] == n@[k],
        decreases n@.len() - j,
    {
        if h[i + j] != n[j] {
            proof {
                assert(h@.subrange(i as int, i + n@.len())[j as int] == h@[i + j]);
                assert(h@.subrange(i as int, i + n@.len()) != n@);
            }
            return false;
        }
        j = j + 1;
    }
    proof {
        assert(h@.subrange(i as int, i + n@.len()) =~= n@);
    }
    true
}

/// Whether `n` occurs anywhere in `h`.
pub fn contains_bytes(h: &[u8], n: &[u8]) -> (r: bool)
    ensures
        r == contains_seq(h@, n@),
{
    let h_len = h.len();
    let n_len = n.len();
    if n_len > h_len {
        proof {
            assert(forall|i: int| !match_at(h@, n@, i));
        }
        return false;
    }
    let limit = h_len - n_len;
    let mut i: usize = 0;
    while i < limit
        invariant
            h_len == h@.len(),
            n_len == n@.len(),
            n_len <= h_len,
            limit == h_len - n_len,
            i <= limit,
            forall|j: int| 0 <= j < i ==> !match_at(h@, n@, j),
        decreases limit - i,
    {
        if bytes_match_at(h, n, i) {
            proof {
                assert(contains_seq(h@, n@));
            }
            return true;
        }
        i = i + 1;
    }
    if bytes_match_at(h, n, limit) {
        proof {
            assert(contains_seq(h@, n@));
        }
        return true;
    }
    proof {
        assert(forall|j: int| j > limit ==> !match_at(h@, n@, j));
    }
    false
}

/// Index of the last occurrence of `n` in `h`, if there is one.
pub fn rfind_bytes(h: &[u8], n: &[u8]) -> (r: Option<usize>)
    ensures
        match r {
            Some(i) => rfind_seq(h@, n@) == Some(i as int),
            None => rfind_seq(h@, n@) is None,
        },
{
    let h_len = h.len();
    let n_len = n.len();
    if n_len > h_len {
        return None;
    }
    let mut i: usize = h_len - n_len;
    while i > 0
        invariant
            h_len == h@.len(),
            n_len == n@.len(),
            n_len <= h_len,
            i <= h_len - n_len,
            rfind_seq(h@, n@) == find_at_or_before(h@, n@, i as int),
        decreases i,
    {
        if bytes_match_at(h, n, i) {
            return Some(i);
        }
        i = i - 1;
    }
    if bytes_match_at(h, n, 0) {
        return Some(0);
    }
    proof {
        assert(find_at_or_before(h@, n@, 0) == find_at_or_before(h@, n@, -1));
        assert(find_at_or_before(h@, n@, -1) is None);
    }
    None
}

/// Rest-of-line capture of the leftmost productive occurrence of `p` in `h`.
pub fn capture_line(h: &[u8], p: &[u8]) -> (r: Option<Vec<u8>>)
    ensures
        match r {
            Some(v) => line_capture(h@, p@) == Some(v@),
            None => line_capture(h@, p@) is None,
        },
{
    let h_len = h.len();
    let p_len = p.len();
    if p_len >= h_len {
        return None;
    }
    let limit = h_len - p_len;
    let mut i: usize = 0;
    while i < limit
        invariant
            h_len == h@.len(),
            p_len == p@.len(),
            p_len < h_len,
            limit == h_len - p_len,
            i <= limit,
            line_capture(h@, p@) == capture_after(h@, p@, i as int),
        decreases limit - i,
    {
        if bytes_match_at(h, p, i) && h[i + p_len] != 10 {
            let start = i + p_len;
            let mut j: usize = start;
            while j < h_len && h[j] != 10
                invariant
                    h_len == h@.len(),
                    start <= j <= h_len,
                    line_end_from(h@, start as int) == line_end_from(h@, j as int),
                decreases h@.len() - j,
            {
                j = j + 1;
            }
            proof {
                assert(line_end_from(h@, j as int) == j);
            }
            return Some(slice_to_vec(slice_subrange(h, start, j)));
        }
        i = i + 1;
    }
    None
}

} // verus!
