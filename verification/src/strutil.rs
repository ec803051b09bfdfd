//! Verified text utilities over character sequences: substring search,
//! removal of every occurrence of a marker, and whitespace trimming.  The
//! executable functions work on `Vec<char>`, with their meaning stated over
//! `Seq<char>`.

use vstd::prelude::*;

verus! {

/// The needle `n` occurs in `h` starting at position `i`.
pub open spec fn is_match_at(h: Seq<char>, n: Seq<char>, i: int) -> bool {
    0 <= i && i + n.len() <= h.len() && h.subrange(i, i + n.len() as int) == n
}

/// The needle `n` occurs somewhere in `h`.
pub open spec fn contains_seq(h: Seq<char>, n: Seq<char>) -> bool {
    exists|i: int| is_match_at(h, n, i)
}

/// `h` with every occurrence of `n` removed, scanning left to right and
/// never overlapping — the text that remains when a marker is deleted
/// wherever it stands.
pub open spec fn remove_all(h: Seq<char>, n: Seq<char>) -> Seq<char>
    decreases h.len(),
{
    if n.len() == 0 || h.len() < n.len() {
        h
    } else if h.subrange(0, n.len() as int) == n {
        remove_all(h.skip(n.len() as int), n)
    } else {
        seq![h[0]] + remove_all(h.skip(1), n)
    }
}

/// The whitespace characters stripped from the ends of a cleaned text.
pub open spec fn is_space(c: char) -> bool {
    c == ' ' || c == '\t' || c == '\n' || c == '\r'
}

/// `s` without its leading whitespace.
pub open spec fn trim_front(s: Seq<char>) -> Seq<char>
    decreases s.len(),
{
    if s.len() > 0 && is_space(s[0]) {
        trim_front(s.skip(1))
    } else {
        s
    }
}

/// `s` without its trailing whitespace.
pub open spec fn trim_back(s: Seq<char>) -> Seq<char>
    decreases s.len(),
{
    if s.len() > 0 && is_space(s.last()) {
        trim_back(s.drop_last())
    } else {
        s
    }
}

/// `s` without leading and trailing whitespace.
pub open spec fn trim(s: Seq<char>) -> Seq<char> {
    trim_back(trim_front(s))
}

/// Whether `c` is one of the whitespace characters `trim` strips.
pub fn is_space_char(c: char) -> (b: bool)
    ensures
        b == is_space(c),
{
    c == ' ' || c == '\t' || c == '\n' || c == '\r'
}

/// Appends the characters of `s` to `out`.
pub fn push_str_chars(out: &mut Vec<char>, s: &str)
    ensures
        final(out)@ == old(out)@ + s@,
{
    let n = s.unicode_len();
    let ghost start = out@;
    let mut i: usize = 0;
    while i < n
        invariant
            i <= n,
            n == s@.len(),
            out@ == start + s@.subrange(0, i as int),
        decreases n - i,
    {
        let c = s.get_char(i);
        out.push(c);
        proof {
            assert(start + s@.subrange(0, i as int) + seq![s@[i as int]] =~= start + s@.subrange(
                0,
                i + 1 as int,
            ));
        }
        i += 1;
    }
    proof {
        assert(s@.subrange(0, n as int) =~= s@);
    }
}

/// The characters of `s`, as a vector.
pub fn str_chars(s: &str) -> (r: Vec<char>)
    ensures
        r@ == s@,
{
    let mut out: Vec<char> = Vec::new();
    push_str_chars(&mut out, s);
    out
}

/// Relies on `String`'s `FromIterator<char>`: collecting yields exactly the
/// characters of the iterator, in order.
#[verifier::external_body]
pub(crate) fn chars_to_string(v: &Vec<char>) -> (r: String)
    ensures
        r@ == v@,
{
    v.iter().collect()
}

/// Whether `n` occurs in `h` starting at position `i`.
pub fn match_at(h: &Vec<char>, n: &Vec<char>, i: usize) -> (b: bool)
    requires
        i <= h@.len(),
        n@.len() <= h@.len() - i,
    ensures
        b == is_match_at(h@, n@, i as int),
{
    let hlen = h.len();
    let nlen = n.len();
    let mut j: usize = 0;
    while j < nlen
        invariant
            j <= nlen,
            nlen == n@.len(),
            hlen == h@.len(),
            i + nlen <= h@.len(),
            forall|k: int| 0 <= k < j ==> h@[i + k] == n@[k],
        decreases nlen - j,
    {
        if h[i + j] != n[j] {
            proof {
                assert(h@.subrange(i as int, i + n@.len())[j as int] == h@[i + j]);
            }
            return false;
        }
        j += 1;
    }
    proof {
        assert(h@.subrange(i as int, i + n@.len()) =~= n@);
    }
    true
}

/// Whether `n` occurs anywhere in `h`.
pub fn contains(h: &Vec<char>, n: &Vec<char>) -> (b: bool)
    ensures
        b == contains_seq(h@, n@),
{
    let hlen = h.len();
    let nlen = n.len();
    if nlen == 0 {
        proof {
            assert(h@.subrange(0, 0) =~= n@);
            assert(is_match_at(h@, n@, 0));
        }
        return true;
    }
    if nlen > hlen {
        proof {
            assert forall|k: int| !is_match_at(h@, n@, k) by {
                if 0 <= k && k + n@.len() <= h@.len() {
                    assert(n@.len() <= h@.len());
                }
            }
        }
        return false;
    }
    let last = hlen - nlen;
    let mut i: usize = 0;
    while i <= last
        invariant
            i <= last + 1,
            last == hlen - nlen,
            1 <= nlen <= hlen,
            hlen == h@.len(),
            nlen == n@.len(),
            forall|k: int| 0 <= k < i ==> !is_match_at(h@, n@, k),
        decreases last + 1 - i,
    {
        if match_at(h, n, i) {
            assert(is_match_at(h@, n@, i as int));
            return true;
        }
        i += 1;
    }
    proof {
        assert forall|k: int| !is_match_at(h@, n@, k) by {
            if 0 <= k && k + n@.len() <= h@.len() {
                assert(k <= last as int);
            }
        }
    }
    false
}

/// `h` with every occurrence of `n` removed, scanning left to right.
pub fn remove_all_occurrences(h: &Vec<char>, n: &Vec<char>) -> (r: Vec<char>)
    requires
        n@.len() >= 1,
    ensures
        r@ == remove_all(h@, n@),
{
    let hlen = h.len();
    let nlen = n.len();
    let mut out: Vec<char> = Vec::new();
    let mut i: usize = 0;
    proof {
        assert(h@.skip(0) =~= h@);
        assert(Seq::<char>::empty() + remove_all(h@, n@) =~= remove_all(h@, n@));
    }
    while i < hlen
        invariant
            i <= hlen,
            hlen == h@.len(),
            nlen == n@.len(),
            nlen >= 1,
            remove_all(h@, n@) == out@ + remove_all(h@.skip(i as int), n@),
        decreases hlen - i,
    {
        if nlen <= hlen - i && match_at(h, n, i) {
            proof {
                let tail = h@.skip(i as int);
                assert(tail.subrange(0, nlen as int) =~= h@.subrange(i as int, i + nlen as int));
                assert(tail.skip(nlen as int) =~= h@.skip(i + nlen as int));
            }
            i += nlen;
        } else {
            out.push(h[i]);
            proof {
                let tail = h@.skip(i as int);
                if nlen <= hlen - i {
                    assert(tail.subrange(0, nlen as int) =~= h@.subrange(
                        i as int,
                        i + nlen as int,
                    ));
                    assert(tail.subrange(0, nlen as int) != n@);
                }
                assert(tail.skip(1) =~= h@.skip(i + 1 as int));
                assert(seq![tail[0]] =~= seq![h@[i as int]]);
                assert(remove_all(tail, n@) == seq![h@[i as int]] + remove_all(
                    h@.skip(i + 1 as int),
                    n@,
                ));
            }
            i += 1;
        }
    }
    proof {
        assert(h@.skip(hlen as int) =~= Seq::<char>::empty());
        assert(remove_all(Seq::<char>::empty(), n@) =~= Seq::<char>::empty());
        assert(remove_all(h@, n@) =~= out@);
    }
    out
}

/// `v` without leading and trailing whitespace.
pub fn trim_spaces(v: &Vec<char>) -> (r: Vec<char>)
    ensures
        r@ == trim(v@),
{
    let len = v.len();
    let mut start: usize = 0;
    proof {
        assert(v@.skip(0) =~= v@);
    }
    while start < len && is_space_char(v[start])
        invariant
            start <= len,
            len == v@.len(),
            trim_front(v@) == trim_front(v@.skip(start as int)),
        decreases len - start,
    {
        proof {
            let tail = v@.skip(start as int);
            assert(tail[0] == v@[start as int]);
            assert(tail.skip(1) =~= v@.skip(start + 1 as int));
        }
        start += 1;
    }
    proof {
        if start < len {
            assert(v@.skip(start as int)[0] == v@[start as int]);
        } else {
            assert(v@.skip(start as int) =~= Seq::<char>::empty());
        }
        assert(trim_front(v@) == v@.skip(start as int));
        assert(v@.skip(start as int) =~= v@.subrange(start as int, len as int));
    }
    let mut end: usize = len;
    while end > start && is_space_char(v[end - 1])
        invariant
            start <= end <= len,
            len == v@.len(),
            trim_back(v@.subrange(start as int, len as int)) == trim_back(
                v@.subrange(start as int, end as int),
            ),
        decreases end,
    {
        proof {
            let piece = v@.subrange(start as int, end as int);
            assert(piece.last() == v@[end - 1 as int]);
            assert(piece.drop_last() =~= v@.subrange(start as int, end - 1 as int));
        }
        end -= 1;
    }
    proof {
        let piece = v@.subrange(start as int, end as int);
        if end > start {
            assert(piece.last() == v@[end - 1 as int]);
        }
        assert(trim_back(piece) == piece);
        assert(trim(v@) == v@.subrange(start as int, end as int));
    }
    let mut out: Vec<char> = Vec::new();
    let mut i: usize = start;
    while i < end
        invariant
            start <= i <= end <= len,
            len == v@.len(),
            out@ == v@.subrange(start as int, i as int),
        decreases end - i,
    {
        out.push(v[i]);
        proof {
            assert(v@.subrange(start as int, i as int) + seq![v@[i as int]] =~= v@.subrange(
                start as int,
                i + 1 as int,
            ));
        }
        i += 1;
    }
    out
}

} // verus!
