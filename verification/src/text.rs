//! Small verified text helpers: character-level string editing,
//! decimal rendering, substring search, and copying.

use vstd::prelude::*;

verus! {

/// Relies on `String::push`: appends exactly the given character to
/// the end of the string.
#[verifier::external_body]
pub(crate) fn push_char(s: &mut String, c: char)
    ensures
        final(s)@ == old(s)@.push(c),
{
    s.push(c);
}

/// Relies on `String::pop`: removes and returns the last character of
/// the string, or returns `None` when the string is empty.
#[verifier::external_body]
pub(crate) fn pop_char(s: &mut String) -> (r: Option<char>)
    ensures
        old(s)@.len() == 0 ==> final(s)@ == old(s)@ && r is None,
        old(s)@.len() > 0 ==> final(s)@ == old(s)@.drop_last() && r == Some(old(s)@.last()),
{
    s.pop()
}

/// The decimal digit character for a value below ten.
pub open spec fn dec_digit(d: int) -> char {
    if d == 0 {
        '0'
    } else if d == 1 {
        '1'
    } else if d == 2 {
        '2'
    } else if d == 3 {
        '3'
    } else if d == 4 {
        '4'
    } else if d == 5 {
        '5'
    } else if d == 6 {
        '6'
    } else if d == 7 {
        '7'
    } else if d == 8 {
        '8'
    } else {
        '9'
    }
}

/// The usual decimal rendering of a natural number, most significant
/// digit first, with no leading zeros (zero itself renders as "0").
pub open spec fn dec_str(n: nat) -> Seq<char>
    decreases n,
{
    if n < 10 {
        seq![dec_digit(n as int)]
    } else {
        dec_str(n / 10).push(dec_digit((n % 10) as int))
    }
}

fn dec_digit_exec(d: usize) -> (c: char)
    requires
        d < 10,
    ensures
        c == dec_digit(d as int),
{
    if d == 0 {
        '0'
    } else if d == 1 {
        '1'
    } else if d == 2 {
        '2'
    } else if d == 3 {
        '3'
    } else if d == 4 {
        '4'
    } else if d == 5 {
        '5'
    } else if d == 6 {
        '6'
    } else if d == 7 {
        '7'
    } else if d == 8 {
        '8'
    } else {
        '9'
    }
}

/// Renders a number in decimal.
pub fn usize_to_string(n: usize) -> (r: String)
    ensures
        r@ == dec_str(n as nat),
    decreases n,
{
    if n < 10 {
        let mut s = String::new();
        push_char(&mut s, dec_digit_exec(n));
        assert(s@ =~= dec_str(n as nat));
        s
    } else {
        let mut s = usize_to_string(n / 10);
        push_char(&mut s, dec_digit_exec(n % 10));
        s
    }
}

/// Whether `needle` occurs contiguously inside `hay`. The empty
/// sequence occurs in everything.
pub open spec fn is_substring(needle: Seq<char>, hay: Seq<char>) -> bool {
    exists|k: int|
        0 <= k <= hay.len() - needle.len() && #[trigger] hay.subrange(k, k + needle.len())
            == needle
}

/// Decides whether `needle` occurs contiguously inside `hay`.
pub fn contains_sub(hay: &String, needle: &String) -> (r: bool)
    ensures
        r == is_substring(needle@, hay@),
{
    let hs = hay.as_str();
    let ns = needle.as_str();
    let hlen = hs.unicode_len();
    let nlen = ns.unicode_len();
    if nlen > hlen {
        return false;
    }
    if nlen == 0 {
        assert(is_substring(needle@, hay@)) by {
            assert(hay@.subrange(0, 0 + needle@.len() as int) =~= needle@);
        }
        return true;
    }
    let mut k: usize = 0;
    while k <= hlen - nlen
        invariant
            1 <= nlen <= hlen,
            hlen == hay@.len(),
            nlen == needle@.len(),
            hs@ == hay@,
            ns@ == needle@,
            forall|k2: int|
                0 <= k2 < k ==> #[trigger] hay@.subrange(k2, k2 + needle@.len() as int)
                    != needle@,
        decreases hlen - nlen - k + 1,
    {
        let mut j: usize = 0;
        let mut matched = true;
        while j < nlen
            invariant
                k + nlen <= hlen,
                hlen == hay@.len(),
                nlen == needle@.len(),
                hs@ == hay@,
                ns@ == needle@,
                j <= nlen,
                matched ==> forall|j2: int| 0 <= j2 < j ==> hay@[k + j2] == needle@[j2],
                !matched ==> hay@.subrange(k as int, k + needle@.len() as int) != needle@,
            decreases nlen - j,
        {
            if matched {
                let hc = hs.get_char(k + j);
                let nc = ns.get_char(j);
                if hc != nc {
                    assert(hay@.subrange(k as int, k + needle@.len() as int) != needle@) by {
                        assert(hay@.subrange(k as int, k + needle@.len() as int)[j as int]
                            == hay@[k + j]);
                    }
                    matched = false;
                }
            }
            j = j + 1;
        }
        if matched {
            assert(hay@.subrange(k as int, k + needle@.len() as int) =~= needle@);
            return true;
        }
        k = k + 1;
    }
    assert(forall|k2: int|
        0 <= k2 <= hay@.len() - needle@.len() ==> #[trigger] hay@.subrange(
            k2,
            k2 + needle@.len() as int,
        ) != needle@);
    false
}

/// Copies a vector of strings.
pub fn clone_string_vec(v: &Vec<String>) -> (r: Vec<String>)
    ensures
        r@ == v@,
{
    let mut r: Vec<String> = Vec::new();
    let mut i: usize = 0;
    while i < v.len()
        invariant
            i <= v.len(),
            r@ == v@.subrange(0, i as int),
        decreases v.len() - i,
    {
        r.push(v[i].clone());
        assert(r@ =~= v@.subrange(0, i + 1));
        i = i + 1;
    }
    assert(r@ =~= v@);
    r
}

/// Copies a vector of rows, each row a vector of cell strings.
pub fn clone_rows(v: &Vec<Vec<String>>) -> (r: Vec<Vec<String>>)
    ensures
        r.deep_view() == v.deep_view(),
{
    let mut r: Vec<Vec<String>> = Vec::new();
    let mut i: usize = 0;
    while i < v.len()
        invariant
            i <= v.len(),
            r@.len() == i,
            forall|j: int| 0 <= j < i ==> #[trigger] r.deep_view()[j] == v.deep_view()[j],
        decreases v.len() - i,
    {
        let w = clone_string_vec(&v[i]);
        proof {
            assert(w.deep_view() =~= v@[i as int].deep_view());
        }
        let ghost r_prev = r@;
        let ghost d_prev = r.deep_view();
        r.push(w);
        proof {
            assert forall|j: int| 0 <= j < i + 1 implies #[trigger] r.deep_view()[j]
                == v.deep_view()[j] by {
                assert(r.deep_view()[j] == r@[j].deep_view());
                if j < i {
                    assert(r@[j] == r_prev[j]);
                    assert(d_prev[j] == r_prev[j].deep_view());
                    assert(d_prev[j] == v.deep_view()[j]);
                } else {
                    assert(r@[j] == w);
                }
            }
        }
        i = i + 1;
    }
    assert(r.deep_view() =~= v.deep_view());
    r
}

} // verus!
