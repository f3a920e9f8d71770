//! Small verified text-building helpers shared by every generator: joining
//! fragments with a separator, rendering an index in decimal, and substring
//! search used by the output sanity check.

use vstd::prelude::*;

verus! {

/// The views of a sequence of owned strings.
pub open spec fn views_of(items: Seq<String>) -> Seq<Seq<char>> {
    items.map_values(|s: String| s@)
}

/// Fragments joined with `sep` between neighbours; empty input gives the
/// empty text.
pub open spec fn joined(items: Seq<Seq<char>>, sep: Seq<char>) -> Seq<char>
    decreases items.len(),
{
    if items.len() == 0 {
        Seq::empty()
    } else if items.len() == 1 {
        items[0]
    } else {
        joined(items.drop_last(), sep) + sep + items.last()
    }
}

/// Decide whether two string slices hold the same text.
pub fn str_eq(a: &str, b: &str) -> (r: bool)
    ensures
        r == (a@ == b@),
{
    let n = a.unicode_len();
    if n != b.unicode_len() {
        return false;
    }
    let mut i: usize = 0;
    while i < n
        invariant
            n == a@.len(),
            n == b@.len(),
            i <= n,
            forall|k: int| 0 <= k < i ==> a@[k] == b@[k],
        decreases n - i,
    {
        if a.get_char(i) != b.get_char(i) {
            return false;
        }
        i = i + 1;
    }
    proof {
        assert(a@ =~= b@);
    }
    true
}

/// Join owned strings with a separator.
pub fn join_strings(items: &Vec<String>, sep: &str) -> (r: String)
    ensures
        r@ == joined(views_of(items@), sep@),
{
    let mut acc = String::new();
    let mut i: usize = 0;
    while i < items.len()
        invariant
            i <= items.len(),
            acc@ == joined(views_of(items@).subrange(0, i as int), sep@),
        decreases items.len() - i,
    {
        if i > 0 {
            acc.append(sep);
        }
        acc.append(items[i].as_str());
        proof {
            let whole = views_of(items@);
            assert(whole.subrange(0, i + 1 as int).drop_last() =~= whole.subrange(0, i as int));
            assert(whole.subrange(0, i + 1 as int).last() == items@[i as int]@);
        }
        i = i + 1;
    }
    proof {
        assert(views_of(items@).subrange(0, items@.len() as int) =~= views_of(items@));
    }
    acc
}

/// The text of one decimal digit.
pub open spec fn digit_lit(d: nat) -> Seq<char> {
    if d == 0 {
        "0"@
    } else if d == 1 {
        "1"@
    } else if d == 2 {
        "2"@
    } else if d == 3 {
        "3"@
    } else if d == 4 {
        "4"@
    } else if d == 5 {
        "5"@
    } else if d == 6 {
        "6"@
    } else if d == 7 {
        "7"@
    } else if d == 8 {
        "8"@
    } else {
        "9"@
    }
}

/// The decimal rendering of a number, most significant digit first.
pub open spec fn dec_rep(n: nat) -> Seq<char>
    decreases n,
{
    if n < 10 {
        digit_lit(n)
    } else {
        dec_rep(n / 10) + digit_lit(n % 10)
    }
}

/// The text of one decimal digit.
fn digit_str(d: usize) -> (r: &'static str)
    requires
        d < 10,
    ensures
        r@ == digit_lit(d as nat),
{
    if d == 0 {
        "0"
    } else if d == 1 {
        "1"
    } else if d == 2 {
        "2"
    } else if d == 3 {
        "3"
    } else if d == 4 {
        "4"
    } else if d == 5 {
        "5"
    } else if d == 6 {
        "6"
    } else if d == 7 {
        "7"
    } else if d == 8 {
        "8"
    } else {
        "9"
    }
}

/// Render a number in decimal.
pub fn usize_to_string(n: usize) -> (r: String)
    ensures
        r@ == dec_rep(n as nat),
    decreases n,
{
    if n < 10 {
        String::from_str(digit_str(n))
    } else {
        let mut s = usize_to_string(n / 10);
        s.append(digit_str(n % 10));
        s
    }
}

/// The needle occurs contiguously somewhere in the hay.
pub open spec fn is_substr(hay: Seq<char>, needle: Seq<char>) -> bool {
    exists|k: int|
        0 <= k <= hay.len() - needle.len() && #[trigger] hay.subrange(k, k + needle.len() as int)
            == needle
}

/// Decide whether the needle matches the hay at one position.
fn match_at(hay: &str, needle: &str, k: usize) -> (r: bool)
    requires
        k + needle@.len() <= hay@.len(),
    ensures
        r == (hay@.subrange(k as int, k + needle@.len() as int) == needle@),
{
    let hn = hay.unicode_len();
    let nn = needle.unicode_len();
    let mut j: usize = 0;
    while j < nn
        invariant
            hn == hay@.len(),
            nn == needle@.len(),
            k + nn <= hn,
            j <= nn,
            forall|m: int| 0 <= m < j ==> hay@[k + m] == needle@[m],
        decreases nn - j,
    {
        if hay.get_char(k + j) != needle.get_char(j) {
            proof {
                assert(hay@.subrange(k as int, k + needle@.len() as int)[j as int] == hay@[k + j]);
            }
            return false;
        }
        j = j + 1;
    }
    proof {
        assert(hay@.subrange(k as int, k + needle@.len() as int) =~= needle@);
    }
    true
}

/// Decide whether the needle occurs anywhere in the hay.
pub fn contains_str(hay: &str, needle: &str) -> (r: bool)
    ensures
        r == is_substr(hay@, needle@),
{
    let hn = hay.unicode_len();
    let nn = needle.unicode_len();
    if nn > hn {
        return false;
    }
    if nn == 0 {
        proof {
            assert(hay@.subrange(0, 0 + needle@.len() as int) =~= needle@);
        }
        return true;
    }
    let mut k: usize = 0;
    while k <= hn - nn
        invariant
            hn == hay@.len(),
            nn == needle@.len(),
            1 <= nn <= hn,
            k <= hn - nn + 1,
            forall|k2: int|
                0 <= k2 < k ==> #[trigger] hay@.subrange(k2, k2 + nn as int) != needle@,
        decreases hn - nn - k + 1,
    {
        if match_at(hay, needle, k) {
            return true;
        }
        k = k + 1;
    }
    false
}

/// The hay with every occurrence of `from` replaced by `to`, scanning left
/// to right, never rescanning replaced text.
pub open spec fn replaced(hay: Seq<char>, from: Seq<char>, to: Seq<char>) -> Seq<char>
    recommends
        from.len() > 0,
    decreases hay.len(),
{
    if from.len() == 0 || hay.len() < from.len() {
        hay
    } else if hay.subrange(0, from.len() as int) == from {
        to + replaced(hay.skip(from.len() as int), from, to)
    } else {
        hay.take(1) + replaced(hay.skip(1), from, to)
    }
}

/// Replace every occurrence of `from` by `to`, scanning left to right.
pub fn replace_all(hay: &str, from: &str, to: &str) -> (r: String)
    requires
        from@.len() > 0,
    ensures
        r@ == replaced(hay@, from@, to@),
    decreases hay@.len(),
{
    let hn = hay.unicode_len();
    let fl = from.unicode_len();
    if hn < fl {
        return String::from_str(hay);
    }
    if match_at(hay, from, 0) {
        let rest = hay.substring_char(fl, hn);
        proof {
            assert(rest@ =~= hay@.skip(fl as int));
        }
        let mut out = String::from_str(to);
        out.append(replace_all(rest, from, to).as_str());
        out
    } else {
        let head = hay.substring_char(0, 1);
        let rest = hay.substring_char(1, hn);
        proof {
            assert(head@ =~= hay@.take(1));
            assert(rest@ =~= hay@.skip(1));
        }
        let mut out = String::from_str(head);
        out.append(replace_all(rest, from, to).as_str());
        out
    }
}

} // verus!
