//! Small verified utilities on strings: equality, substring search, and
//! rendering an unsigned number in decimal.

use vstd::prelude::*;

verus! {

/// `needle` occurs in `hay` starting at index `i`.
pub open spec fn occurs_at(hay: Seq<char>, needle: Seq<char>, i: int) -> bool {
    0 <= i && i + needle.len() <= hay.len() && hay.subrange(i, i + needle.len() as int)
        == needle
}

/// `needle` occurs somewhere in `hay`.
pub open spec fn contains_seq(hay: Seq<char>, needle: Seq<char>) -> bool {
    exists|i: int| occurs_at(hay, needle, i)
}

/// Character-wise equality of two string slices.
pub fn str_eq(a: &str, b: &str) -> (r: bool)
    ensures
        r == (a@ == b@),
{
    let alen: usize = a.unicode_len();
    let blen: usize = b.unicode_len();
    if alen != blen {
        return false;
    }
    let mut i: usize = 0;
    while i < alen
        invariant
            alen == a@.len(),
            blen == b@.len(),
            alen == blen,
            i <= alen,
            forall|k: int| 0 <= k < i ==> a@[k] == b@[k],
        decreases alen - i,
    {
        let ca = a.get_char(i);
        let cb = b.get_char(i);
        if ca != cb {
            return false;
        }
        i = i + 1;
    }
    proof {
        assert(a@ =~= b@);
    }
    true
}

/// Whether `needle` occurs in `hay` at exactly the index `i`.
fn match_at(hay: &str, needle: &str, i: usize) -> (r: bool)
    requires
        i + needle@.len() <= hay@.len(),
    ensures
        r == occurs_at(hay@, needle@, i as int),
{
    let nlen: usize = needle.unicode_len();
    let hlen: usize = hay.unicode_len();
    let mut j: usize = 0;
    while j < nlen
        invariant
            nlen == needle@.len(),
            hlen == hay@.len(),
            i + nlen <= hlen,
            j <= nlen,
            forall|k: int| 0 <= k < j ==> hay@[i + k] == needle@[k],
        decreases nlen - j,
    {
        let ca = hay.get_char(i + j);
        let cb = needle.get_char(j);
        if ca != cb {
            proof {
                if occurs_at(hay@, needle@, i as int) {
                    assert(hay@.subrange(i as int, i + needle@.len() as int)[j as int]
                        == needle@[j as int]);
                }
            }
            return false;
        }
        j = j + 1;
    }
    proof {
        assert(hay@.subrange(i as int, i + needle@.len() as int) =~= needle@);
    }
    true
}

/// Substring search: whether `needle` occurs anywhere in `hay`.
pub fn contains_str(hay: &str, needle: &str) -> (r: bool)
    ensures
        r == contains_seq(hay@, needle@),
{
    let hlen: usize = hay.unicode_len();
    let nlen: usize = needle.unicode_len();
    if nlen > hlen {
        return false;
    }
    if nlen == 0 {
        proof {
            assert(hay@.subrange(0, 0) =~= needle@);
            assert(occurs_at(hay@, needle@, 0));
        }
        return true;
    }
    let mut i: usize = 0;
    while i <= hlen - nlen
        invariant
            hlen == hay@.len(),
            nlen == needle@.len(),
            0 < nlen <= hlen,
            i <= hlen - nlen + 1,
            forall|k: int| 0 <= k < i ==> !occurs_at(hay@, needle@, k),
        decreases hlen - nlen - i + 1,
    {
        if match_at(hay, needle, i) {
            return true;
        }
        i = i + 1;
    }
    proof {
        assert forall|k: int| !occurs_at(hay@, needle@, k) by {
            if 0 <= k && k + needle@.len() <= hay@.len() {
                assert(k < i);
            }
        }
    }
    false
}

/// The number of indices at or after `from` where `needle` occurs in
/// `hay`. An empty needle counts as occurring nowhere.
pub open spec fn occ_count_from(hay: Seq<char>, needle: Seq<char>, from: int) -> nat
    decreases hay.len() - needle.len() - from + 1,
{
    if needle.len() == 0 || from > hay.len() - needle.len() {
        0
    } else {
        (if occurs_at(hay, needle, from) {
            1nat
        } else {
            0nat
        }) + occ_count_from(hay, needle, from + 1)
    }
}

/// The number of occurrences of `needle` in `hay`.
pub open spec fn occ_count(hay: Seq<char>, needle: Seq<char>) -> nat {
    occ_count_from(hay, needle, 0)
}

/// A needle that occurs nowhere at or after `from` counts zero there.
pub proof fn lemma_occ_count_zero(hay: Seq<char>, needle: Seq<char>, from: int)
    requires
        forall|i: int| from <= i ==> !occurs_at(hay, needle, i),
    ensures
        occ_count_from(hay, needle, from) == 0,
    decreases hay.len() - needle.len() - from + 1,
{
    if needle.len() == 0 || from > hay.len() - needle.len() {
    } else {
        lemma_occ_count_zero(hay, needle, from + 1);
    }
}

/// Counting in a concatenation splits at the boundary, provided every
/// occurrence that begins inside `a` lies inside `a`: the count from `i`
/// is the count inside `a` plus the count beginning at the boundary.
pub proof fn lemma_occ_count_split(a: Seq<char>, b: Seq<char>, needle: Seq<char>, i: int)
    requires
        needle.len() >= 1,
        forall|j: int|
            0 <= j < a.len() ==> (occurs_at(a + b, needle, j) <==> occurs_at(a, needle, j)),
        0 <= i <= a.len(),
    ensures
        occ_count_from(a + b, needle, i) == occ_count_from(a, needle, i) + occ_count_from(
            a + b,
            needle,
            a.len() as int,
        ),
    decreases a.len() - i,
{
    if i == a.len() {
        assert(occ_count_from(a, needle, i) == 0);
    } else {
        lemma_occ_count_split(a, b, needle, i + 1);
    }
}

/// Counting past the boundary of a concatenation is counting in the
/// second part alone.
pub proof fn lemma_occ_count_shift(a: Seq<char>, b: Seq<char>, needle: Seq<char>, j: int)
    requires
        needle.len() >= 1,
        0 <= j,
    ensures
        occ_count_from(a + b, needle, a.len() + j) == occ_count_from(b, needle, j),
    decreases b.len() - needle.len() - j + 1,
{
    assert(occurs_at(a + b, needle, a.len() + j) <==> occurs_at(b, needle, j)) by {
        if occurs_at(a + b, needle, a.len() + j) {
            assert forall|k: int| 0 <= k < needle.len() implies b[j + k] == needle[k] by {
                assert((a + b).subrange(
                    a.len() + j,
                    a.len() + j + needle.len() as int,
                )[k] == needle[k]);
            }
            assert(b.subrange(j, j + needle.len() as int) =~= needle);
        }
        if occurs_at(b, needle, j) {
            assert forall|k: int| 0 <= k < needle.len() implies (a + b)[a.len() + j + k]
                == needle[k] by {
                assert(b.subrange(j, j + needle.len() as int)[k] == needle[k]);
            }
            assert((a + b).subrange(
                a.len() + j,
                a.len() + j + needle.len() as int,
            ) =~= needle);
        }
    }
    if j > b.len() - needle.len() {
        assert(occ_count_from(a + b, needle, a.len() + j) == 0);
        assert(occ_count_from(b, needle, j) == 0);
    } else {
        lemma_occ_count_shift(a, b, needle, j + 1);
    }
}

/// The character for one decimal digit.
pub open spec fn spec_digit(d: nat) -> char {
    if d == 0 {
        '0'
    } else if d == 1 {
        '1'
    } else if d == 2 {
        '2'
    } else if d == 3 {
        '3'
    } else if d == 4 {
        '4'
    } else if d == 5 {
        '5'
    } else if d == 6 {
        '6'
    } else if d == 7 {
        '7'
    } else if d == 8 {
        '8'
    } else {
        '9'
    }
}

/// The decimal rendering of a number, most significant digit first.
pub open spec fn spec_dec(n: nat) -> Seq<char>
    decreases n,
{
    if n < 10 {
        seq![spec_digit(n)]
    } else {
        spec_dec(n / 10) + seq![spec_digit(n % 10)]
    }
}

/// The one-character string for a decimal digit.
fn digit_str(d: u64) -> (r: &'static str)
    requires
        d < 10,
    ensures
        r@ == seq![spec_digit(d as nat)],
{
    proof {
        reveal_strlit("0");
        reveal_strlit("1");
        reveal_strlit("2");
        reveal_strlit("3");
        reveal_strlit("4");
        reveal_strlit("5");
        reveal_strlit("6");
        reveal_strlit("7");
        reveal_strlit("8");
        reveal_strlit("9");
    }
    let r: &'static str = if d == 0 {
        "0"
    } else if d == 1 {
        "1"
    } else if d == 2 {
        "2"
    } else if d == 3 {
        "3"
    } else if d == 4 {
        "4"
    } else if d == 5 {
        "5"
    } else if d == 6 {
        "6"
    } else if d == 7 {
        "7"
    } else if d == 8 {
        "8"
    } else {
        "9"
    };
    proof {
        assert(r@ =~= seq![spec_digit(d as nat)]);
    }
    r
}

/// Renders `n` in decimal.
pub fn u64_to_dec(n: u64) -> (r: String)
    ensures
        r@ == spec_dec(n as nat),
    decreases n,
{
    if n < 10 {
        let r = digit_str(n).to_owned();
        r
    } else {
        let prefix = u64_to_dec(n / 10);
        let r = prefix.concat(digit_str(n % 10));
        r
    }
}

} // verus!
