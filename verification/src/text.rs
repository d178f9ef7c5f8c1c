//! Verified text building blocks used by the feature renders and the
//! status bar: decimal formatting, joining with a separator, substring
//! search, placeholder substitution and lexicographic comparison.

use vstd::prelude::*;
use vstd::string::StrSliceExecFns;
use vstd::string::StringExecFns;

verus! {

/// The character of a single decimal digit.
pub open spec fn spec_digit(d: nat) -> char {
    if d == 0 {
        '0'
    } else if d == 1 {
        '1'
    } else if d == 2 {
        '2'
    } else if d == 3 {
        '3'
    } else if d == 4 {
        '4'
    } else if d == 5 {
        '5'
    } else if d == 6 {
        '6'
    } else if d == 7 {
        '7'
    } else if d == 8 {
        '8'
    } else {
        '9'
    }
}

/// The decimal representation of a number, most significant digit first,
/// with no leading zeros (a single `0` for zero).
pub open spec fn spec_decimal(n: nat) -> Seq<char>
    decreases n,
{
    if n < 10 {
        seq![spec_digit(n)]
    } else {
        spec_decimal(n / 10) + seq![spec_digit(n % 10)]
    }
}

/// The decimal representation, zero-padded on the left to at least two
/// digits.
pub open spec fn spec_pad2(n: nat) -> Seq<char> {
    if n < 10 {
        seq!['0'] + spec_decimal(n)
    } else {
        spec_decimal(n)
    }
}

/// The items joined with the separator between each adjacent pair.
pub open spec fn spec_join(items: Seq<Seq<char>>, sep: Seq<char>) -> Seq<char>
    decreases items.len(),
{
    if items.len() == 0 {
        Seq::empty()
    } else if items.len() == 1 {
        items[0]
    } else {
        items[0] + sep + spec_join(items.skip(1), sep)
    }
}

/// The pattern occurs in `s` starting at position `i`.
pub open spec fn spec_match_at(s: Seq<char>, pat: Seq<char>, i: int) -> bool {
    0 <= i && i + pat.len() <= s.len() && s.subrange(i, i + pat.len()) == pat
}

/// The pattern occurs somewhere in `s`.
pub open spec fn spec_contains(s: Seq<char>, pat: Seq<char>) -> bool {
    exists|i: int| spec_match_at(s, pat, i)
}

/// `s` with every occurrence of a non-empty pattern replaced, scanning from
/// the left and never re-examining replaced text.  An empty pattern leaves
/// `s` unchanged.
pub open spec fn spec_replace(s: Seq<char>, pat: Seq<char>, rep: Seq<char>) -> Seq<char>
    decreases s.len(),
{
    if pat.len() == 0 || pat.len() > s.len() {
        s
    } else if s.subrange(0, pat.len() as int) == pat {
        rep + spec_replace(s.skip(pat.len() as int), pat, rep)
    } else {
        seq![s[0]] + spec_replace(s.skip(1), pat, rep)
    }
}

/// Lexicographic order on character sequences, by Unicode scalar value;
/// a proper prefix comes first.  This is the order `str` comparison gives,
/// since UTF-8 byte order agrees with scalar order.
pub open spec fn spec_chars_le(a: Seq<char>, b: Seq<char>) -> bool
    decreases a.len(),
{
    if a.len() == 0 {
        true
    } else if b.len() == 0 {
        false
    } else if (a[0] as u32) != (b[0] as u32) {
        (a[0] as u32) < (b[0] as u32)
    } else {
        spec_chars_le(a.skip(1), b.skip(1))
    }
}

/// The order is reflexive.
pub proof fn lemma_chars_le_refl(a: Seq<char>)
    ensures
        spec_chars_le(a, a),
    decreases a.len(),
{
    if a.len() > 0 {
        lemma_chars_le_refl(a.skip(1));
    }
}

/// The order is total: two sequences compare in one direction or the other.
pub proof fn lemma_chars_le_total(a: Seq<char>, b: Seq<char>)
    ensures
        spec_chars_le(a, b) || spec_chars_le(b, a),
    decreases a.len(),
{
    if a.len() > 0 && b.len() > 0 && (a[0] as u32) == (b[0] as u32) {
        lemma_chars_le_total(a.skip(1), b.skip(1));
    }
}

/// One decimal digit as a string slice.
fn digit_str(d: u64) -> (r: &'static str)
    requires
        d < 10,
    ensures
        r@ == seq![spec_digit(d as nat)],
{
    proof {
        reveal_strlit("0");
        reveal_strlit("1");
        reveal_strlit("2");
        reveal_strlit("3");
        reveal_strlit("4");
        reveal_strlit("5");
        reveal_strlit("6");
        reveal_strlit("7");
        reveal_strlit("8");
        reveal_strlit("9");
    }
    let r: &'static str = if d == 0 {
        "0"
    } else if d == 1 {
        "1"
    } else if d == 2 {
        "2"
    } else if d == 3 {
        "3"
    } else if d == 4 {
        "4"
    } else if d == 5 {
        "5"
    } else if d == 6 {
        "6"
    } else if d == 7 {
        "7"
    } else if d == 8 {
        "8"
    } else {
        "9"
    };
    proof {
        assert(r@ =~= seq![spec_digit(d as nat)]);
    }
    r
}

/// The decimal representation of `n`.
pub fn decimal_string(n: u64) -> (r: String)
    ensures
        r@ == spec_decimal(n as nat),
    decreases n,
{
    if n < 10 {
        String::from_str(digit_str(n))
    } else {
        let mut r = decimal_string(n / 10);
        r.append(digit_str(n % 10));
        proof {
            assert(r@ =~= spec_decimal(n as nat));
        }
        r
    }
}

/// The decimal representation of `n`, zero-padded to at least two digits.
pub fn padded2_string(n: u64) -> (r: String)
    ensures
        r@ == spec_pad2(n as nat),
{
    if n < 10 {
        let mut r = String::from_str("0");
        r.append(digit_str(n));
        proof {
            reveal_strlit("0");
            assert(r@ =~= spec_pad2(n as nat));
        }
        r
    } else {
        decimal_string(n)
    }
}

/// The items joined with the separator between each adjacent pair.
pub fn join_strings(items: &Vec<String>, sep: &str) -> (r: String)
    ensures
        r@ == spec_join(items.deep_view(), sep@),
{
    let ghost dv = items.deep_view();
    let mut r = String::new();
    let mut i: usize = 0;
    while i < items.len()
        invariant
            i <= items.len(),
            dv == items.deep_view(),
            dv.len() == items@.len(),
            i == 0 ==> r@ == Seq::<char>::empty(),
            0 < i < dv.len() ==> spec_join(dv, sep@) == r@ + sep@ + spec_join(
                dv.skip(i as int),
                sep@,
            ),
            i == dv.len() && i > 0 ==> r@ == spec_join(dv, sep@),
        decreases items.len() - i,
    {
        proof {
            assert(dv[i as int] == items@[i as int]@);
        }
        if i > 0 {
            r.append(sep);
        }
        r.append(items[i].as_str());
        proof {
            let gi = i as int;
            if gi + 1 < dv.len() {
                assert(dv.skip(gi)[0] == dv[gi]);
                assert(dv.skip(gi).skip(1) =~= dv.skip(gi + 1));
                assert(spec_join(dv.skip(gi), sep@) == dv[gi] + sep@ + spec_join(
                    dv.skip(gi + 1),
                    sep@,
                ));
            } else {
                assert(dv.skip(gi).len() == 1);
                assert(dv.skip(gi)[0] == dv[gi]);
                assert(spec_join(dv.skip(gi), sep@) == dv[gi]);
            }
            if gi == 0 {
                if dv.len() == 1 {
                    assert(r@ =~= spec_join(dv, sep@));
                } else {
                    assert(dv.skip(0) =~= dv);
                    assert(r@ =~= dv[0]);
                }
            }
        }
        i += 1;
    }
    proof {
        if items.len() == 0 {
            assert(r@ =~= spec_join(dv, sep@));
        }
    }
    r
}

/// The pattern matches `s` at position `i`.
fn match_at(s: &str, pat: &str, i: usize, n: usize, p: usize) -> (r: bool)
    requires
        n == s@.len(),
        p == pat@.len(),
        i <= n,
        p <= n - i,
    ensures
        r == spec_match_at(s@, pat@, i as int),
{
    let mut j: usize = 0;
    while j < p
        invariant
            j <= p,
            n == s@.len(),
            p == pat@.len(),
            i <= n,
            p <= n - i,
            forall|k: int| 0 <= k < j ==> s@[i + k] == pat@[k],
        decreases p - j,
    {
        if s.get_char(i + j) != pat.get_char(j) {
            proof {
                assert(s@.subrange(i as int, i + p) != pat@) by {
                    assert(s@.subrange(i as int, i + p)[j as int] == s@[i + j]);
                }
            }
            return false;
        }
        j += 1;
    }
    proof {
        assert(s@.subrange(i as int, i + p) =~= pat@);
    }
    true
}

/// Whether the pattern occurs in `s`.  An empty pattern occurs in every
/// string.
pub fn str_contains(s: &str, pat: &str) -> (r: bool)
    ensures
        r == spec_contains(s@, pat@),
{
    let n = s.unicode_len();
    let p = pat.unicode_len();
    if p > n {
        proof {
            assert(forall|i: int| !spec_match_at(s@, pat@, i));
        }
        return false;
    }
    if p == 0 {
        proof {
            assert(s@.subrange(0, 0) =~= pat@);
            assert(spec_match_at(s@, pat@, 0));
        }
        return true;
    }
    let mut i: usize = 0;
    loop
        invariant
            n == s@.len(),
            p == pat@.len(),
            1 <= p <= n,
            i <= n - p,
            forall|k: int| 0 <= k < i ==> !spec_match_at(s@, pat@, k),
        decreases n - p - i,
    {
        if match_at(s, pat, i, n, p) {
            proof {
                assert(spec_match_at(s@, pat@, i as int));
            }
            return true;
        }
        if i == n - p {
            proof {
                assert(forall|k: int| !spec_match_at(s@, pat@, k));
            }
            return false;
        }
        i += 1;
    }
}

/// `s` with every occurrence of the non-empty pattern replaced, scanning
/// from the left.
pub fn str_replace(s: &str, pat: &str, rep: &str) -> (r: String)
    requires
        pat@.len() >= 1,
    ensures
        r@ == spec_replace(s@, pat@, rep@),
{
    let n = s.unicode_len();
    let p = pat.unicode_len();
    let mut r = String::new();
    let mut i: usize = 0;
    proof {
        assert(s@.skip(0) =~= s@);
        assert(Seq::<char>::empty() + spec_replace(s@, pat@, rep@) =~= spec_replace(
            s@,
            pat@,
            rep@,
        ));
    }
    while i < n
        invariant
            n == s@.len(),
            p == pat@.len(),
            p >= 1,
            i <= n,
            spec_replace(s@, pat@, rep@) == r@ + spec_replace(s@.skip(i as int), pat@, rep@),
        decreases n - i,
    {
        let ghost gi = i as int;
        let ghost tail = s@.skip(gi);
        if p <= n - i && match_at(s, pat, i, n, p) {
            r.append(rep);
            proof {
                assert(tail.subrange(0, p as int) =~= s@.subrange(gi, gi + p));
                assert(tail.skip(p as int) =~= s@.skip(gi + p));
                assert(spec_replace(tail, pat@, rep@) == rep@ + spec_replace(
                    s@.skip(gi + p),
                    pat@,
                    rep@,
                ));
            }
            i += p;
        } else {
            r.append(s.substring_char(i, i + 1));
            proof {
                assert(tail.skip(1) =~= s@.skip(gi + 1));
                if p <= n - i {
                    assert(!spec_match_at(s@, pat@, gi));
                    assert(tail.subrange(0, p as int) =~= s@.subrange(gi, gi + p));
                    assert(tail.subrange(0, p as int) != pat@);
                    assert(tail[0] == s@[gi]);
                    assert(spec_replace(tail, pat@, rep@) == seq![s@[gi]] + spec_replace(
                        s@.skip(gi + 1),
                        pat@,
                        rep@,
                    ));
                } else {
                    assert(p > tail.len());
                    assert(spec_replace(tail, pat@, rep@) == tail);
                    assert(p > tail.skip(1).len());
                    assert(spec_replace(tail.skip(1), pat@, rep@) == tail.skip(1));
                    assert(tail =~= seq![tail[0]] + tail.skip(1));
                    assert(tail[0] == s@[gi]);
                }
                assert(s@.subrange(gi, gi + 1) =~= seq![s@[gi]]);
            }
            i += 1;
        }
    }
    proof {
        assert(s@.skip(n as int) =~= Seq::<char>::empty());
        assert(spec_replace(s@.skip(n as int), pat@, rep@) =~= Seq::<char>::empty());
        assert(r@ + Seq::<char>::empty() =~= r@);
    }
    r
}

/// Equality of two string slices, by their characters.
pub fn str_eq(a: &str, b: &str) -> (r: bool)
    ensures
        r == (a@ == b@),
{
    let n = a.unicode_len();
    let m = b.unicode_len();
    if n != m {
        return false;
    }
    let mut i: usize = 0;
    while i < n
        invariant
            n == a@.len(),
            n == b@.len(),
            i <= n,
            forall|k: int| 0 <= k < i ==> a@[k] == b@[k],
        decreases n - i,
    {
        if a.get_char(i) != b.get_char(i) {
            return false;
        }
        i += 1;
    }
    proof {
        assert(a@ =~= b@);
    }
    true
}

/// Lexicographic comparison of two string slices.
pub fn str_le(a: &str, b: &str) -> (r: bool)
    ensures
        r == spec_chars_le(a@, b@),
{
    let n = a.unicode_len();
    let m = b.unicode_len();
    let mut i: usize = 0;
    proof {
        assert(a@.skip(0) =~= a@);
        assert(b@.skip(0) =~= b@);
    }
    while i < n && i < m
        invariant
            n == a@.len(),
            m == b@.len(),
            i <= n,
            i <= m,
            spec_chars_le(a@, b@) == spec_chars_le(a@.skip(i as int), b@.skip(i as int)),
        decreases n - i,
    {
        let ca = a.get_char(i);
        let cb = b.get_char(i);
        let ghost gi = i as int;
        if (ca as u32) != (cb as u32) {
            proof {
                assert(a@.skip(gi)[0] == a@[gi]);
                assert(b@.skip(gi)[0] == b@[gi]);
            }
            return (ca as u32) < (cb as u32);
        }
        proof {
            assert(a@.skip(gi)[0] == a@[gi]);
            assert(b@.skip(gi)[0] == b@[gi]);
            assert(a@.skip(gi).skip(1) =~= a@.skip(gi + 1));
            assert(b@.skip(gi).skip(1) =~= b@.skip(gi + 1));
        }
        i += 1;
    }
    proof {
        if i == n {
            assert(a@.skip(i as int).len() == 0);
        } else {
            assert(b@.skip(i as int).len() == 0);
            assert(a@.skip(i as int).len() > 0);
        }
    }
    i == n
}

} // verus!
