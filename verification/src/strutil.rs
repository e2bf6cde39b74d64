//! Verified string helpers: decimal rendering of counters and status codes,
//! and substring search and replacement for the path placeholder.

use vstd::prelude::*;
use vstd::string::StrSliceExecFns;
use vstd::string::StringExecFns;

use crate::ext::push_char;

verus! {

/// The decimal digit character for a value below ten.
pub open spec fn spec_digit(d: int) -> char {
    if d == 0 {
        '0'
    } else if d == 1 {
        '1'
    } else if d == 2 {
        '2'
    } else if d == 3 {
        '3'
    } else if d == 4 {
        '4'
    } else if d == 5 {
        '5'
    } else if d == 6 {
        '6'
    } else if d == 7 {
        '7'
    } else if d == 8 {
        '8'
    } else {
        '9'
    }
}

/// The usual decimal rendering of a nonnegative integer, most significant
/// digit first, without leading zeros (a lone zero for zero itself).
pub open spec fn spec_dec(n: int) -> Seq<char>
    recommends
        n >= 0,
    decreases n,
{
    if n < 10 {
        seq![spec_digit(n)]
    } else {
        spec_dec(n / 10).push(spec_digit(n % 10))
    }
}

fn digit_str(d: u64) -> (s: &'static str)
    requires
        d < 10,
    ensures
        s@ =~= seq![spec_digit(d as int)],
{
    proof {
        reveal_strlit("0");
        reveal_strlit("1");
        reveal_strlit("2");
        reveal_strlit("3");
        reveal_strlit("4");
        reveal_strlit("5");
        reveal_strlit("6");
        reveal_strlit("7");
        reveal_strlit("8");
        reveal_strlit("9");
    }
    match d {
        0 => "0",
        1 => "1",
        2 => "2",
        3 => "3",
        4 => "4",
        5 => "5",
        6 => "6",
        7 => "7",
        8 => "8",
        _ => "9",
    }
}

/// Renders `n` in decimal.
pub fn u64_to_dec(n: u64) -> (r: String)
    ensures
        r@ == spec_dec(n as int),
    decreases n,
{
    if n < 10 {
        let s = digit_str(n);
        s.to_owned()
    } else {
        let mut r = u64_to_dec(n / 10);
        let d = digit_str(n % 10);
        r.append(d);
        proof {
            assert(r@ =~= spec_dec(n as int / 10).push(spec_digit(n as int % 10)));
        }
        r
    }
}

/// The pattern occurs in `s` starting at position `i`.
pub open spec fn match_at(s: Seq<char>, pat: Seq<char>, i: int) -> bool {
    &&& 0 <= i
    &&& i + pat.len() <= s.len()
    &&& s.subrange(i, i + pat.len() as int) == pat
}

/// The pattern occurs somewhere in `s`.
pub open spec fn spec_contains(s: Seq<char>, pat: Seq<char>) -> bool {
    exists|i: int| match_at(s, pat, i)
}

/// `s` with every occurrence of `pat` replaced by `sub`, scanning left to
/// right without overlap; the empty pattern replaces nothing.
pub open spec fn spec_replaced(s: Seq<char>, pat: Seq<char>, sub: Seq<char>) -> Seq<char>
    decreases s.len(),
{
    if pat.len() == 0 || s.len() < pat.len() {
        s
    } else if s.subrange(0, pat.len() as int) == pat {
        sub + spec_replaced(s.subrange(pat.len() as int, s.len() as int), pat, sub)
    } else {
        seq![s[0]] + spec_replaced(s.subrange(1, s.len() as int), pat, sub)
    }
}

/// A pattern that starts with a character the text nowhere holds does not
/// occur in the text.
pub proof fn lemma_not_contains_by_char(s: Seq<char>, pat: Seq<char>, c: char)
    requires
        pat.len() > 0,
        pat[0] == c,
        forall|k: int| 0 <= k < s.len() ==> s[k] != c,
    ensures
        !spec_contains(s, pat),
{
    assert forall|i: int| !match_at(s, pat, i) by {
        if match_at(s, pat, i) {
            assert(s.subrange(i, i + pat.len() as int)[0] == pat[0]);
            assert(s[i] == c);
        }
    }
}

/// Decides whether `pat` occurs in `s` at position `i`.
pub fn match_at_exec(s: &str, pat: &str, i: usize) -> (b: bool)
    ensures
        b == match_at(s@, pat@, i as int),
{
    let s_len = s.unicode_len();
    let pat_len = pat.unicode_len();
    if pat_len > s_len || i > s_len - pat_len {
        proof {
            assert(!match_at(s@, pat@, i as int));
        }
        return false;
    }
    let mut j: usize = 0;
    while j < pat_len
        invariant
            j <= pat_len,
            pat_len == pat@.len(),
            s_len == s@.len(),
            i + pat_len <= s_len,
            forall|k: int| 0 <= k < j ==> s@[i + k] == pat@[k],
        decreases pat_len - j,
    {
        if s.get_char(i + j) != pat.get_char(j) {
            proof {
                assert(!match_at(s@, pat@, i as int)) by {
                    if match_at(s@, pat@, i as int) {
                        assert(s@.subrange(i as int, i + pat@.len() as int)[j as int]
                            == pat@[j as int]);
                    }
                }
            }
            return false;
        }
        j = j + 1;
    }
    proof {
        assert(s@.subrange(i as int, i + pat@.len() as int) =~= pat@);
    }
    true
}

/// Decides whether `pat` occurs anywhere in `s`.
pub fn contains_exec(s: &str, pat: &str) -> (b: bool)
    ensures
        b == spec_contains(s@, pat@),
{
    let s_len = s.unicode_len();
    let pat_len = pat.unicode_len();
    if pat_len > s_len {
        proof {
            assert(forall|i: int| !match_at(s@, pat@, i));
        }
        return false;
    }
    if pat_len == 0 {
        proof {
            assert(s@.subrange(0, 0) =~= pat@);
            assert(match_at(s@, pat@, 0));
        }
        return true;
    }
    let mut i: usize = 0;
    while i <= s_len - pat_len
        invariant
            1 <= pat_len <= s_len,
            pat_len == pat@.len(),
            s_len == s@.len(),
            i <= s_len - pat_len + 1,
            forall|k: int| 0 <= k < i ==> !match_at(s@, pat@, k),
        decreases s_len - pat_len - i + 1,
    {
        if match_at_exec(s, pat, i) {
            return true;
        }
        i = i + 1;
    }
    proof {
        assert(forall|k: int| !match_at(s@, pat@, k));
    }
    false
}

/// Replaces every occurrence of `pat` in `s` by `sub`, scanning left to
/// right without overlap.
pub fn replace_all(s: &str, pat: &str, sub: &str) -> (r: String)
    requires
        pat@.len() > 0,
    ensures
        r@ == spec_replaced(s@, pat@, sub@),
{
    let s_len = s.unicode_len();
    let pat_len = pat.unicode_len();
    let mut r = String::new();
    let mut i: usize = 0;
    proof {
        assert(s@.subrange(0, s@.len() as int) =~= s@);
        assert(Seq::<char>::empty() + spec_replaced(s@, pat@, sub@) =~= spec_replaced(
            s@,
            pat@,
            sub@,
        ));
    }
    while i < s_len
        invariant
            i <= s_len,
            s_len == s@.len(),
            pat_len == pat@.len(),
            pat@.len() > 0,
            spec_replaced(s@, pat@, sub@) == r@ + spec_replaced(
                s@.subrange(i as int, s@.len() as int),
                pat@,
                sub@,
            ),
        decreases s_len - i,
    {
        let ghost tail = s@.subrange(i as int, s@.len() as int);
        let ghost r0 = r@;
        if match_at_exec(s, pat, i) {
            r.append(sub);
            proof {
                let next = s@.subrange(i + pat@.len() as int, s@.len() as int);
                assert(tail.subrange(0, pat@.len() as int) =~= pat@);
                assert(tail.subrange(pat@.len() as int, tail.len() as int) =~= next);
                assert(spec_replaced(tail, pat@, sub@) == sub@ + spec_replaced(next, pat@, sub@));
                assert(r0 + (sub@ + spec_replaced(next, pat@, sub@)) =~= (r0 + sub@)
                    + spec_replaced(next, pat@, sub@));
            }
            i = i + pat_len;
        } else {
            let c = s.get_char(i);
            push_char(&mut r, c);
            proof {
                let next = s@.subrange(i + 1, s@.len() as int);
                if tail.len() >= pat@.len() {
                    assert(!(tail.subrange(0, pat@.len() as int) == pat@)) by {
                        if tail.subrange(0, pat@.len() as int) == pat@ {
                            assert(s@.subrange(i as int, i + pat@.len() as int) =~= tail.subrange(
                                0,
                                pat@.len() as int,
                            ));
                            assert(match_at(s@, pat@, i as int));
                        }
                    }
                    assert(tail.subrange(1, tail.len() as int) =~= next);
                    assert(spec_replaced(tail, pat@, sub@) == seq![tail[0]] + spec_replaced(
                        next,
                        pat@,
                        sub@,
                    ));
                } else {
                    // the remainder is shorter than the pattern: it is copied as is
                    assert(spec_replaced(tail, pat@, sub@) == tail);
                    assert(next.len() < pat@.len());
                    assert(spec_replaced(next, pat@, sub@) == next);
                    assert(tail =~= seq![tail[0]] + next);
                }
                assert(tail[0] == c);
                assert(r0 + (seq![c] + spec_replaced(next, pat@, sub@)) =~= r0.push(c)
                    + spec_replaced(next, pat@, sub@));
            }
            i = i + 1;
        }
    }
    proof {
        assert(s@.subrange(i as int, s@.len() as int) =~= Seq::<char>::empty());
        assert(r@ =~= r@ + Seq::<char>::empty());
    }
    r
}

} // verus!
