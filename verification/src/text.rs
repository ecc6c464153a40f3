//! Character-level utilities shared by the execution strategies: substring
//! search, prefix/suffix tests, case-insensitive comparison, and decimal
//! rendering of integers. All of them work on `Vec<char>` or `&str` with
//! contracts over the `Seq<char>` views.

use vstd::prelude::*;
use vstd::string::StrSliceExecFns;
use vstd::string::StringExecFns;

verus! {

/// Relies on `String::push`: appends one character at the end of the string.
pub assume_specification[ String::push ](s: &mut String, ch: char)
    ensures
        final(s)@ == old(s)@.push(ch),
;

/// The characters of `s`, as an executable vector.
pub fn chars_of(s: &str) -> (v: Vec<char>)
    ensures
        v@ == s@,
{
    let n = s.unicode_len();
    let mut v: Vec<char> = Vec::new();
    let mut i: usize = 0;
    while i < n
        invariant
            i <= n,
            n == s@.len(),
            v@ == s@.subrange(0, i as int),
        decreases n - i,
    {
        let c = s.get_char(i);
        v.push(c);
        proof {
            assert(v@ =~= s@.subrange(0, i + 1));
        }
        i = i + 1;
    }
    proof {
        assert(v@ =~= s@);
    }
    v
}

/// The string holding exactly the characters of `v`.
pub fn string_of_chars(v: &Vec<char>) -> (s: String)
    ensures
        s@ == v@,
{
    let mut s = String::new();
    let mut i: usize = 0;
    while i < v.len()
        invariant
            i <= v@.len(),
            s@ == v@.subrange(0, i as int),
        decreases v@.len() - i,
    {
        s.push(v[i]);
        proof {
            assert(s@ =~= v@.subrange(0, i + 1));
        }
        i = i + 1;
    }
    proof {
        assert(s@ =~= v@);
    }
    s
}

/// `pat` occurs in `s` starting at position `at`.
pub open spec fn matches_at(s: Seq<char>, pat: Seq<char>, at: int) -> bool {
    &&& 0 <= at
    &&& at + pat.len() <= s.len()
    &&& s.subrange(at, at + pat.len()) == pat
}

/// `pat` occurs somewhere in `s`.
pub open spec fn contains_seq(s: Seq<char>, pat: Seq<char>) -> bool {
    exists|at: int| matches_at(s, pat, at)
}

/// `pat` is a suffix of `s`.
pub open spec fn ends_with_seq(s: Seq<char>, pat: Seq<char>) -> bool {
    pat.len() <= s.len() && s.subrange(s.len() - pat.len(), s.len() as int) == pat
}

/// `pat` is a prefix of `s`.
pub open spec fn starts_with_seq(s: Seq<char>, pat: Seq<char>) -> bool {
    pat.len() <= s.len() && s.subrange(0, pat.len() as int) == pat
}

fn matches_at_exec(s: &Vec<char>, pat: &Vec<char>, at: usize) -> (r: bool)
    requires
        at + pat@.len() <= s@.len(),
    ensures
        r == matches_at(s@, pat@, at as int),
{
    let n = s.len();
    let mut j: usize = 0;
    while j < pat.len()
        invariant
            j <= pat@.len(),
            at + pat@.len() <= s@.len(),
            n == s@.len(),
            forall|k: int| 0 <= k < j ==> s@[at + k] == pat@[k],
        decreases pat@.len() - j,
    {
        if s[at + j] != pat[j] {
            proof {
                assert(s@.subrange(at as int, at + pat@.len())[j as int] != pat@[j as int]);
            }
            return false;
        }
        j = j + 1;
    }
    proof {
        assert(s@.subrange(at as int, at + pat@.len()) =~= pat@);
    }
    true
}

/// Substring search: does `pat` occur anywhere in `s`?
pub fn contains_chars(s: &Vec<char>, pat: &Vec<char>) -> (r: bool)
    ensures
        r == contains_seq(s@, pat@),
{
    if pat.len() > s.len() {
        proof {
            assert(forall|at: int| !matches_at(s@, pat@, at));
        }
        return false;
    }
    if pat.len() == 0 {
        proof {
            assert(s@.subrange(0, 0) =~= pat@);
            assert(matches_at(s@, pat@, 0));
        }
        return true;
    }
    let mut at: usize = 0;
    let n = s.len();
    let last = n - pat.len();
    while at <= last
        invariant
            1 <= pat@.len() <= s@.len(),
            n == s@.len(),
            last == s@.len() - pat@.len(),
            at <= last + 1,
            forall|k: int| 0 <= k < at ==> !matches_at(s@, pat@, k),
        decreases last + 1 - at,
    {
        if matches_at_exec(s, pat, at) {
            return true;
        }
        at = at + 1;
    }
    proof {
        assert(forall|k: int| matches_at(s@, pat@, k) ==> 0 <= k <= last);
    }
    false
}

/// Substring search on strings.
pub fn str_contains(s: &str, pat: &str) -> (r: bool)
    ensures
        r == contains_seq(s@, pat@),
{
    let sv = chars_of(s);
    let pv = chars_of(pat);
    contains_chars(&sv, &pv)
}

/// Suffix test on strings.
pub fn str_ends_with(s: &str, pat: &str) -> (r: bool)
    ensures
        r == ends_with_seq(s@, pat@),
{
    let sv = chars_of(s);
    let pv = chars_of(pat);
    if pv.len() > sv.len() {
        return false;
    }
    let at = sv.len() - pv.len();
    matches_at_exec(&sv, &pv, at)
}

/// Prefix test on strings.
pub fn str_starts_with(s: &str, pat: &str) -> (r: bool)
    ensures
        r == starts_with_seq(s@, pat@),
{
    let sv = chars_of(s);
    let pv = chars_of(pat);
    if pv.len() > sv.len() {
        return false;
    }
    matches_at_exec(&sv, &pv, 0)
}

/// Character-for-character equality of two strings.
pub fn str_eq(a: &str, b: &str) -> (r: bool)
    ensures
        r == (a@ == b@),
{
    let av = chars_of(a);
    let bv = chars_of(b);
    if av.len() != bv.len() {
        return false;
    }
    let mut i: usize = 0;
    while i < av.len()
        invariant
            i <= av@.len(),
            av@.len() == bv@.len(),
            av@ == a@,
            bv@ == b@,
            forall|k: int| 0 <= k < i ==> a@[k] == b@[k],
        decreases av@.len() - i,
    {
        if av[i] != bv[i] {
            return false;
        }
        i = i + 1;
    }
    proof {
        assert(a@ =~= b@);
    }
    true
}

/// ASCII upper-case folding of one character.
pub open spec fn upper_char(c: char) -> char {
    if 'a' <= c && c <= 'z' {
        ((c as int) - 32) as char
    } else {
        c
    }
}

/// ASCII upper-case folding of a character sequence.
pub open spec fn upper_seq(s: Seq<char>) -> Seq<char> {
    s.map_values(|c: char| upper_char(c))
}

fn upper_chars_agree(a: char, b: char) -> (r: bool)
    ensures
        r == (upper_char(a) == upper_char(b)),
{
    if a == b {
        true
    } else {
        let au = a as u32;
        let bu = b as u32;
        (97 <= au && au <= 122 && au - 32 == bu) || (97 <= bu && bu <= 122 && bu - 32 == au)
    }
}

/// Case-insensitive (ASCII) equality of two strings.
pub fn eq_ignore_ascii_case(a: &str, b: &str) -> (r: bool)
    ensures
        r == (upper_seq(a@) == upper_seq(b@)),
{
    let av = chars_of(a);
    let bv = chars_of(b);
    if av.len() != bv.len() {
        proof {
            assert(upper_seq(a@).len() == a@.len());
            assert(upper_seq(b@).len() == b@.len());
        }
        return false;
    }
    let mut i: usize = 0;
    while i < av.len()
        invariant
            i <= av@.len(),
            av@.len() == bv@.len(),
            av@ == a@,
            bv@ == b@,
            forall|k: int| 0 <= k < i ==> upper_char(a@[k]) == upper_char(b@[k]),
        decreases av@.len() - i,
    {
        if !upper_chars_agree(av[i], bv[i]) {
            proof {
                assert(upper_seq(a@)[i as int] != upper_seq(b@)[i as int]);
            }
            return false;
        }
        i = i + 1;
    }
    proof {
        assert(upper_seq(a@) =~= upper_seq(b@));
    }
    true
}

/// `s` with every trailing repetition of `suf` removed.
pub open spec fn trim_suffix_spec(s: Seq<char>, suf: Seq<char>) -> Seq<char>
    decreases s.len(),
{
    if suf.len() > 0 && ends_with_seq(s, suf) {
        trim_suffix_spec(s.take(s.len() - suf.len()), suf)
    } else {
        s
    }
}

/// Removes every trailing repetition of `suffix` from `s`.
pub fn trim_suffix_repeated(s: &str, suffix: &str) -> (r: String)
    ensures
        r@ == trim_suffix_spec(s@, suffix@),
{
    let mut v = chars_of(s);
    let sufv = chars_of(suffix);
    if sufv.len() == 0 {
        return string_of_chars(&v);
    }
    while v.len() >= sufv.len() && matches_at_exec(&v, &sufv, v.len() - sufv.len())
        invariant
            sufv@.len() > 0,
            sufv@ == suffix@,
            trim_suffix_spec(v@, suffix@) == trim_suffix_spec(s@, suffix@),
        decreases v@.len(),
    {
        proof {
            assert(ends_with_seq(v@, suffix@));
        }
        let n = v.len();
        v.truncate(n - sufv.len());
    }
    proof {
        if sufv@.len() > 0 && ends_with_seq(v@, suffix@) {
            assert(matches_at(v@, suffix@, v@.len() - suffix@.len()));
        }
        assert(trim_suffix_spec(v@, suffix@) == v@);
    }
    string_of_chars(&v)
}

/// The decimal digits of `n`, most significant first.
pub open spec fn dec_digits(n: nat) -> Seq<char>
    decreases n,
{
    if n < 10 {
        seq![digit_char(n)]
    } else {
        dec_digits(n / 10) + seq![digit_char(n % 10)]
    }
}

/// The character for one decimal digit.
pub open spec fn digit_char(d: nat) -> char {
    (48 + d) as char
}

fn digit_char_exec(d: u64) -> (c: char)
    requires
        d < 10,
    ensures
        c == digit_char(d as nat),
{
    (48 + d as u8) as char
}

/// Renders `n` in decimal, without sign or padding.
pub fn u64_to_decimal(n: u64) -> (s: String)
    ensures
        s@ == dec_digits(n as nat),
{
    let mut digits: Vec<char> = Vec::new();
    let mut rest: u64 = n;
    while rest >= 10
        invariant
            dec_digits(n as nat) =~= dec_digits(rest as nat) + digits@.reverse(),
        decreases rest,
    {
        let d = rest % 10;
        let ghost prev = digits@;
        digits.push(digit_char_exec(d));
        rest = rest / 10;
        proof {
            assert(digits@.reverse() =~= seq![digit_char(d as nat)] + prev.reverse());
            assert(dec_digits(n as nat) =~= dec_digits(rest as nat) + digits@.reverse());
        }
    }
    let ghost prev = digits@;
    digits.push(digit_char_exec(rest));
    proof {
        assert(digits@.reverse() =~= seq![digit_char(rest as nat)] + prev.reverse());
        assert(dec_digits(rest as nat) =~= seq![digit_char(rest as nat)]);
        assert(dec_digits(n as nat) =~= digits@.reverse());
    }
    let mut out: Vec<char> = Vec::new();
    let mut i: usize = digits.len();
    while i > 0
        invariant
            i <= digits@.len(),
            out@ =~= digits@.subrange(i as int, digits@.len() as int).reverse(),
        decreases i,
    {
        i = i - 1;
        out.push(digits[i]);
        proof {
            assert(out@ =~= digits@.subrange(i as int, digits@.len() as int).reverse());
        }
    }
    proof {
        assert(out@ =~= digits@.reverse());
    }
    string_of_chars(&out)
}

} // verus!
