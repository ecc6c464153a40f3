//! Path-string arithmetic shared by the strategies: file names, extensions,
//! prefix stripping and separator normalization. Paths are handled as plain
//! character strings; both `/` and `\` count as separators, so paths written
//! on either platform are read the same way.

use vstd::prelude::*;
use crate::text::chars_of;
use crate::text::string_of_chars;

verus! {

/// A path separator character.
pub open spec fn is_sep(c: char) -> bool {
    c == '/' || c == '\\'
}

/// Index of the last separator in `s`, or -1 if there is none.
pub open spec fn last_sep_index(s: Seq<char>) -> int
    decreases s.len(),
{
    if s.len() == 0 {
        -1
    } else if is_sep(s.last()) {
        s.len() - 1
    } else {
        last_sep_index(s.drop_last())
    }
}

/// Index of the last `.` in `s`, or -1 if there is none.
pub open spec fn last_dot_index(s: Seq<char>) -> int
    decreases s.len(),
{
    if s.len() == 0 {
        -1
    } else if s.last() == '.' {
        s.len() - 1
    } else {
        last_dot_index(s.drop_last())
    }
}

/// The file-name part of a path: everything after the last separator.
pub open spec fn file_name_spec(p: Seq<char>) -> Seq<char> {
    p.skip(last_sep_index(p) + 1)
}

/// The extension of a file name: what follows the last `.`, unless the name
/// has no `.` or starts with its only one.
pub open spec fn extension_of_name(name: Seq<char>) -> Option<Seq<char>> {
    let d = last_dot_index(name);
    if d <= 0 {
        None
    } else {
        Some(name.skip(d + 1))
    }
}

/// The extension of the file named by a path.
pub open spec fn extension_spec(p: Seq<char>) -> Option<Seq<char>> {
    extension_of_name(file_name_spec(p))
}

proof fn lemma_last_sep_found(s: Seq<char>, i: int)
    requires
        0 <= i < s.len(),
        is_sep(s[i]),
        forall|j: int| i < j < s.len() ==> !is_sep(s[j]),
    ensures
        last_sep_index(s) == i,
    decreases s.len(),
{
    if i == s.len() - 1 {
    } else {
        lemma_last_sep_found(s.drop_last(), i);
    }
}

proof fn lemma_last_sep_absent(s: Seq<char>)
    requires
        forall|j: int| 0 <= j < s.len() ==> !is_sep(s[j]),
    ensures
        last_sep_index(s) == -1,
    decreases s.len(),
{
    if s.len() > 0 {
        lemma_last_sep_absent(s.drop_last());
    }
}

proof fn lemma_last_dot_found(s: Seq<char>, i: int)
    requires
        0 <= i < s.len(),
        s[i] == '.',
        forall|j: int| i < j < s.len() ==> s[j] != '.',
    ensures
        last_dot_index(s) == i,
    decreases s.len(),
{
    if i == s.len() - 1 {
    } else {
        lemma_last_dot_found(s.drop_last(), i);
    }
}

proof fn lemma_last_dot_absent(s: Seq<char>)
    requires
        forall|j: int| 0 <= j < s.len() ==> s[j] != '.',
    ensures
        last_dot_index(s) == -1,
    decreases s.len(),
{
    if s.len() > 0 {
        lemma_last_dot_absent(s.drop_last());
    }
}

fn last_sep_position(v: &Vec<char>) -> (r: Option<usize>)
    ensures
        match r {
            Some(i) => i < v@.len() && last_sep_index(v@) == i as int,
            None => last_sep_index(v@) == -1,
        },
{
    let mut i: usize = v.len();
    while i > 0
        invariant
            i <= v@.len(),
            forall|j: int| i <= j < v@.len() ==> !is_sep(v@[j]),
        decreases i,
    {
        i = i - 1;
        let c = v[i];
        if c == '/' || c == '\\' {
            proof {
                lemma_last_sep_found(v@, i as int);
            }
            return Some(i);
        }
    }
    proof {
        lemma_last_sep_absent(v@);
    }
    None
}

/// Finds the position of the last separator in a path, if any.
pub fn path_last_sep(v: &Vec<char>) -> (r: Option<usize>)
    ensures
        match r {
            Some(i) => i < v@.len() && last_sep_index(v@) == i as int,
            None => last_sep_index(v@) == -1,
        },
{
    last_sep_position(v)
}

/// Finds the position of the last `.` in a name, if any.
pub fn name_last_dot(v: &Vec<char>) -> (r: Option<usize>)
    ensures
        match r {
            Some(i) => i < v@.len() && last_dot_index(v@) == i as int,
            None => last_dot_index(v@) == -1,
        },
{
    last_dot_position(v)
}

fn last_dot_position(v: &Vec<char>) -> (r: Option<usize>)
    ensures
        match r {
            Some(i) => i < v@.len() && last_dot_index(v@) == i as int,
            None => last_dot_index(v@) == -1,
        },
{
    let mut i: usize = v.len();
    while i > 0
        invariant
            i <= v@.len(),
            forall|j: int| i <= j < v@.len() ==> v@[j] != '.',
        decreases i,
    {
        i = i - 1;
        if v[i] == '.' {
            proof {
                lemma_last_dot_found(v@, i as int);
            }
            return Some(i);
        }
    }
    proof {
        lemma_last_dot_absent(v@);
    }
    None
}

/// The file-name part of a path.
pub fn file_name_of(p: &str) -> (r: String)
    ensures
        r@ == file_name_spec(p@),
{
    let v = chars_of(p);
    let n = v.len();
    let start: usize = match last_sep_position(&v) {
        Some(i) => {
            proof {
                assert(i < n);
            }
            i + 1
        },
        None => 0,
    };
    let mut out: Vec<char> = Vec::new();
    let mut i: usize = start;
    while i < v.len()
        invariant
            start <= i <= v@.len(),
            out@ == v@.subrange(start as int, i as int),
        decreases v@.len() - i,
    {
        out.push(v[i]);
        proof {
            assert(out@ =~= v@.subrange(start as int, i + 1));
        }
        i = i + 1;
    }
    proof {
        assert(out@ =~= p@.skip(last_sep_index(p@) + 1));
    }
    string_of_chars(&out)
}

/// The extension of the file named by `p`, if it has one.
pub fn extension_of(p: &str) -> (r: Option<String>)
    ensures
        match r {
            Some(e) => extension_spec(p@) == Some(e@),
            None => extension_spec(p@) is None,
        },
{
    let name = file_name_of(p);
    let v = chars_of(name.as_str());
    match last_dot_position(&v) {
        None => None,
        Some(d) => {
            if d == 0 {
                None
            } else {
                let n = v.len();
                proof {
                    assert(d < n);
                }
                let mut out: Vec<char> = Vec::new();
                let mut i: usize = d + 1;
                while i < v.len()
                    invariant
                        d + 1 <= i <= v@.len(),
                        out@ == v@.subrange(d + 1, i as int),
                    decreases v@.len() - i,
                {
                    out.push(v[i]);
                    proof {
                        assert(out@ =~= v@.subrange(d + 1, i + 1));
                    }
                    i = i + 1;
                }
                proof {
                    assert(out@ =~= v@.skip(d + 1));
                }
                Some(string_of_chars(&out))
            }
        },
    }
}

/// Drops every leading separator from `s`.
pub open spec fn strip_leading_seps(s: Seq<char>) -> Seq<char>
    decreases s.len(),
{
    if s.len() > 0 && is_sep(s[0]) {
        strip_leading_seps(s.drop_first())
    } else {
        s
    }
}

/// Every separator in `s` rewritten to `/`.
pub open spec fn normalize_seps(s: Seq<char>) -> Seq<char> {
    s.map_values(|c: char| if c == '\\' { '/' } else { c })
}

/// Rewrites every backslash separator to a forward slash.
pub fn normalize_separators(s: &Vec<char>) -> (out: Vec<char>)
    ensures
        out@ == normalize_seps(s@),
{
    let mut out: Vec<char> = Vec::new();
    let mut i: usize = 0;
    while i < s.len()
        invariant
            i <= s@.len(),
            out@ == normalize_seps(s@.subrange(0, i as int)),
        decreases s@.len() - i,
    {
        let c = s[i];
        if c == '\\' {
            out.push('/');
        } else {
            out.push(c);
        }
        proof {
            assert(out@ =~= normalize_seps(s@.subrange(0, i + 1)));
        }
        i = i + 1;
    }
    proof {
        assert(s@.subrange(0, s@.len() as int) =~= s@);
    }
    out
}

} // verus!
