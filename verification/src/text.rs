//! Character-level helpers: the white-space class, case-insensitive
//! comparison of character sequences, and trimming.

use vstd::prelude::*;
use vstd::string::*;

verus! {

/// A character of the Unicode white-space class, the class of characters
/// that `str::trim` strips from either end of a string.
pub open spec fn is_space(c: char) -> bool {
    let u = c as u32;
    u == 0x09 || u == 0x0A || u == 0x0B || u == 0x0C || u == 0x0D || u == 0x20 || u == 0x85
        || u == 0xA0 || u == 0x1680 || (0x2000 <= u && u <= 0x200A) || u == 0x2028 || u == 0x2029
        || u == 0x202F || u == 0x205F || u == 0x3000
}

/// Runtime test for [`is_space`].
pub fn char_is_space(c: char) -> (r: bool)
    ensures
        r == is_space(c),
{
    let u = c as u32;
    u == 0x09 || u == 0x0A || u == 0x0B || u == 0x0C || u == 0x0D || u == 0x20 || u == 0x85
        || u == 0xA0 || u == 0x1680 || (0x2000 <= u && u <= 0x200A) || u == 0x2028 || u == 0x2029
        || u == 0x202F || u == 0x205F || u == 0x3000
}

/// Two characters are equal up to ASCII case: either identical, or one is an
/// ASCII capital letter and the other its lower-case counterpart.
pub open spec fn eq_nocase_char(a: char, b: char) -> bool {
    a == b || (65 <= a as u32 && a as u32 <= 90 && a as u32 + 32 == b as u32) || (65 <= b as u32
        && b as u32 <= 90 && b as u32 + 32 == a as u32)
}

/// Character sequences equal up to ASCII case.
pub open spec fn seq_eq_nocase(a: Seq<char>, b: Seq<char>) -> bool {
    a.len() == b.len() && (forall|i: int| 0 <= i < a.len() ==> eq_nocase_char(a[i], b[i]))
}

/// `p` is a prefix of `s`, up to ASCII case.
pub open spec fn prefix_nocase(p: Seq<char>, s: Seq<char>) -> bool {
    p.len() <= s.len() && (forall|i: int| 0 <= i < p.len() ==> eq_nocase_char(p[i], s[i]))
}

/// Runtime test for [`eq_nocase_char`].
pub fn char_eq_nocase(a: char, b: char) -> (r: bool)
    ensures
        r == eq_nocase_char(a, b),
{
    let ua = a as u32;
    let ub = b as u32;
    a == b || (65 <= ua && ua <= 90 && ua + 32 == ub) || (65 <= ub && ub <= 90 && ub + 32 == ua)
}

/// Runtime test for [`seq_eq_nocase`] on string slices.
pub fn str_eq_nocase(a: &str, b: &str) -> (r: bool)
    ensures
        r == seq_eq_nocase(a@, b@),
{
    let na = a.unicode_len();
    let nb = b.unicode_len();
    if na != nb {
        return false;
    }
    let mut i: usize = 0;
    loop
        invariant
            na == a@.len(),
            na == b@.len(),
            0 <= i <= na,
            forall|k: int| 0 <= k < i ==> eq_nocase_char(a@[k], b@[k]),
        decreases na - i,
    {
        if i == na {
            return true;
        }
        let ca = a.get_char(i);
        let cb = b.get_char(i);
        if !char_eq_nocase(ca, cb) {
            return false;
        }
        i += 1;
    }
}

/// Runtime test for [`prefix_nocase`] on string slices.
pub fn str_prefix_nocase(p: &str, s: &str) -> (r: bool)
    ensures
        r == prefix_nocase(p@, s@),
{
    let np = p.unicode_len();
    let ns = s.unicode_len();
    if np > ns {
        return false;
    }
    let mut i: usize = 0;
    loop
        invariant
            np == p@.len(),
            ns == s@.len(),
            np <= ns,
            0 <= i <= np,
            forall|k: int| 0 <= k < i ==> eq_nocase_char(p@[k], s@[k]),
        decreases np - i,
    {
        if i == np {
            return true;
        }
        let cp = p.get_char(i);
        let cs = s.get_char(i);
        if !char_eq_nocase(cp, cs) {
            return false;
        }
        i += 1;
    }
}

/// What is left of `s` after dropping leading white space.
pub open spec fn trim_start_spec(s: Seq<char>) -> Seq<char>
    decreases s.len(),
{
    if s.len() == 0 {
        s
    } else if is_space(s[0]) {
        trim_start_spec(s.drop_first())
    } else {
        s
    }
}

/// What is left of `s` after dropping trailing white space.
pub open spec fn trim_end_spec(s: Seq<char>) -> Seq<char>
    decreases s.len(),
{
    if s.len() == 0 {
        s
    } else if is_space(s[s.len() - 1]) {
        trim_end_spec(s.drop_last())
    } else {
        s
    }
}

/// What is left of `s` after dropping white space from both ends.
pub open spec fn trim_spec(s: Seq<char>) -> Seq<char> {
    trim_end_spec(trim_start_spec(s))
}

proof fn lemma_trim_start_skip(s: Seq<char>, i: int)
    requires
        0 <= i < s.len(),
        is_space(s[i]),
        trim_start_spec(s) == trim_start_spec(s.subrange(i, s.len() as int)),
    ensures
        trim_start_spec(s) == trim_start_spec(s.subrange(i + 1, s.len() as int)),
{
    let tail = s.subrange(i, s.len() as int);
    assert(tail[0] == s[i]);
    assert(tail.drop_first() =~= s.subrange(i + 1, s.len() as int));
}

proof fn lemma_trim_end_skip(s: Seq<char>, i: int, j: int)
    requires
        0 <= i < j <= s.len(),
        is_space(s[j - 1]),
        trim_end_spec(s.subrange(i, s.len() as int)) == trim_end_spec(s.subrange(i, j)),
    ensures
        trim_end_spec(s.subrange(i, s.len() as int)) == trim_end_spec(s.subrange(i, j - 1)),
{
    let part = s.subrange(i, j);
    assert(part[part.len() - 1] == s[j - 1]);
    assert(part.drop_last() =~= s.subrange(i, j - 1));
}

/// Trims white space from both ends of `s`, as `str::trim` does.
///
/// The result never starts or ends with white space: a trimmed string is
/// already in the form the history buffer stores.
pub fn trim(s: &str) -> (t: String)
    ensures
        t@ == trim_spec(s@),
        t@.len() > 0 ==> !is_space(t@[0]) && !is_space(t@[t@.len() - 1]),
{
    let n = s.unicode_len();
    proof {
        assert(s@.subrange(0, n as int) =~= s@);
    }
    let mut i: usize = 0;
    loop
        invariant
            n == s@.len(),
            0 <= i <= n,
            trim_start_spec(s@) == trim_start_spec(s@.subrange(i as int, n as int)),
        ensures
            0 <= i <= n,
            trim_start_spec(s@) == trim_start_spec(s@.subrange(i as int, n as int)),
            i == n || !is_space(s@[i as int]),
        decreases n - i,
    {
        if i == n {
            break;
        }
        let c = s.get_char(i);
        if !char_is_space(c) {
            break;
        }
        proof {
            lemma_trim_start_skip(s@, i as int);
        }
        i += 1;
    }
    proof {
        let tail = s@.subrange(i as int, n as int);
        if i < n {
            assert(tail[0] == s@[i as int]);
        }
        assert(trim_start_spec(s@) == tail);
    }
    let mut j: usize = n;
    loop
        invariant
            n == s@.len(),
            0 <= i <= j <= n,
            trim_start_spec(s@) == s@.subrange(i as int, n as int),
            trim_end_spec(s@.subrange(i as int, n as int)) == trim_end_spec(
                s@.subrange(i as int, j as int),
            ),
        ensures
            0 <= i <= j <= n,
            trim_end_spec(s@.subrange(i as int, n as int)) == trim_end_spec(
                s@.subrange(i as int, j as int),
            ),
            j == i || !is_space(s@[j - 1]),
        decreases j,
    {
        if j == i {
            break;
        }
        let c = s.get_char(j - 1);
        if !char_is_space(c) {
            break;
        }
        proof {
            lemma_trim_end_skip(s@, i as int, j as int);
        }
        j -= 1;
    }
    proof {
        let part = s@.subrange(i as int, j as int);
        if i < j {
            assert(part[part.len() - 1] == s@[j - 1]);
            assert(part[0] == s@[i as int]);
        }
        assert(trim_end_spec(part) == part);
        assert(trim_spec(s@) == part);
    }
    let piece = s.substring_char(i, j);
    let t = piece.to_owned();
    t
}

} // verus!
