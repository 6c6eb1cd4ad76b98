//! Character-level string helpers: the whitespace model behind line
//! trimming, string repetition, and trailing-backslash counting.

use vstd::prelude::*;

verus! {

/// Whitespace as the trimming operations understand it: the Unicode
/// `White_Space` code points.
pub open spec fn is_space_char(c: char) -> bool {
    let n = c as u32;
    (0x09 <= n && n <= 0x0d) || n == 0x20 || n == 0x85 || n == 0xa0 || n == 0x1680 || (0x2000
        <= n && n <= 0x200a) || n == 0x2028 || n == 0x2029 || n == 0x202f || n == 0x205f || n
        == 0x3000
}

/// Length of the whitespace run at the front of `s`.
pub open spec fn leading_spaces(s: Seq<char>) -> int
    decreases s.len(),
{
    if s.len() > 0 && is_space_char(s.first()) {
        1 + leading_spaces(s.drop_first())
    } else {
        0
    }
}

/// Length of the whitespace run at the back of `s`.
pub open spec fn trailing_spaces(s: Seq<char>) -> int
    decreases s.len(),
{
    if s.len() > 0 && is_space_char(s.last()) {
        1 + trailing_spaces(s.drop_last())
    } else {
        0
    }
}

/// `s` with leading and trailing whitespace removed.
pub open spec fn spec_trim(s: Seq<char>) -> Seq<char> {
    if leading_spaces(s) == s.len() {
        Seq::empty()
    } else {
        s.subrange(leading_spaces(s), s.len() - trailing_spaces(s))
    }
}

pub proof fn lemma_leading_spaces(s: Seq<char>)
    ensures
        0 <= leading_spaces(s) <= s.len(),
        forall|i: int| 0 <= i < leading_spaces(s) ==> is_space_char(s[i]),
        leading_spaces(s) < s.len() ==> !is_space_char(s[leading_spaces(s)]),
    decreases s.len(),
{
    if s.len() > 0 && is_space_char(s.first()) {
        lemma_leading_spaces(s.drop_first());
        assert forall|i: int| 0 <= i < leading_spaces(s) implies is_space_char(s[i]) by {
            if i > 0 {
                assert(s.drop_first()[i - 1] == s[i]);
            }
        }
        if leading_spaces(s) < s.len() {
            assert(s.drop_first()[leading_spaces(s) - 1] == s[leading_spaces(s)]);
        }
    }
}

pub proof fn lemma_trailing_spaces(s: Seq<char>)
    ensures
        0 <= trailing_spaces(s) <= s.len(),
        forall|i: int| s.len() - trailing_spaces(s) <= i < s.len() ==> is_space_char(s[i]),
        trailing_spaces(s) < s.len() ==> !is_space_char(
            s[s.len() - trailing_spaces(s) - 1],
        ),
    decreases s.len(),
{
    if s.len() > 0 && is_space_char(s.last()) {
        lemma_trailing_spaces(s.drop_last());
        assert forall|i: int| s.len() - trailing_spaces(s) <= i < s.len() implies is_space_char(
            s[i],
        ) by {
            if i < s.len() - 1 {
                assert(s.drop_last()[i] == s[i]);
            }
        }
        if trailing_spaces(s) < s.len() {
            assert(s.drop_last()[s.len() - trailing_spaces(s) - 1] == s[s.len() - trailing_spaces(
                s,
            ) - 1]);
        }
    }
}

/// A string equal to its own trimmed form stays unchanged under trimming.
pub proof fn lemma_trim_idempotent(s: Seq<char>)
    ensures
        spec_trim(spec_trim(s)) == spec_trim(s),
{
    lemma_leading_spaces(s);
    lemma_trailing_spaces(s);
    let t = spec_trim(s);
    if leading_spaces(s) == s.len() {
        assert(t =~= Seq::<char>::empty());
        assert(spec_trim(t) =~= t);
    } else {
        assert(!is_space_char(t.first()));
        assert(!is_space_char(t.last())) by {
            if trailing_spaces(s) < s.len() {
                assert(t.last() == s[s.len() - trailing_spaces(s) - 1]);
            }
        }
        assert(leading_spaces(t) == 0);
        assert(trailing_spaces(t) == 0);
        assert(spec_trim(t) =~= t);
    }
}

/// Whether `c` is a whitespace character, decided exactly as
/// [`is_space_char`] states.
pub fn is_space(c: char) -> (b: bool)
    ensures
        b == is_space_char(c),
{
    let n = c as u32;
    (0x09 <= n && n <= 0x0d) || n == 0x20 || n == 0x85 || n == 0xa0 || n == 0x1680 || (0x2000 <= n
        && n <= 0x200a) || n == 0x2028 || n == 0x2029 || n == 0x202f || n == 0x205f || n == 0x3000
}

/// A copy of `s` with leading and trailing whitespace removed.
pub fn trim_str(s: &str) -> (r: String)
    ensures
        r@ == spec_trim(s@),
{
    proof {
        lemma_leading_spaces(s@);
        lemma_trailing_spaces(s@);
    }
    let n = s.unicode_len();
    let mut lo: usize = 0;
    while lo < n && is_space(s.get_char(lo))
        invariant
            0 <= lo <= n == s@.len(),
            forall|i: int| 0 <= i < lo ==> is_space_char(s@[i]),
        decreases n - lo,
    {
        lo = lo + 1;
    }
    if lo == n {
        assert(leading_spaces(s@) == s@.len());
        String::new()
    } else {
        assert(lo == leading_spaces(s@));
        let mut hi: usize = n;
        while hi > lo && is_space(s.get_char(hi - 1))
            invariant
                lo <= hi <= n == s@.len(),
                lo < n,
                !is_space_char(s@[lo as int]),
                forall|i: int| hi <= i < n ==> is_space_char(s@[i]),
            decreases hi,
        {
            hi = hi - 1;
        }
        assert(hi > lo);
        assert(hi == s@.len() - trailing_spaces(s@));
        s.substring_char(lo, hi).to_owned()
    }
}

/// `n` copies of `w`, concatenated in order.
pub open spec fn repeat_seq(w: Seq<char>, n: nat) -> Seq<char>
    decreases n,
{
    if n == 0 {
        Seq::empty()
    } else {
        repeat_seq(w, (n - 1) as nat) + w
    }
}

/// Length of the run of backslashes at the back of `s`.
pub open spec fn trailing_backslashes(s: Seq<char>) -> int
    decreases s.len(),
{
    if s.len() > 0 && s.last() == '\\' {
        1 + trailing_backslashes(s.drop_last())
    } else {
        0
    }
}

pub proof fn lemma_trailing_backslashes(s: Seq<char>)
    ensures
        0 <= trailing_backslashes(s) <= s.len(),
        forall|i: int| s.len() - trailing_backslashes(s) <= i < s.len() ==> s[i] == '\\',
        trailing_backslashes(s) < s.len() ==> s[s.len() - trailing_backslashes(s) - 1] != '\\',
    decreases s.len(),
{
    if s.len() > 0 && s.last() == '\\' {
        lemma_trailing_backslashes(s.drop_last());
        assert forall|i: int| s.len() - trailing_backslashes(s) <= i < s.len() implies s[i]
            == '\\' by {
            if i < s.len() - 1 {
                assert(s.drop_last()[i] == s[i]);
            }
        }
        if trailing_backslashes(s) < s.len() {
            assert(s.drop_last()[s.len() - trailing_backslashes(s) - 1] == s[s.len()
                - trailing_backslashes(s) - 1]);
        }
    }
}

/// How many backslashes end `s`, counted exactly as
/// [`trailing_backslashes`] states.
pub fn count_trailing_backslashes(s: &String) -> (r: usize)
    ensures
        r == trailing_backslashes(s@),
{
    proof {
        lemma_trailing_backslashes(s@);
    }
    let t = s.as_str();
    let n = t.unicode_len();
    let mut i: usize = n;
    while i > 0 && t.get_char(i - 1) == '\\'
        invariant
            t@ == s@,
            0 <= i <= n == s@.len(),
            forall|j: int| i <= j < n ==> s@[j] == '\\',
        decreases i,
    {
        i = i - 1;
    }
    n - i
}

/// A copy of `s` without its last character.
pub fn drop_last_char(s: &String) -> (r: String)
    requires
        s@.len() > 0,
    ensures
        r@ == s@.drop_last(),
{
    let t = s.as_str();
    let n = t.unicode_len();
    let r = t.substring_char(0, n - 1).to_owned();
    assert(r@ =~= s@.drop_last());
    r
}

} // verus!
