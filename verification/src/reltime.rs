//! The relative-time mini-grammar: `now`, or `in <N> <unit>[s]`, matched
//! case-insensitively against the whole input.

use vstd::prelude::*;

verus! {

/// Case-insensitive character match against a lowercase pattern letter:
/// `c` is `l` itself or its ASCII uppercase form.
pub open spec fn eq_ci(c: char, l: char) -> bool {
    c == l || ((c as u32) + 0x20 == (l as u32) && 0x61 <= (l as u32) <= 0x7a)
}

/// Case-insensitive match of `s` against the lowercase pattern `pat`.
pub open spec fn eq_ci_seq(s: Seq<char>, pat: Seq<char>) -> bool {
    s.len() == pat.len() && (forall|i: int| 0 <= i < s.len() ==> eq_ci(s[i], pat[i]))
}

/// Decimal digit.
pub open spec fn is_digit_char(c: char) -> bool {
    0x30 <= (c as u32) <= 0x39
}

/// Numeric value of one decimal digit.
pub open spec fn digit_val(c: char) -> nat {
    ((c as u32) - 0x30) as nat
}

/// Value of a run of decimal digits, most significant first.
pub open spec fn digits_value(s: Seq<char>) -> nat
    decreases s.len(),
{
    if s.len() == 0 {
        0
    } else {
        digits_value(s.drop_last()) * 10 + digit_val(s.last())
    }
}

/// First position at or after `i` in `s` that does not hold a digit.
pub open spec fn digit_run_end(s: Seq<char>, i: int) -> int
    decreases s.len() - i,
{
    if i < s.len() && is_digit_char(s[i]) {
        digit_run_end(s, i + 1)
    } else {
        i
    }
}

/// Seconds denoted by one unit name.
pub open spec fn base_unit_multiplier(u: Seq<char>) -> Option<nat> {
    if eq_ci_seq(u, "second"@) {
        Some(1 as nat)
    } else if eq_ci_seq(u, "minute"@) {
        Some(60 as nat)
    } else if eq_ci_seq(u, "hour"@) {
        Some(3600 as nat)
    } else if eq_ci_seq(u, "day"@) {
        Some(86400 as nat)
    } else if eq_ci_seq(u, "week"@) {
        Some(604800 as nat)
    } else {
        None
    }
}

/// Seconds denoted by a unit word, optionally pluralized with one
/// trailing `s`.
pub open spec fn unit_multiplier(u: Seq<char>) -> Option<nat> {
    if base_unit_multiplier(u) is Some {
        base_unit_multiplier(u)
    } else if u.len() > 0 && eq_ci(u.last(), 's') {
        base_unit_multiplier(u.drop_last())
    } else {
        None
    }
}

/// The number of seconds denoted by `s`, when the whole of `s` matches the
/// grammar: `now` for zero seconds, or the keyword `in`, a run of decimal
/// digits and a unit word, separated by single spaces. Anything else
/// denotes nothing.
pub open spec fn spec_rel_time(s: Seq<char>) -> Option<nat> {
    if eq_ci_seq(s, "now"@) {
        Some(0 as nat)
    } else if s.len() > 3 && eq_ci(s[0], 'i') && eq_ci(s[1], 'n') && s[2] == ' ' {
        let e = digit_run_end(s, 3);
        if 3 < e && e < s.len() && s[e] == ' ' {
            match unit_multiplier(s.subrange(e + 1, s.len() as int)) {
                Some(m) => Some(digits_value(s.subrange(3, e)) * m),
                None => None,
            }
        } else {
            None
        }
    } else {
        None
    }
}

/// Whether `c` matches the lowercase letter `l` up to ASCII case, decided
/// exactly as [`eq_ci`] states.
fn eq_ci_x(c: char, l: char) -> (b: bool)
    ensures
        b == eq_ci(c, l),
{
    c == l || ((c as u32) + 0x20 == (l as u32) && 0x61 <= (l as u32) && (l as u32) <= 0x7a)
}

/// Whether `c` is a decimal digit.
fn is_digit_x(c: char) -> (b: bool)
    ensures
        b == is_digit_char(c),
{
    0x30 <= (c as u32) && (c as u32) <= 0x39
}

/// Whether the characters of `s` from `from` to `to` match the lowercase
/// pattern `pat` up to ASCII case.
fn match_ci(s: &str, from: usize, to: usize, pat: &str) -> (b: bool)
    requires
        from <= to <= s@.len(),
    ensures
        b == eq_ci_seq(s@.subrange(from as int, to as int), pat@),
{
    let ghost u = s@.subrange(from as int, to as int);
    let plen = pat.unicode_len();
    if to - from != plen {
        return false;
    }
    let mut i: usize = 0;
    while i < plen
        invariant
            from <= to <= s@.len(),
            plen == pat@.len(),
            to - from == plen,
            0 <= i <= plen,
            u == s@.subrange(from as int, to as int),
            forall|j: int| 0 <= j < i ==> eq_ci(u[j], pat@[j]),
        decreases plen - i,
    {
        if !eq_ci_x(s.get_char(from + i), pat.get_char(i)) {
            assert(u[i as int] == s@[from + i]);
            return false;
        }
        assert(u[i as int] == s@[from + i]);
        i = i + 1;
    }
    true
}

/// Parse a relative datetime into a whole number of seconds.
///
/// Recognized forms, matched case-insensitively against the entire input:
///
///   * `now` - zero seconds
///   * `in` *n* [`second`|`minute`|`hour`|`day`|`week`]{,`s`} - *n* times
///     the unit's length in seconds
///
/// Every other input is rejected, as is a result that does not fit in a
/// `u64`.
pub fn parse_relative_time(delta: &str) -> (r: Result<u64, ()>)
    ensures
        match spec_rel_time(delta@) {
            Some(v) => if v <= u64::MAX {
                r == Ok::<u64, ()>(v as u64)
            } else {
                r == Err::<u64, ()>(())
            },
            None => r == Err::<u64, ()>(()),
        },
{
    let n = delta.unicode_len();
    proof {
        assert(delta@.subrange(0, n as int) =~= delta@);
    }
    if match_ci(delta, 0, n, "now") {
        return Ok(0);
    }
    if n <= 3 {
        return Err(());
    }
    if !eq_ci_x(delta.get_char(0), 'i') || !eq_ci_x(delta.get_char(1), 'n') || delta.get_char(2)
        != ' ' {
        return Err(());
    }
    let mut e: usize = 3;
    while e < n && is_digit_x(delta.get_char(e))
        invariant
            3 <= e <= n == delta@.len(),
            digit_run_end(delta@, 3) == digit_run_end(delta@, e as int),
            forall|k: int| 3 <= k < e ==> is_digit_char(delta@[k]),
        decreases n - e,
    {
        assert(digit_run_end(delta@, e as int) == digit_run_end(delta@, e + 1));
        e = e + 1;
    }
    assert(digit_run_end(delta@, 3) == e);
    if e == 3 || e == n {
        return Err(());
    }
    if delta.get_char(e) != ' ' {
        return Err(());
    }

    let mut num: u64 = 0;
    let mut over = false;
    let mut j: usize = 3;
    while j < e
        invariant
            3 <= j <= e < n == delta@.len(),
            forall|k: int| 3 <= k < e ==> is_digit_char(delta@[k]),
            !over ==> num == digits_value(delta@.subrange(3, j as int)),
            over ==> digits_value(delta@.subrange(3, j as int)) > u64::MAX,
        decreases e - j,
    {
        let c = delta.get_char(j);
        let d = ((c as u32) - 0x30) as u64;
        proof {
            assert(delta@.subrange(3, j + 1).drop_last() =~= delta@.subrange(3, j as int));
            assert(delta@.subrange(3, j + 1).last() == delta@[j as int]);
        }
        if !over {
            match num.checked_mul(10) {
                Some(m) => {
                    match m.checked_add(d) {
                        Some(x) => {
                            num = x;
                        },
                        None => {
                            over = true;
                        },
                    }
                },
                None => {
                    over = true;
                },
            }
        } else {
            assert(digits_value(delta@.subrange(3, j + 1)) >= digits_value(
                delta@.subrange(3, j as int),
            ));
        }
        j = j + 1;
    }
    let ghost v_digits = digits_value(delta@.subrange(3, e as int));

    let mult = unit_mult(delta, e + 1);
    match mult {
        None => Err(()),
        Some(m) => {
            assert(m >= 1);
            if over {
                assert(v_digits * m > u64::MAX) by (nonlinear_arith)
                    requires
                        v_digits > u64::MAX,
                        m >= 1,
                ;
                Err(())
            } else {
                match num.checked_mul(m) {
                    Some(v) => Ok(v),
                    None => Err(()),
                }
            }
        },
    }
}

/// Seconds denoted by the unit word that fills `s` from `from` on, when
/// there is one.
fn unit_mult(s: &str, from: usize) -> (r: Option<u64>)
    requires
        from <= s@.len(),
    ensures
        match unit_multiplier(s@.subrange(from as int, s@.len() as int)) {
            Some(m) => r == Some(m as u64),
            None => r is None,
        },
{
    let n = s.unicode_len();
    let ghost u = s@.subrange(from as int, n as int);
    if match_ci(s, from, n, "second") {
        return Some(1);
    }
    if match_ci(s, from, n, "minute") {
        return Some(60);
    }
    if match_ci(s, from, n, "hour") {
        return Some(3600);
    }
    if match_ci(s, from, n, "day") {
        return Some(86400);
    }
    if match_ci(s, from, n, "week") {
        return Some(604800);
    }
    if n > from {
        let lastc = s.get_char(n - 1);
        proof {
            assert(u.last() == s@[n - 1]);
            assert(u.drop_last() =~= s@.subrange(from as int, n - 1));
        }
        if eq_ci_x(lastc, 's') {
            if match_ci(s, from, n - 1, "second") {
                return Some(1);
            }
            if match_ci(s, from, n - 1, "minute") {
                return Some(60);
            }
            if match_ci(s, from, n - 1, "hour") {
                return Some(3600);
            }
            if match_ci(s, from, n - 1, "day") {
                return Some(86400);
            }
            if match_ci(s, from, n - 1, "week") {
                return Some(604800);
            }
        }
    }
    None
}

} // verus!
