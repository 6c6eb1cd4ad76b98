//! Utility operations: blocking prompts with retry policies, relative-time
//! parsing, and string repetition.

use vstd::prelude::*;

use crate::io_support::end_of_input_error;
use crate::io_support::flush_io;
use crate::io_support::read_line_io;
use crate::io_support::write_str_io;
use crate::text::count_trailing_backslashes;
use crate::text::drop_last_char;
use crate::text::lemma_trailing_backslashes;
use crate::text::lemma_trim_idempotent;
use crate::text::repeat_seq;
use crate::text::spec_trim;
use crate::text::trim_str;

pub use crate::reltime::parse_relative_time;

verus! {

/// A string consisting of `n` repetitions of `what`.
pub fn mul_str(what: &str, n: usize) -> (r: String)
    ensures
        r@ == repeat_seq(what@, n as nat),
{
    let mut r = String::new();
    let mut i: usize = 0;
    while i < n
        invariant
            0 <= i <= n,
            r@ == repeat_seq(what@, i as nat),
        decreases n - i,
    {
        r.append(what);
        i = i + 1;
    }
    r
}

/// The possible results of one prompt round on the line `line`: the
/// trimmed line when the validator accepted it, or the empty string (the
/// signal to retry) when it rejected it.
pub open spec fn round_outcome<F: Fn(&String) -> bool>(
    verifier: F,
    line: Seq<char>,
    out: String,
) -> bool {
    (out@ == spec_trim(line) && call_ensures(verifier, (&out,), true)) || (out@.len() == 0
        && exists|t: String| t@ == spec_trim(line) && call_ensures(verifier, (&t,), false))
}

/// Law: when the validator is sure to accept the trimmed line, the one
/// possible result of a prompt round on that line is the trimmed line
/// itself; when that is also non-empty, the non-zero-length retry policy
/// stops and returns it.
pub proof fn lemma_accepting_round_returns_trim<F: Fn(&String) -> bool>(
    verifier: F,
    line: Seq<char>,
    out: String,
)
    requires
        round_outcome(verifier, line, out),
        forall|t: &String, b: bool| t@ == spec_trim(line) && call_ensures(verifier, (t,), b) ==> b,
    ensures
        out@ == spec_trim(line),
{
}

/// What one prompt round does with the line it read: trims it, runs the
/// validator on the trimmed form, and keeps it exactly when accepted; a
/// rejection yields the empty string.
fn process_line<F: Fn(&String) -> bool>(line: String, verifier: &F) -> (out: String)
    requires
        forall|s: &String| call_requires(*verifier, (s,)),
    ensures
        round_outcome(*verifier, line@, out),
{
    let trimmed = trim_str(line.as_str());
    if verifier(&trimmed) {
        trimmed
    } else {
        assert(trimmed@ == spec_trim(line@) && call_ensures(*verifier, (&trimmed,), false));
        String::new()
    }
}

/// One prompt round: writes `prompt_s` (followed by `": "` when `colon`
/// is set), flushes, reads one line, and leaves in `out` what
/// [`process_line`] makes of it: its trimmed form when the validator
/// accepts that, the empty string otherwise.
///
/// End of input (a read of zero bytes) is an error unless `allow_empty` is
/// set; the validator's rejection is not an error, only an empty `out`.
/// On any error `out` is left unchanged.
fn prompt<R: std::io::BufRead, W: std::io::Write, F: Fn(&String) -> bool>(
    input: &mut R,
    output: &mut W,
    prompt_s: &str,
    verifier: &F,
    allow_empty: bool,
    colon: bool,
    out: &mut String,
) -> (r: Result<(), std::io::Error>)
    requires
        forall|s: &String| call_requires(*verifier, (s,)),
    ensures
        r is Ok ==> final(out)@.len() == 0 || (final(out)@ == spec_trim(final(out)@)
            && call_ensures(*verifier, (&*final(out),), true)),
        r is Err ==> *final(out) == *old(out),
{
    if colon {
        write_str_io(output, prompt_s)?;
        write_str_io(output, ": ")?;
    } else {
        write_str_io(output, prompt_s)?;
    }
    flush_io(output)?;

    let mut line = String::new();
    let n = read_line_io(input, &mut line)?;
    if n == 0 && !allow_empty {
        return Err(end_of_input_error());
    }
    proof {
        lemma_trim_idempotent(line@);
    }
    *out = process_line(line, verifier);
    Ok(())
}

/// Ask the user to input a string of the exact length of `desired_len`,
/// (re)prompting as necessary. Lengths are counted in characters.
///
/// A `desired_len` of zero is satisfied by the initial empty buffer, so
/// nothing is prompted or read and the empty string comes back at once.
pub fn prompt_exact_len<R: std::io::BufRead, W: std::io::Write, F: Fn(&String) -> bool>(
    input: &mut R,
    output: &mut W,
    prompt_s: &str,
    verifier: F,
    desired_len: usize,
) -> (r: Result<String, std::io::Error>)
    requires
        forall|s: &String| call_requires(verifier, (s,)),
    ensures
        r matches Ok(s) ==> s@.len() == desired_len && (desired_len > 0 ==> s@ == spec_trim(s@)
            && call_ensures(verifier, (&s,), true)),
        desired_len == 0 ==> (r matches Ok(s) && s@.len() == 0),
{
    let mut out = String::new();
    let mut fuel: usize = usize::MAX;
    while out.as_str().unicode_len() != desired_len
        invariant
            forall|s: &String| call_requires(verifier, (s,)),
            out@.len() == 0 || (out@ == spec_trim(out@) && call_ensures(verifier, (&out,), true)),
            desired_len == 0 ==> out@.len() == 0,
        decreases fuel,
    {
        if fuel == 0 {
            return Err(end_of_input_error());
        }
        fuel = fuel - 1;
        prompt(input, output, prompt_s, &verifier, false, true, &mut out)?;
    }
    Ok(out)
}

/// Ask the user to input a string of non-zero length, (re)prompting as
/// necessary.
pub fn prompt_nonzero_len<R: std::io::BufRead, W: std::io::Write, F: Fn(&String) -> bool>(
    input: &mut R,
    output: &mut W,
    prompt_s: &str,
    verifier: F,
) -> (r: Result<String, std::io::Error>)
    requires
        forall|s: &String| call_requires(verifier, (s,)),
    ensures
        r matches Ok(s) ==> s@.len() > 0 && s@ == spec_trim(s@) && call_ensures(
            verifier,
            (&s,),
            true,
        ),
{
    let mut out = String::new();
    let mut fuel: usize = usize::MAX;
    while out.as_str().unicode_len() == 0
        invariant
            forall|s: &String| call_requires(verifier, (s,)),
            out@.len() == 0 || (out@ == spec_trim(out@) && call_ensures(verifier, (&out,), true)),
        decreases fuel,
    {
        if fuel == 0 {
            return Err(end_of_input_error());
        }
        fuel = fuel - 1;
        prompt(input, output, prompt_s, &verifier, false, true, &mut out)?;
    }
    Ok(out)
}

/// Ask the user to input a string of any length after printing a prompt.
///
/// Will return `None` if the (trimmed) input is empty or rejected by the
/// validator.
pub fn prompt_any_len<R: std::io::BufRead, W: std::io::Write, F: Fn(&String) -> bool>(
    input: &mut R,
    output: &mut W,
    prompt_s: &str,
    verifier: F,
) -> (r: Result<Option<String>, std::io::Error>)
    requires
        forall|s: &String| call_requires(verifier, (s,)),
    ensures
        r matches Ok(o) ==> match o {
            Some(s) => s@.len() > 0 && s@ == spec_trim(s@) && call_ensures(verifier, (&s,), true),
            None => true,
        },
{
    let mut out = String::new();
    prompt(input, output, prompt_s, &verifier, true, true, &mut out)?;

    if out.as_str().unicode_len() == 0 {
        Ok(None)
    } else {
        Ok(Some(out))
    }
}

/// Ask the user to input a multiline string, (re)prompting as necessary.
///
/// A line whose trailing run of backslashes has odd length is a
/// continuation: its last backslash becomes a newline and another line is
/// read. An even, non-empty run ends the input, and its final pair is
/// collapsed to one literal backslash. The validator sees the fully
/// assembled string; rejection discards it and restarts from the first
/// line.
///
/// A continuation read allows empty input: end of input right after a
/// continuation marker appends an empty line and assembly proceeds.
pub fn prompt_multiline<R: std::io::BufRead, W: std::io::Write, F: Fn(&String) -> bool>(
    input: &mut R,
    output: &mut W,
    prompt_s: &str,
    verifier: F,
) -> (r: Result<String, std::io::Error>)
    requires
        forall|s: &String| call_requires(verifier, (s,)),
    ensures
        r matches Ok(s) ==> s@.len() > 0 && call_ensures(verifier, (&s,), true),
{
    let plen = prompt_s.unicode_len();
    let pad: usize = if plen <= usize::MAX - 2 {
        plen + 2
    } else {
        usize::MAX
    };
    let reprompt = mul_str(" ", pad);
    let mut lbuf = String::new();
    let mut buf = String::new();
    let mut fuel: usize = usize::MAX;
    while buf.as_str().unicode_len() == 0
        invariant
            forall|s: &String| call_requires(verifier, (s,)),
            buf@.len() == 0 || call_ensures(verifier, (&buf,), true),
        decreases fuel,
    {
        if fuel == 0 {
            return Err(end_of_input_error());
        }
        fuel = fuel - 1;
        buf = prompt_nonzero_len(input, output, prompt_s, |_s: &String| true)?;

        let ghost outer_fuel = fuel;
        while count_trailing_backslashes(&buf) % 2 == 1
            invariant
                buf@.len() > 0,
                fuel <= outer_fuel,
            decreases fuel,
        {
            if fuel == 0 {
                return Err(end_of_input_error());
            }
            fuel = fuel - 1;
            buf = drop_last_char(&buf);
            buf.append("\n");
            proof {
                reveal_strlit("\n");
            }
            prompt(input, output, reprompt.as_str(), &|_s: &String| true, true, false, &mut lbuf)?;
            buf.append(lbuf.as_str());
        }

        if count_trailing_backslashes(&buf) > 0 {
            proof {
                lemma_trailing_backslashes(buf@);
            }
            buf = drop_last_char(&buf);
        }

        if !verifier(&buf) {
            buf = String::new();
        }
    }
    Ok(buf)
}

} // verus!
