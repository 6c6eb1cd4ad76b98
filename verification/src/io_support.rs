//! Trusted boundary to `std::io`: the reader and writer handed in by the
//! caller are used only through the small wrappers below.

use vstd::prelude::*;

verus! {

/// `std::io::Error`, the failure type of the prompting operations; declared
/// here so that it can appear in their signatures.
#[verifier::external_type_specification]
#[verifier::external_body]
pub struct ExIoError(std::io::Error);

/// Relies on `std::io::Write::write_all`: writes the whole string to the
/// writer, or reports the writer's error.
#[verifier::external_body]
pub(crate) fn write_str_io<W: std::io::Write>(output: &mut W, s: &str) -> Result<
    (),
    std::io::Error,
> {
    output.write_all(s.as_bytes())
}

/// Relies on `std::io::Write::flush`: forces buffered output out before the
/// blocking read, or reports the writer's error.
#[verifier::external_body]
pub(crate) fn flush_io<W: std::io::Write>(output: &mut W) -> Result<(), std::io::Error> {
    output.flush()
}

/// Relies on `std::io::BufRead::read_line`: appends one line (keeping its
/// newline, if one was present) to `buf` and returns how many bytes were
/// read; zero bytes means end of input, and then `buf` is unchanged.
#[verifier::external_body]
pub(crate) fn read_line_io<R: std::io::BufRead>(input: &mut R, buf: &mut String) -> (r: Result<
    usize,
    std::io::Error,
>)
    ensures
        (r matches Ok(n) && n == 0) ==> final(buf)@ == old(buf)@,
{
    input.read_line(buf)
}

/// Relies on `std::io::Error::new` to build the error reported when input
/// ends where a line was still required.
#[verifier::external_body]
pub(crate) fn end_of_input_error() -> std::io::Error {
    std::io::Error::new(std::io::ErrorKind::UnexpectedEof, "Input too short")
}

} // verus!
