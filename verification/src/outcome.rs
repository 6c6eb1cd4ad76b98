//! The closed set of causes on which the application terminates, each with
//! a rendered message and a process exit value.

use vstd::prelude::*;

use crate::io_support::write_str_io;

verus! {

/// The two-space-indented lines of `FileParsingFailed`, one per recorded
/// parse error, each ended by a newline.
pub open spec fn rendered_error_lines(errors: Seq<String>) -> Seq<char>
    decreases errors.len(),
{
    if errors.len() == 0 {
        Seq::empty()
    } else {
        rendered_error_lines(errors.drop_last()) + "  "@ + errors.last()@ + "\n"@
    }
}

/// Enum representing all possible values the application can fail.
#[derive(Debug, Clone, Hash, PartialEq, Eq)]
pub enum Outcome {
    /// No errors occured, everything executed correctly.
    NoError,
    /// The specified file would need to be overriden but was not allowed to.
    OverrideNoForce(String),
    /// The specified subsystem needs to be run beforehand to produce the
    /// specified file.
    RequiredFileFromSubsystemNonexistant {
        /// The subsystem that needs to be run.
        subsys: &'static str,
        /// The file the specified subsystem produces.
        fname: String,
    },
    /// The specified subsystem needs to be run beforehand to produce the
    /// specified data.
    RequiredDataFromSubsystemNonexistant {
        /// The subsystem that needs to be run.
        subsys: &'static str,
        /// The description of what needs to be produced.
        desc: String,
    },
    /// The Twitter API returned an error.
    TwitterAPIError(String),
    /// Failed to parse the specified file because of the specified errors.
    FileParsingFailed {
        /// The file that failed to parse.
        desc: &'static str,
        /// The parsing errors that occured.
        errors: Vec<String>,
    },
}

impl Outcome {
    /// The message `print_error` writes, character for character; empty
    /// exactly for `NoError`.
    pub open spec fn spec_message(&self) -> Seq<char> {
        match *self {
            Outcome::NoError => Seq::empty(),
            Outcome::OverrideNoForce(fname) => "File \""@ + fname@
                + "\" was not overriden to prevent data loss.\nPass --force to override it.\n"@,
            Outcome::RequiredFileFromSubsystemNonexistant { subsys, fname } => "Run the "@
                + subsys@ + " subsystem first to produce \""@ + fname@ + "\".\n"@,
            Outcome::RequiredDataFromSubsystemNonexistant { subsys, desc } => "Run the "@ + subsys@
                + " subsystem first to "@ + desc@ + ".\n"@,
            Outcome::TwitterAPIError(error) => "Twitter API error: "@ + error@ + "\n"@,
            Outcome::FileParsingFailed { desc, errors } => "Failed to parse "@ + desc@ + (
            if errors@.len() == 0 {
                ".\n"@
            } else {
                ":\n"@
            }) + rendered_error_lines(errors@),
        }
    }

    /// The rendered message of this outcome, exactly as
    /// [`Outcome::spec_message`] states it.
    pub fn error_message(&self) -> (r: String)
        ensures
            r@ == self.spec_message(),
    {
        match self {
            Outcome::NoError => String::new(),
            Outcome::OverrideNoForce(fname) => {
                let mut m = String::new();
                m.append("File \"");
                m.append(fname.as_str());
                m.append("\" was not overriden to prevent data loss.\nPass --force to override it.\n");
                assert(m@ =~= self.spec_message());
                m
            },
            Outcome::RequiredFileFromSubsystemNonexistant { subsys, fname } => {
                let mut m = String::new();
                m.append("Run the ");
                m.append(subsys);
                m.append(" subsystem first to produce \"");
                m.append(fname.as_str());
                m.append("\".\n");
                assert(m@ =~= self.spec_message());
                m
            },
            Outcome::RequiredDataFromSubsystemNonexistant { subsys, desc } => {
                let mut m = String::new();
                m.append("Run the ");
                m.append(subsys);
                m.append(" subsystem first to ");
                m.append(desc.as_str());
                m.append(".\n");
                assert(m@ =~= self.spec_message());
                m
            },
            Outcome::TwitterAPIError(error) => {
                let mut m = String::new();
                m.append("Twitter API error: ");
                m.append(error.as_str());
                m.append("\n");
                assert(m@ =~= self.spec_message());
                m
            },
            Outcome::FileParsingFailed { desc, errors } => {
                let mut m = String::new();
                m.append("Failed to parse ");
                m.append(desc);
                if errors.len() == 0 {
                    m.append(".\n");
                } else {
                    m.append(":\n");
                }
                let ghost head = m@;
                let mut i: usize = 0;
                while i < errors.len()
                    invariant
                        0 <= i <= errors@.len(),
                        m@ == head + rendered_error_lines(errors@.take(i as int)),
                    decreases errors@.len() - i,
                {
                    m.append("  ");
                    m.append(errors[i].as_str());
                    m.append("\n");
                    proof {
                        assert(errors@.take(i + 1).drop_last() =~= errors@.take(i as int));
                        assert(errors@.take(i + 1).last() == errors@[i as int]);
                        assert(m@ =~= head + rendered_error_lines(errors@.take(i + 1)));
                    }
                    i = i + 1;
                }
                proof {
                    assert(errors@.take(errors@.len() as int) =~= errors@);
                    assert(m@ =~= self.spec_message());
                }
                m
            },
        }
    }

    /// Print an error message for this outcome to `err_out`; writes nothing
    /// for `NoError`. Reporting a terminal outcome is total: a failure of
    /// the writer is ignored.
    pub fn print_error<W: std::io::Write>(&self, err_out: &mut W) {
        let msg = self.error_message();
        if msg.as_str().unicode_len() > 0 {
            let _ = write_str_io(err_out, msg.as_str());
        }
    }

    /// Get the executable exit value from an `Outcome` instance.
    ///
    /// `NoError` is the only variant whose exit value is 0; every other
    /// variant has a fixed nonzero value, stated exactly below.
    pub fn exit_value(&self) -> (r: i32)
        ensures
            r == match *self {
                Outcome::NoError => 0int,
                Outcome::OverrideNoForce(_) => 1int,
                Outcome::RequiredFileFromSubsystemNonexistant { .. } => 2int,
                Outcome::RequiredDataFromSubsystemNonexistant { .. } => 2int,
                Outcome::TwitterAPIError(_) => 3int,
                Outcome::FileParsingFailed { .. } => 4int,
            },
            r == 0 <==> *self is NoError,
    {
        match *self {
            Outcome::NoError => 0,
            Outcome::OverrideNoForce(_) => 1,
            Outcome::RequiredFileFromSubsystemNonexistant { .. }
            | Outcome::RequiredDataFromSubsystemNonexistant { .. } => 2,
            Outcome::TwitterAPIError(_) => 3,
            Outcome::FileParsingFailed { .. } => 4,
        }
    }
}

/// Law: `NoError` is the only outcome whose rendered message is empty,
/// just as it is the only one whose exit value is zero.
pub proof fn lemma_message_empty_iff_no_error(o: Outcome)
    ensures
        o.spec_message().len() == 0 <==> o is NoError,
{
    reveal_strlit("File \"");
    reveal_strlit("Run the ");
    reveal_strlit("Twitter API error: ");
    reveal_strlit("Failed to parse ");
}

} // verus!
