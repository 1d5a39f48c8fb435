//! The lines that a session says before it gives up.
//!
//! Every fatal condition gets one line on the error stream, prefixed with the
//! program's name and a colon, and no more: no trace, no internals.

use vstd::prelude::*;
use vstd::string::StringExecFns;
use crate::args::{ArgsError, ArgsErrorView};
use crate::text::{occurs_at, occurs_in};

verus! {

/// A line made of the program's name, a colon and a space, and what there is
/// to say.
pub open spec fn prefixed(bin: Seq<char>, what: Seq<char>) -> Seq<char> {
    bin + ": "@ + what
}

/// Puts the program's name before a message.
fn prefix(bin: &str, what: &str) -> (line: String)
    ensures
        line@ == prefixed(bin@, what@),
{
    bin.to_owned().concat(": ").concat(what)
}

/// The usage line.
pub open spec fn usage_of(bin: Seq<char>) -> Seq<char> {
    "usage: "@ + bin
        + " [-w|--watch] [-s|--serve|-P|--public] [--port <port>] [--host <host>] [-n|--no-clobber] <input.md> [output.html]"@
}

/// The usage line for a program called `bin`.
pub fn usage(bin: &str) -> (line: String)
    ensures
        line@ == usage_of(bin@),
{
    "usage: ".to_owned().concat(bin).concat(
        " [-w|--watch] [-s|--serve|-P|--public] [--port <port>] [--host <host>] [-n|--no-clobber] <input.md> [output.html]",
    )
}

/// What is said when the renderer cannot be run.
pub open spec fn renderer_missing_of(bin: Seq<char>) -> Seq<char> {
    prefixed(bin, "pandoc not found. Please install pandoc and ensure it is on your PATH."@)
}

/// The line for a renderer that cannot be run. It says "not found".
pub fn renderer_missing(bin: &str) -> (line: String)
    ensures
        line@ == renderer_missing_of(bin@),
        occurs_in(line@, "not found"@),
{
    let line = prefix(bin, "pandoc not found. Please install pandoc and ensure it is on your PATH.");
    proof {
        reveal_strlit(": ");
        reveal_strlit("not found");
        reveal_strlit("pandoc not found. Please install pandoc and ensure it is on your PATH.");
        let at: int = bin@.len() as int + 9;
        assert(line@.subrange(at, at + 9) =~= "not found"@);
        assert(occurs_at(line@, at, "not found"@));
    }
    line
}

/// What is said of a command line that cannot be used, and whether the usage
/// line follows.
pub open spec fn args_error_of(bin: Seq<char>, error: ArgsErrorView) -> (Option<Seq<char>>, bool) {
    match error {
        ArgsErrorView::PortWithoutValue => (Some(prefixed(bin, "--port requires a value"@)), false),
        ArgsErrorView::InvalidPort(value) => (
            Some(prefixed(bin, "invalid port: "@ + value)),
            false,
        ),
        ArgsErrorView::HostWithoutValue => (Some(prefixed(bin, "--host requires a value"@)), false),
        ArgsErrorView::UnknownOption(option) => (
            Some(prefixed(bin, "unknown option: "@ + option)),
            true,
        ),
        ArgsErrorView::WrongPathCount => (None, true),
        ArgsErrorView::NoOutputPath => (
            Some(prefixed("mdr"@, "could not derive output path from input"@)),
            false,
        ),
    }
}

/// What to say of a rejected command line.
#[derive(Debug, PartialEq, Eq)]
pub struct ArgsComplaint {
    /// The line that names the fault, where there is one to name.
    pub message: Option<String>,
    /// Whether the usage line is printed as well.
    pub show_usage: bool,
}

impl ArgsComplaint {
    /// The complaint's content: its message as text, and whether usage follows.
    pub open spec fn content(self) -> (Option<Seq<char>>, bool) {
        (
            match self.message {
                Some(m) => Some(m@),
                None => None,
            },
            self.show_usage,
        )
    }
}

/// Words a rejected command line for the user.
pub fn describe_args_error(bin: &str, error: &ArgsError) -> (complaint: ArgsComplaint)
    ensures
        complaint.content() == args_error_of(bin@, error@),
{
    match error {
        ArgsError::PortWithoutValue => ArgsComplaint {
            message: Some(prefix(bin, "--port requires a value")),
            show_usage: false,
        },
        ArgsError::InvalidPort(value) => {
            let what = "invalid port: ".to_owned().concat(value.as_str());
            ArgsComplaint { message: Some(prefix(bin, what.as_str())), show_usage: false }
        },
        ArgsError::HostWithoutValue => ArgsComplaint {
            message: Some(prefix(bin, "--host requires a value")),
            show_usage: false,
        },
        ArgsError::UnknownOption(option) => {
            let what = "unknown option: ".to_owned().concat(option.as_str());
            ArgsComplaint { message: Some(prefix(bin, what.as_str())), show_usage: true }
        },
        ArgsError::WrongPathCount => ArgsComplaint { message: None, show_usage: true },
        ArgsError::NoOutputPath => ArgsComplaint {
            message: Some(prefix("mdr", "could not derive output path from input")),
            show_usage: false,
        },
    }
}

} // verus!
