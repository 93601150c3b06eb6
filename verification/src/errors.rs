//! The failures the interpreter reports, and the one-line diagnostics they
//! are printed with.

use vstd::prelude::*;
use vstd::string::StringExecFns;

verus! {

/// Everything a command execution can fail with.  Failures are reported as a
/// single diagnostic line and never stop the read-eval loop itself.
#[derive(Debug, Clone, PartialEq, Eq)]
pub enum ShellError {
    /// A malformed input: an environment entry without `=` or with an empty
    /// key, or a built-in invocation missing its operand; carries the
    /// offending text.
    ParseError(String),
    /// A built-in needed a variable that the environment does not hold;
    /// carries the variable's name.
    MissingEnvironmentVariable(String),
    /// `cd` could not enter a directory; carries the attempted path and the
    /// system's description of the failure.
    DirectoryChangeError(String, String),
    /// `which` could not list one directory of `PATH`; carries the directory
    /// and the system's description of the failure.
    DirectoryReadError(String, String),
    /// No executable of this name could be run; carries the name.
    CommandNotFound(String),
    /// A new child process could not be created; carries the system's
    /// description of the failure.
    ForkFailure(String),
    /// Some other operating-system call failed; carries the operation's name
    /// and the system's description of the failure.
    OsFailure(String, String),
}

/// The diagnostic line each failure is reported with.
pub open spec fn describe_spec(e: ShellError) -> Seq<char> {
    match e {
        ShellError::ParseError(s) => "could not parse: "@ + s@,
        ShellError::MissingEnvironmentVariable(v) => "environment variable "@ + v@
            + " is not set"@,
        ShellError::DirectoryChangeError(p, c) => "could not change directory to "@ + p@ + ": "@
            + c@,
        ShellError::DirectoryReadError(d, c) => "could not read directory "@ + d@ + ": "@ + c@,
        ShellError::CommandNotFound(n) => n@ + ": command not found"@,
        ShellError::ForkFailure(c) => "could not fork: "@ + c@,
        ShellError::OsFailure(op, c) => op@ + " failed: "@ + c@,
    }
}

impl ShellError {
    /// The one diagnostic line this failure is reported with.
    pub fn describe(&self) -> (r: String)
        ensures
            r@ == describe_spec(*self),
    {
        match self {
            ShellError::ParseError(s) => "could not parse: ".to_owned().concat(s.as_str()),
            ShellError::MissingEnvironmentVariable(v) => "environment variable ".to_owned().concat(
                v.as_str(),
            ).concat(" is not set"),
            ShellError::DirectoryChangeError(p, c) => "could not change directory to ".to_owned()
                .concat(p.as_str()).concat(": ").concat(c.as_str()),
            ShellError::DirectoryReadError(d, c) => "could not read directory ".to_owned().concat(
                d.as_str(),
            ).concat(": ").concat(c.as_str()),
            ShellError::CommandNotFound(n) => n.clone().concat(": command not found"),
            ShellError::ForkFailure(c) => "could not fork: ".to_owned().concat(c.as_str()),
            ShellError::OsFailure(op, c) => op.clone().concat(" failed: ").concat(c.as_str()),
        }
    }
}

} // verus!
