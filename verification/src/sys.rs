//! The process- and file-system primitives the interpreter is built on.
//!
//! Each function here wraps exactly one call into the `nix` crate (or, for
//! printing, into the standard library) and is trusted: Verus believes the
//! stated contract and does not look at the body.  Everything these calls
//! decide — which branch a fork took, what a wait reported, what a directory
//! holds — is handed back as a plain value, and the verified code around
//! them states what holds for every such outcome.

use std::io::Write;
use nix::sys::wait::{waitpid, WaitPidFlag, WaitStatus};
use vstd::prelude::*;

verus! {

/// The declaration of `nix::Error`, the error type of every `nix` call;
/// opaque to Verus and carried through to be described in diagnostics.
#[verifier::external_type_specification]
#[verifier::external_body]
pub struct ExNixError(nix::Error);

/// What a fork produced, seen from the process at hand: the parent learns
/// the child's process id, the child learns only that it is the child.
#[derive(Debug, Clone, Copy, PartialEq, Eq, Structural)]
pub enum ForkOutcome {
    Parent(i32),
    Child,
}

/// The two ways a child can have really terminated: on its own, or by a
/// signal.  Numeric exit codes are not surfaced any further.
#[derive(Debug, Clone, Copy, PartialEq, Eq, Structural)]
pub enum WaitKind {
    Exited,
    Signaled,
}

/// Relies on `nix::unistd::fork`: on success the calling process continues
/// as the parent, which learns the child's pid, and the new child continues
/// at the same point with `Child`.  Nothing more is assumed of the outcome.
#[verifier::external_body]
pub(crate) fn sys_fork() -> (r: Result<ForkOutcome, nix::Error>) {
    match nix::unistd::fork() {
        Ok(nix::unistd::ForkResult::Parent { child }) => Ok(ForkOutcome::Parent(child.as_raw())),
        Ok(nix::unistd::ForkResult::Child) => Ok(ForkOutcome::Child),
        Err(e) => Err(e),
    }
}

/// Relies on `nix::sys::wait::waitpid` with `WUNTRACED`, called again as
/// long as the reported status is not a termination: a merely stopped or
/// continued child resumes the wait, and only an exited or signaled child
/// ends it.  (The retry stands here, not in verified code, because no bound
/// on the number of waits exists for Verus to check a `decreases` against.)
#[verifier::external_body]
pub(crate) fn sys_wait_terminated(pid: i32) -> (r: Result<WaitKind, nix::Error>) {
    loop {
        match waitpid(nix::unistd::Pid::from_raw(pid), Some(WaitPidFlag::WUNTRACED)) {
            Ok(WaitStatus::Exited(..)) => return Ok(WaitKind::Exited),
            Ok(WaitStatus::Signaled(..)) => return Ok(WaitKind::Signaled),
            Ok(_) => {},
            Err(e) => return Err(e),
        }
    }
}

/// Relies on `nix::unistd::pipe2` with `O_CLOEXEC`: on success returns the
/// pipe's (read end, write end) descriptor pair.
#[verifier::external_body]
pub(crate) fn sys_pipe() -> (r: Result<(i32, i32), nix::Error>) {
    nix::unistd::pipe2(nix::fcntl::OFlag::O_CLOEXEC)
}

/// Relies on `nix::unistd::dup2`: makes `newfd` refer to the same open file
/// as `oldfd`.
#[verifier::external_body]
pub(crate) fn sys_dup2(oldfd: i32, newfd: i32) -> (r: Result<(), nix::Error>) {
    nix::unistd::dup2(oldfd, newfd).map(|_| ())
}

/// Relies on `nix::unistd::close`: closes the descriptor.
#[verifier::external_body]
pub(crate) fn sys_close(fd: i32) -> (r: Result<(), nix::Error>) {
    nix::unistd::close(fd)
}

/// Relies on `nix::unistd::chdir`: changes the working directory of the
/// calling process to the given path.
#[verifier::external_body]
pub(crate) fn sys_chdir(path: &String) -> (r: Result<(), nix::Error>) {
    nix::unistd::chdir(path.as_str())
}

/// Relies on `nix::unistd::getcwd`: the current working directory, as text.
#[verifier::external_body]
pub(crate) fn sys_getcwd() -> (r: Result<String, nix::Error>) {
    nix::unistd::getcwd().map(|p| p.to_string_lossy().into_owned())
}

/// Relies on `nix::dir::Dir`: the names of one directory's entries,
/// including `.` and `..`, in no promised order.
#[verifier::external_body]
pub(crate) fn sys_list_dir(path: &String) -> (r: Result<Vec<String>, nix::Error>) {
    let mut dir = nix::dir::Dir::open(
        path.as_str(),
        nix::fcntl::OFlag::O_RDONLY,
        nix::sys::stat::Mode::empty(),
    )?;
    let mut names: Vec<String> = Vec::new();
    for entry in dir.iter() {
        names.push(entry?.file_name().to_string_lossy().into_owned());
    }
    Ok(names)
}

/// Relies on the `Display` impl of `nix::Error`: the system's description of
/// a failure, for use in a diagnostic line.
#[verifier::external_body]
pub(crate) fn sys_error_text(e: &nix::Error) -> (r: String) {
    format!("{}", e)
}

/// Relies on `std::io::Stdout::write_fmt` (through `writeln`): prints one
/// line to standard output.
#[verifier::external_body]
pub(crate) fn print_line(s: &String) {
    let _ = writeln!(std::io::stdout(), "{}", s);
}

} // verus!
