//! Executing a parsed command chain: built-in dispatch, launching external
//! programs in forked children, and wiring PIPE-linked segments through an
//! OS pipe.
//!
//! A forked child can never perform the final `exec` itself (the image
//! replacement is the driving loop's action), so a child hands the image up
//! as `Status::Exec`; every verified frame passes it through unchanged, and
//! a child that is done instead reports `Status::Exit`, which makes the
//! driving loop end the child process.

use vstd::prelude::*;
use crate::builtins::{
    is_builtin_name, lemma_builtin_names_distinct, rsh_cd, rsh_exit, rsh_help, rsh_pwd, rsh_which,
};
use crate::envmap::{all_valid_env, env_map_of, obtain_env_val_map};
use crate::errors::ShellError;
use crate::parse::{
    lemma_op_index_from, op_index_from, split_out_command, token_views, CommandConfig, ControlFlow,
};
use crate::sys::{
    print_line, sys_close, sys_dup2, sys_error_text, sys_fork, sys_pipe, sys_wait_terminated,
    ForkOutcome, WaitKind,
};

verus! {

broadcast use vstd::string::group_string_axioms;

pub const STDIN_FILENO: i32 = 0;

pub const STDOUT_FILENO: i32 = 1;

/// What executing a command chain tells the loop that drives the
/// interpreter: carry on, stop the loop (which in a forked child ends the
/// child process), or — in a child only — replace this process's image with
/// the given program.
#[derive(Debug, PartialEq, Eq)]
pub enum Status {
    Success,
    Exit,
    Exec(ExecImage),
}

/// The program a forked child asks the driving loop to exec: the name to
/// resolve against `PATH` and the full argument vector.
#[derive(Debug, Clone, PartialEq, Eq)]
pub struct ExecImage {
    pub command: String,
    pub argv: Vec<String>,
}

/// Waits for the given child until it has really terminated: a merely
/// stopped or continued child resumes the wait; only an exited or signaled
/// status ends it, and which of the two it was is returned.
pub fn wait_until_terminated(pid: i32) -> (r: Result<WaitKind, ShellError>)
    ensures
        r matches Err(e) ==> e matches ShellError::OsFailure(_, _),
{
    match sys_wait_terminated(pid) {
        Ok(k) => Ok(k),
        Err(e) => Err(ShellError::OsFailure("waitpid".to_owned(), sys_error_text(&e))),
    }
}

/// Runs one external command: forks, and the parent blocks until the child
/// has really terminated, reporting success; the child hands the program
/// image up to its driving loop, which replaces the child process with it.
pub fn rsh_launch(config: CommandConfig) -> (r: Result<Status, ShellError>)
    ensures
        r matches Ok(s) ==> (s == Status::Success || (s matches Status::Exec(im) && im.command
            == config.command && im.argv == config.argv)),
        r matches Err(e) ==> (e matches ShellError::ForkFailure(_) || e matches ShellError::OsFailure(
            _,
            _,
        )),
{
    match sys_fork() {
        Err(e) => Err(ShellError::ForkFailure(sys_error_text(&e))),
        Ok(ForkOutcome::Parent(pid)) => match wait_until_terminated(pid) {
            Ok(_) => Ok(Status::Success),
            Err(e) => Err(e),
        },
        Ok(ForkOutcome::Child) => Ok(
            Status::Exec(ExecImage { command: config.command, argv: config.argv }),
        ),
    }
}

/// Prints the one diagnostic line of a failure and hands the failure on.
fn report(e: ShellError) -> (r: Result<Status, ShellError>)
    ensures
        r == Err::<Status, ShellError>(e),
{
    print_line(&e.describe());
    Err(e)
}

/// Reports an OS failure seen while wiring a forked pipeline child and tells
/// the child's driving loop to end the child process.
fn child_fail(e: nix::Error) -> (r: Result<Status, ShellError>)
    ensures
        r == Ok::<Status, ShellError>(Status::Exit),
{
    print_line(&ShellError::OsFailure("pipe setup".to_owned(), sys_error_text(&e)).describe());
    Ok(Status::Exit)
}

/// What execution recurses on: the length of the chain's unparsed remainder.
pub open spec fn chain_measure(c: CommandConfig) -> nat {
    match c.successive_command {
        None => 0nat,
        Some(sc) => sc.commands@.len() + 1,
    }
}

/// Executes one parsed command chain against the given raw `KEY=VALUE`
/// environment, which is resolved afresh on every call.
///
/// A segment without a successive command is dispatched by name: the five
/// built-ins run in-process, anything else is launched as a child process.
/// A PIPE-linked segment is run as two forked children wired through a
/// pipe — the current segment's output becomes the remainder's input — and
/// the coordinating parent closes both pipe ends at once, waits for the
/// downstream child and then the upstream child, and reports success only
/// when both have terminated.  A successive command under any other
/// operator has no executable semantics and succeeds without running
/// anything.  Every failure is printed as exactly one diagnostic line.
pub fn execute(config: CommandConfig, env_vars: &Vec<String>) -> (r: Result<Status, ShellError>)
    ensures
        ({
            let vs = token_views(env_vars@);
            let m = env_map_of(vs);
            let cmd = config.command@;
            &&& (!all_valid_env(vs) ==> (r matches Err(e) && e matches ShellError::ParseError(_)))
            &&& (all_valid_env(vs) ==> ((config.successive_command matches Some(sc)
                && sc.controlflow != ControlFlow::Pipe) ==> r == Ok::<Status, ShellError>(
                Status::Success,
            )))
            &&& (all_valid_env(vs) ==> (config.successive_command matches Some(sc) ==> (
            sc.controlflow == ControlFlow::Pipe ==> (match r {
                Ok(s) => (s matches Status::Exec(im) ==> ((im.command == config.command
                    && im.argv == config.argv) || (exists|k: int|
                    0 <= k < sc.commands@.len() && im.command@ == sc.commands@[k]@))),
                Err(e) => e is ForkFailure || e is OsFailure,
            }))))
            &&& ((all_valid_env(vs) && config.successive_command is None && cmd == "exit"@)
                ==> r == Ok::<Status, ShellError>(Status::Exit))
            &&& ((all_valid_env(vs) && config.successive_command is None && cmd == "help"@)
                ==> r == Ok::<Status, ShellError>(Status::Success))
            &&& ((all_valid_env(vs) && config.successive_command is None && cmd == "cd"@) ==> {
                &&& (r matches Ok(s) ==> s == Status::Success)
                &&& ((config.argv@.len() <= 1 && !m.contains_key("HOME"@)) ==> (r matches Err(e)
                    && e matches ShellError::MissingEnvironmentVariable(v) && v@ == "HOME"@))
            })
            &&& ((all_valid_env(vs) && config.successive_command is None && cmd == "pwd"@)
                ==> (r matches Ok(s) ==> s == Status::Success))
            &&& ((all_valid_env(vs) && config.successive_command is None && cmd == "which"@
                && config.argv@.len() >= 2) ==> {
                &&& (r matches Ok(s) ==> s == Status::Success)
                &&& (!m.contains_key("PATH"@) ==> (r matches Err(e)
                    && e matches ShellError::MissingEnvironmentVariable(v) && v@ == "PATH"@))
            })
            &&& ((all_valid_env(vs) && config.successive_command is None && cmd == "which"@
                && config.argv@.len() < 2) ==> (r matches Err(e)
                && e matches ShellError::ParseError(_)))
            &&& ((all_valid_env(vs) && config.successive_command is None && !is_builtin_name(cmd))
                ==> (match r {
                Ok(s) => s == Status::Success || (s matches Status::Exec(im) && im.command
                    == config.command && im.argv == config.argv),
                Err(e) => e is ForkFailure || e is OsFailure,
            }))
        }),
    decreases chain_measure(config),
{
    proof {
        lemma_builtin_names_distinct();
    }
    let env_map = match obtain_env_val_map(env_vars) {
        Ok(m) => m,
        Err(e) => {
            return report(e);
        },
    };
    let CommandConfig { command, argv, successive_command } = config;
    match successive_command {
        Some(sc) => {
            if sc.controlflow == ControlFlow::Pipe {
                let (rfd, wfd) = match sys_pipe() {
                    Ok(p) => p,
                    Err(e) => {
                        return report(
                            ShellError::OsFailure("pipe".to_owned(), sys_error_text(&e)),
                        );
                    },
                };
                match sys_fork() {
                    Err(e) => {
                        let _ = sys_close(rfd);
                        let _ = sys_close(wfd);
                        report(ShellError::ForkFailure(sys_error_text(&e)))
                    },
                    Ok(ForkOutcome::Child) => {
                        // Downstream child: the pipe's read end becomes its
                        // standard input, every other copy of the pipe is
                        // closed at once, and the deferred remainder of the
                        // line is parsed and run.
                        if let Err(e) = sys_close(wfd) {
                            return child_fail(e);
                        }
                        if let Err(e) = sys_dup2(rfd, STDIN_FILENO) {
                            return child_fail(e);
                        }
                        if let Err(e) = sys_close(rfd) {
                            return child_fail(e);
                        }
                        match split_out_command(&sc.commands) {
                            None => Ok(Status::Exit),
                            Some(next) => {
                                proof {
                                    assert(chain_measure(next) < chain_measure(config));
                                }
                                let ghost next_sp = next;
                                match execute(next, env_vars) {
                                    Ok(Status::Exec(im)) => {
                                        // The image a deeper child asks for
                                        // always names one of the deferred
                                        // tokens: the remainder's own head,
                                        // or a token of its remainder in
                                        // turn, which is a suffix of ours.
                                        proof {
                                            let ts = token_views(sc.commands@);
                                            let k = op_index_from(ts, 1);
                                            if im.command == next_sp.command && im.argv
                                                == next_sp.argv {
                                                assert(im.command@ == sc.commands@[0]@);
                                            } else {
                                                match next_sp.successive_command {
                                                    Some(sc2) => {
                                                        if sc2.controlflow == ControlFlow::Pipe {
                                                            lemma_op_index_from(ts, 1);
                                                            let k2 = choose|k2: int|
                                                                0 <= k2 < sc2.commands@.len()
                                                                    && im.command@
                                                                    == sc2.commands@[k2]@;
                                                            assert(token_views(sc2.commands@)
                                                                == ts.subrange(
                                                                k + 1,
                                                                ts.len() as int,
                                                            ));
                                                            assert(token_views(sc2.commands@)[k2]
                                                                == ts[k + 1 + k2]);
                                                            assert(im.command@ == sc.commands@[k
                                                                + 1 + k2]@);
                                                        } else {
                                                            assert(false);
                                                        }
                                                    },
                                                    None => {
                                                        assert(false);
                                                    },
                                                }
                                            }
                                            assert(exists|k3: int|
                                                0 <= k3 < sc.commands@.len() && im.command@
                                                    == sc.commands@[k3]@);
                                        }
                                        Ok(Status::Exec(im))
                                    },
                                    Ok(_) => Ok(Status::Exit),
                                    Err(_) => Ok(Status::Exit),
                                }
                            },
                        }
                    },
                    Ok(ForkOutcome::Parent(down_pid)) => {
                        match sys_fork() {
                            Err(e) => {
                                // The downstream child is already running:
                                // close both ends so it sees end-of-stream,
                                // collect it, then propagate the failure.
                                let _ = sys_close(rfd);
                                let _ = sys_close(wfd);
                                let _ = wait_until_terminated(down_pid);
                                report(ShellError::ForkFailure(sys_error_text(&e)))
                            },
                            Ok(ForkOutcome::Child) => {
                                // Upstream child: the pipe's write end becomes
                                // its standard output, every other copy is
                                // closed at once, and the current segment runs
                                // with its output flowing into the pipe.
                                if let Err(e) = sys_close(rfd) {
                                    return child_fail(e);
                                }
                                if let Err(e) = sys_dup2(wfd, STDOUT_FILENO) {
                                    return child_fail(e);
                                }
                                if let Err(e) = sys_close(wfd) {
                                    return child_fail(e);
                                }
                                let head = CommandConfig {
                                    command,
                                    argv,
                                    successive_command: None,
                                };
                                proof {
                                    assert(chain_measure(head) < chain_measure(config));
                                }
                                match execute(head, env_vars) {
                                    Ok(Status::Exec(im)) => Ok(Status::Exec(im)),
                                    Ok(_) => Ok(Status::Exit),
                                    Err(_) => Ok(Status::Exit),
                                }
                            },
                            Ok(ForkOutcome::Parent(up_pid)) => {
                                // Coordinator: it never touches pipeline data,
                                // so both its pipe ends are closed at once;
                                // then it waits for the downstream child, then
                                // the upstream child, and succeeds only when
                                // both have terminated.
                                let c1 = sys_close(rfd);
                                let c2 = sys_close(wfd);
                                let w1 = wait_until_terminated(down_pid);
                                let w2 = wait_until_terminated(up_pid);
                                if let Err(e) = c1 {
                                    return report(
                                        ShellError::OsFailure(
                                            "close".to_owned(),
                                            sys_error_text(&e),
                                        ),
                                    );
                                }
                                if let Err(e) = c2 {
                                    return report(
                                        ShellError::OsFailure(
                                            "close".to_owned(),
                                            sys_error_text(&e),
                                        ),
                                    );
                                }
                                if let Err(e) = w1 {
                                    return report(e);
                                }
                                if let Err(e) = w2 {
                                    return report(e);
                                }
                                Ok(Status::Success)
                            },
                        }
                    },
                }
            } else {
                Ok(Status::Success)
            }
        },
        None => {
            let result: Result<Status, ShellError> = if command == "cd".to_owned() {
                rsh_cd(&argv, &env_map)
            } else if command == "help".to_owned() {
                rsh_help(&argv)
            } else if command == "exit".to_owned() {
                rsh_exit(&argv)
            } else if command == "pwd".to_owned() {
                rsh_pwd(&argv)
            } else if command == "which".to_owned() {
                if argv.len() >= 2 {
                    rsh_which(&argv, &env_map)
                } else {
                    Err(ShellError::ParseError("which: missing operand".to_owned()))
                }
            } else {
                rsh_launch(CommandConfig { command, argv, successive_command: None })
            };
            match result {
                Ok(s) => Ok(s),
                Err(e) => report(e),
            }
        },
    }
}

} // verus!
