//! A small interactive command interpreter: lines are split into
//! whitespace-delimited tokens, folded into a chain of commands linked by
//! control-flow operators, and executed — built-ins in-process, anything
//! else as a forked child process, with PIPE-linked segments wired together
//! through an OS pipe.
//!
//! The modules, leaves first: [`parse`] tokenizes a line and folds it into a
//! command chain; [`envmap`] resolves raw `KEY=VALUE` strings into a map;
//! [`errors`] holds the failure kinds and their diagnostics; [`builtins`]
//! holds the in-process commands; [`run`] dispatches a chain and
//! orchestrates child processes.  The loop that prompts, reads and drives
//! execution lives outside the library.

pub mod builtins;
pub mod envmap;
pub mod errors;
pub mod parse;
pub mod run;
mod sys;

pub use envmap::{obtain_env_val_map, StrMap};
pub use errors::ShellError;
pub use parse::{parse_line, split_out_command, tokenize, CommandConfig, ControlFlow,
    SuccessiveCommand};
pub use run::{execute, ExecImage, Status};
