use rush::errors::ShellError;
use rush::parse::parse_line;
use rush::run::{execute, Status};

fn strings(words: &[&str]) -> Vec<String> {
    words.iter().map(|w| w.to_string()).collect()
}

/// Ends this process at once; used in forked children so that they never
/// run on into the test harness.  The parent observes a signaled
/// termination, which ends its wait just as an exit does.
fn kill_self() -> ! {
    let _ = nix::sys::signal::kill(nix::unistd::getpid(), nix::sys::signal::Signal::SIGKILL);
    unreachable!()
}

/// Drives one line the way the interactive loop does: parses and executes
/// it, and ends every forked child that hands back its terminal status —
/// `Exec`, which only a driver could act on, or `Exit`.  Only the root
/// test process returns.
fn drive(line: &str, env_vars: &Vec<String>) -> Result<Status, ShellError> {
    let config = parse_line(line).expect("the line holds a command");
    let r = execute(config, env_vars);
    match &r {
        Ok(Status::Exec(_)) | Ok(Status::Exit) => kill_self(),
        _ => {}
    }
    r
}

#[test]
fn external_command_spawns_a_child_and_collects_it() {
    let env = strings(&["PATH=/usr/bin:/bin"]);
    let config = parse_line("some_external_program x").unwrap();
    let r = execute(config, &env);
    match r {
        // The parent reports success only once the child has terminated.
        Ok(Status::Success) => {}
        // The forked child asks its driver for the image, unchanged.
        Ok(Status::Exec(image)) => {
            assert_eq!(image.command, "some_external_program".to_string());
            assert_eq!(image.argv, strings(&["some_external_program", "x"]));
            kill_self();
        }
        other => panic!("unexpected launch outcome: {:?}", other),
    }
}

#[test]
fn pipeline_of_builtins_succeeds_after_both_children() {
    let env = strings(&["PATH=/usr/bin:/bin"]);
    assert_eq!(drive("pwd | help", &env).unwrap(), Status::Success);
}

#[test]
fn pipeline_with_trailing_operator_is_a_noop_downstream() {
    let env = strings(&["PATH=/usr/bin:/bin"]);
    assert_eq!(drive("pwd |", &env).unwrap(), Status::Success);
}

#[test]
fn pipeline_of_external_commands_succeeds_after_both_children() {
    let env = strings(&["PATH=/usr/bin:/bin"]);
    assert_eq!(drive("printf hi | wc -c", &env).unwrap(), Status::Success);
}

#[test]
fn non_pipe_operator_runs_nothing() {
    let env = strings(&["PATH=/usr/bin:/bin"]);
    let config = parse_line("pwd && ls").unwrap();
    assert_eq!(execute(config, &env).unwrap(), Status::Success);
}

#[test]
fn exit_builtin_reports_exit() {
    let env = strings(&["PATH=/usr/bin:/bin"]);
    let config = parse_line("exit").unwrap();
    assert_eq!(execute(config, &env).unwrap(), Status::Exit);
}

#[test]
fn help_builtin_reports_success() {
    let env = strings(&["PATH=/usr/bin:/bin"]);
    let config = parse_line("help now").unwrap();
    assert_eq!(execute(config, &env).unwrap(), Status::Success);
}

#[test]
fn malformed_environment_is_reported_before_dispatch() {
    let env = strings(&["JUNK"]);
    let config = parse_line("help").unwrap();
    let err = execute(config, &env).unwrap_err();
    assert!(matches!(err, ShellError::ParseError(s) if s == "JUNK"));
}

#[test]
fn which_without_operand_is_a_parse_error() {
    let env = strings(&["PATH=/usr/bin:/bin"]);
    let config = parse_line("which").unwrap();
    let err = execute(config, &env).unwrap_err();
    assert!(matches!(err, ShellError::ParseError(_)));
}

#[test]
fn cd_chain_through_execute_reports_missing_home() {
    let env = strings(&["PATH=/usr/bin:/bin"]);
    let config = parse_line("cd").unwrap();
    let err = execute(config, &env).unwrap_err();
    assert!(matches!(err, ShellError::MissingEnvironmentVariable(v) if v == "HOME"));
}

#[test]
fn error_descriptions_name_what_failed() {
    let e = ShellError::CommandNotFound("frobnicate".to_string());
    assert_eq!(e.describe(), "frobnicate: command not found".to_string());
    let e = ShellError::MissingEnvironmentVariable("HOME".to_string());
    assert_eq!(e.describe(), "environment variable HOME is not set".to_string());
    let e = ShellError::ParseError("JUNK".to_string());
    assert_eq!(e.describe(), "could not parse: JUNK".to_string());
}
