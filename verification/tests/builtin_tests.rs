use rush::builtins::{
    collect_files, find_files_in, rsh_cd, rsh_exit, rsh_help, rsh_pwd, rsh_which, split_colon,
    which_message,
};
use rush::envmap::{obtain_env_val_map, StrMap};
use rush::errors::ShellError;
use rush::run::Status;

fn strings(words: &[&str]) -> Vec<String> {
    words.iter().map(|w| w.to_string()).collect()
}

fn env_of(vars: &[&str]) -> StrMap {
    obtain_env_val_map(&strings(vars)).unwrap()
}

#[test]
fn cd_without_home_fails() {
    let env_map = env_of(&["PATH=/bin:/usr/bin", "aOME=/home/woody"]);
    let err = rsh_cd(&vec![], &env_map).unwrap_err();
    assert!(matches!(err, ShellError::MissingEnvironmentVariable(v) if v == "HOME"));
}

#[test]
#[should_panic(expected = "MissingEnvironmentVariable")]
fn lib_panic_cd() {
    let env_map = env_of(&["PATH=/bin:/usr/bin", "aOME=/home/woody"]);
    let _ = rsh_cd(&vec![], &env_map).unwrap();
}

#[test]
#[should_panic(expected = "MissingEnvironmentVariable")]
fn rush_panic_cd() {
    let env_map = env_of(&["PATH=/bin:/usr/bin", "aOME=/home/woody"]);
    let _ = rsh_cd(&vec![], &env_map).unwrap();
}

#[test]
fn cd_with_home_set_enters_it() {
    let env_map = env_of(&["HOME=/"]);
    assert_eq!(rsh_cd(&vec![], &env_map).unwrap(), Status::Success);
    assert_eq!(nix::unistd::getcwd().unwrap(), std::path::PathBuf::from("/"));
}

#[test]
fn cd_with_argument_enters_it() {
    let env_map = env_of(&[]);
    assert_eq!(rsh_cd(&strings(&["cd", "/"]), &env_map).unwrap(), Status::Success);
    assert_eq!(nix::unistd::getcwd().unwrap(), std::path::PathBuf::from("/"));
}

#[test]
fn cd_to_missing_directory_fails_with_path() {
    let env_map = env_of(&[]);
    let err = rsh_cd(&strings(&["cd", "/no/such/rush_dir"]), &env_map).unwrap_err();
    assert!(matches!(err, ShellError::DirectoryChangeError(p, _) if p == "/no/such/rush_dir"));
}

#[test]
fn exit_reports_exit() {
    assert_eq!(rsh_exit(&vec![]).unwrap(), Status::Exit);
}

#[test]
fn help_always_succeeds() {
    assert_eq!(rsh_help(&vec![]).unwrap(), Status::Success);
}

#[test]
fn pwd_succeeds() {
    assert_eq!(rsh_pwd(&vec![]).unwrap(), Status::Success);
}

#[test]
fn split_colon_keeps_every_piece() {
    assert_eq!(split_colon("/a:/b"), strings(&["/a", "/b"]));
    assert_eq!(split_colon(""), strings(&[""]));
    assert_eq!(split_colon("/a::/b:"), strings(&["/a", "", "/b", ""]));
    assert_eq!(split_colon("single"), strings(&["single"]));
}

#[test]
fn later_directory_wins_on_collision() {
    let dirs = strings(&["/a", "/b"]);
    let listings = vec![strings(&["x", "y"]), strings(&["x"])];
    let m = collect_files(&dirs, &listings);
    assert_eq!(m.get(&"x".to_string()), Some(&"/b/x".to_string()));
    assert_eq!(m.get(&"y".to_string()), Some(&"/a/y".to_string()));
    assert_eq!(m.get(&"z".to_string()), None);
}

#[test]
fn dot_entries_are_not_collected() {
    let dirs = strings(&["/a"]);
    let listings = vec![strings(&[".", "..", "x"])];
    let m = collect_files(&dirs, &listings);
    assert_eq!(m.get(&".".to_string()), None);
    assert_eq!(m.get(&"..".to_string()), None);
    assert_eq!(m.get(&"x".to_string()), Some(&"/a/x".to_string()));
}

#[test]
fn which_message_resolves_or_reports() {
    let path = "/b/x".to_string();
    assert_eq!(which_message(&"x".to_string(), Some(&path)), "/b/x".to_string());
    assert_eq!(
        which_message(&"zz".to_string(), None),
        "Command zz not found.".to_string()
    );
}

#[test]
fn find_files_reports_unlistable_directory() {
    let err = find_files_in(&strings(&["/no/such/rush_dir"])).unwrap_err();
    assert!(matches!(err, ShellError::DirectoryReadError(d, _) if d == "/no/such/rush_dir"));
}

#[test]
fn find_files_sees_bin_sh() {
    let m = find_files_in(&strings(&["/bin"])).unwrap();
    assert_eq!(m.get(&"sh".to_string()), Some(&"/bin/sh".to_string()));
}

#[test]
fn which_without_path_fails() {
    let env_map = env_of(&["HOME=/"]);
    let err = rsh_which(&strings(&["which", "sh"]), &env_map).unwrap_err();
    assert!(matches!(err, ShellError::MissingEnvironmentVariable(v) if v == "PATH"));
}

#[test]
fn which_finds_a_real_binary() {
    let env_map = env_of(&["PATH=/bin:/usr/bin"]);
    assert_eq!(
        rsh_which(&strings(&["which", "sh"]), &env_map).unwrap(),
        Status::Success
    );
}

#[test]
fn which_with_unlistable_path_component_fails() {
    let env_map = env_of(&["PATH=/no/such/rush_dir"]);
    let err = rsh_which(&strings(&["which", "sh"]), &env_map).unwrap_err();
    assert!(matches!(err, ShellError::DirectoryReadError(d, _) if d == "/no/such/rush_dir"));
}
