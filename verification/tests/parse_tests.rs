use rush::parse::{parse_line, split_out_command, tokenize, CommandConfig, ControlFlow};

fn parse(line: &str) -> Option<CommandConfig> {
    split_out_command(&tokenize(line))
}

fn strings(words: &[&str]) -> Vec<String> {
    words.iter().map(|w| w.to_string()).collect()
}

#[test]
fn lib_parse_commands() {
    let command_answer_pairs: Vec<(&str, Vec<&str>)> = vec![
        ("ls some_file", vec!["ls", "some_file"]),
        ("pwd some_file", vec!["pwd", "some_file"]),
        ("cat some_file | less", vec!["cat", "some_file"]),
        ("cat some_file ||    ", vec!["cat", "some_file"]),
        ("cat some_file > out.txt", vec!["cat", "some_file", ">", "out.txt"]),
        (
            "cat some_file > out.txt && ls || cat out.txt",
            vec!["cat", "some_file", ">", "out.txt"],
        ),
        (
            "cat some_file > out.txt & ls || cat   out.txt",
            vec!["cat", "some_file", ">", "out.txt"],
        ),
        (
            "cat some_file > out.txt ; ls || cat out.txt",
            vec!["cat", "some_file", ">", "out.txt"],
        ),
    ];
    for (command, answer) in command_answer_pairs.iter() {
        let config = parse(command).unwrap();
        assert_eq!(config.command, answer[0].to_string());
        assert_eq!(config.argv, strings(answer));
    }
}

#[test]
fn rush_parse_commands() {
    let command_answer_pairs: Vec<(&str, Vec<&str>)> = vec![
        ("ls some_file", vec!["ls", "some_file"]),
        ("pwd some_file", vec!["pwd", "some_file"]),
        ("echo wow", vec!["echo", "wow"]),
        ("cat some_file | less", vec!["cat", "some_file"]),
        ("cat some_file ||    ", vec!["cat", "some_file"]),
        ("cat some_file > out.txt", vec!["cat", "some_file", ">", "out.txt"]),
        (
            "cat some_file > out.txt && ls || cat out.txt",
            vec!["cat", "some_file", ">", "out.txt"],
        ),
        (
            "cat some_file > out.txt & ls || cat   out.txt",
            vec!["cat", "some_file", ">", "out.txt"],
        ),
        (
            "cat some_file > out.txt ; ls || cat out.txt",
            vec!["cat", "some_file", ">", "out.txt"],
        ),
    ];
    for (command, answer) in command_answer_pairs.iter() {
        let config = parse(command).unwrap();
        assert_eq!(config.command, answer[0].to_string());
        assert_eq!(config.argv, strings(answer));
    }
}

#[test]
fn first_token_becomes_command() {
    for line in ["ls some_file", "echo a b c", "cat"] {
        let first = line.split(' ').next().unwrap().to_string();
        let config = parse(line).unwrap();
        assert_eq!(config.command, first);
        assert_eq!(config.argv[0], first);
    }
}

#[test]
fn pipe_parse() {
    let config = parse("cat f | less").unwrap();
    assert_eq!(config.command, "cat".to_string());
    assert_eq!(config.argv, strings(&["cat", "f"]));
    let successive = config.successive_command.unwrap();
    assert_eq!(successive.controlflow, ControlFlow::Pipe);
    assert_eq!(successive.commands, strings(&["less"]));
}

#[test]
fn sequence_parse() {
    let config = parse("cmd ; other").unwrap();
    let successive = config.successive_command.unwrap();
    assert_eq!(successive.controlflow, ControlFlow::Sequence);
    assert_eq!(successive.commands, strings(&["other"]));
}

#[test]
fn operators_and_remainders() {
    let cases: Vec<(&str, ControlFlow, Vec<&str>)> = vec![
        ("a | b c", ControlFlow::Pipe, vec!["b", "c"]),
        ("a || b", ControlFlow::Or, vec!["b"]),
        ("a && b", ControlFlow::And, vec!["b"]),
        ("a & b", ControlFlow::Background, vec!["b"]),
        ("a ; b", ControlFlow::Sequence, vec!["b"]),
    ];
    for (line, op, rest) in cases {
        let successive = parse(line).unwrap().successive_command.unwrap();
        assert_eq!(successive.controlflow, op);
        assert_eq!(successive.commands, strings(&rest));
    }
}

#[test]
fn trailing_operator_yields_empty_continuation() {
    let config = parse("cat some_file ||    ").unwrap();
    let successive = config.successive_command.unwrap();
    assert_eq!(successive.controlflow, ControlFlow::Or);
    assert!(successive.commands.is_empty());
    assert!(split_out_command(&successive.commands).is_none());
}

#[test]
fn no_operator_means_no_successive_command() {
    let config = parse("ls -l -a").unwrap();
    assert!(config.successive_command.is_none());
}

#[test]
fn empty_line_parses_to_nothing() {
    assert!(parse("").is_none());
    assert!(parse("   \t  \n").is_none());
    assert!(parse_line("").is_none());
}

#[test]
fn tokenize_splits_on_whitespace_runs() {
    assert_eq!(tokenize("cat   some_file\t x\n"), strings(&["cat", "some_file", "x"]));
    assert_eq!(tokenize(""), strings(&[]));
    assert_eq!(tokenize("  one  "), strings(&["one"]));
}

#[test]
fn parse_line_matches_manual_composition() {
    let a = parse_line("cat f | less").unwrap();
    let b = parse("cat f | less").unwrap();
    assert_eq!(a.command, b.command);
    assert_eq!(a.argv, b.argv);
}
