//! Tokenizing a line of input and folding the tokens into a command chain.
//!
//! A line is split into tokens at runs of ASCII whitespace.  The first token
//! names the command and seeds `argv`; further tokens extend `argv` until
//! either the line ends or a token is one of the control-flow operators
//! `|`, `||`, `&&`, `&`, `;`.  On an operator the remaining tokens are kept
//! unparsed as the continuation of the successive command.

use vstd::prelude::*;
use vstd::string::StrSliceExecFns;

verus! {

/// The operator that links one command segment to the next one on the line.
#[derive(Debug, Clone, Copy, PartialEq, Eq, Structural)]
pub enum ControlFlow {
    Pipe,
    Or,
    And,
    Background,
    Sequence,
}

/// One parsed command segment: the command name, its full argument vector
/// (whose first element is the command itself), and, when a control-flow
/// operator followed, the not-yet-parsed remainder of the line.
#[derive(Debug, Clone)]
pub struct CommandConfig {
    pub command: String,
    pub argv: Vec<String>,
    pub successive_command: Option<SuccessiveCommand>,
}

/// The link to the rest of the line: the operator that ended the current
/// segment and the tokens after it, kept as an owned list so that the
/// continuation survives a fork boundary.
#[derive(Debug, Clone)]
pub struct SuccessiveCommand {
    pub controlflow: ControlFlow,
    pub commands: Vec<String>,
}

impl CommandConfig {
    /// A well-formed segment: `argv` is non-empty and starts with the command.
    pub open spec fn wf(&self) -> bool {
        self.argv@.len() > 0 && self.argv@[0]@ == self.command@
    }
}

/// The views of a sequence of strings.
pub open spec fn token_views(ts: Seq<String>) -> Seq<Seq<char>> {
    Seq::new(ts.len(), |i: int| ts[i]@)
}

/// The characters `split_ascii_whitespace` separates tokens at.
pub open spec fn is_shell_space(c: char) -> bool {
    c == ' ' || c == '\t' || c == '\n' || c == '\r' || c == '\u{000C}'
}

/// Whether `c` separates tokens.
pub fn is_space_char(c: char) -> (r: bool)
    ensures
        r == is_shell_space(c),
{
    c == ' ' || c == '\t' || c == '\n' || c == '\r' || c == '\u{000C}'
}

/// The first index at or after `i` holding a whitespace character, or the
/// length of `s` if there is none.
pub open spec fn space_index_from(s: Seq<char>, i: int) -> int
    decreases s.len() - i,
{
    if i < 0 || i >= s.len() {
        s.len() as int
    } else if is_shell_space(s[i]) {
        i
    } else {
        space_index_from(s, i + 1)
    }
}

/// `space_index_from` lands on the first whitespace character at or after `i`.
proof fn lemma_space_index_from(s: Seq<char>, i: int)
    requires
        0 <= i <= s.len(),
    ensures
        i <= space_index_from(s, i) <= s.len(),
        space_index_from(s, i) < s.len() ==> is_shell_space(s[space_index_from(s, i)]),
        forall|j: int| i <= j < space_index_from(s, i) ==> !is_shell_space(s[j]),
    decreases s.len() - i,
{
    if i < s.len() && !is_shell_space(s[i]) {
        lemma_space_index_from(s, i + 1);
    }
}

/// If no character of `[i, k)` is whitespace and `k` is the length of `s` or
/// holds whitespace, then `k` is exactly `space_index_from(s, i)`.
proof fn lemma_space_index_is(s: Seq<char>, i: int, k: int)
    requires
        0 <= i <= k <= s.len(),
        forall|j: int| i <= j < k ==> !is_shell_space(s[j]),
        k < s.len() ==> is_shell_space(s[k]),
    ensures
        space_index_from(s, i) == k,
    decreases k - i,
{
    if i < k {
        lemma_space_index_is(s, i + 1, k);
    }
}

/// The tokens of `s` from position `i` on: maximal runs of non-whitespace
/// characters, in order.
pub open spec fn tokens_from(s: Seq<char>, i: int) -> Seq<Seq<char>>
    decreases s.len() - i,
    when 0 <= i
    via tokens_from_dec
{
    if i >= s.len() {
        Seq::empty()
    } else if is_shell_space(s[i]) {
        tokens_from(s, i + 1)
    } else {
        seq![s.subrange(i, space_index_from(s, i))] + tokens_from(s, space_index_from(s, i))
    }
}

#[via_fn]
proof fn tokens_from_dec(s: Seq<char>, i: int) {
    if 0 <= i < s.len() && !is_shell_space(s[i]) {
        lemma_space_index_from(s, i);
    }
}

/// The whitespace-delimited tokens of a whole line.
pub open spec fn tokens_of(s: Seq<char>) -> Seq<Seq<char>> {
    tokens_from(s, 0)
}

/// Splits a line into its whitespace-delimited tokens.
pub fn tokenize(line: &str) -> (r: Vec<String>)
    ensures
        token_views(r@) == tokens_of(line@),
{
    let n = line.unicode_len();
    let mut toks: Vec<String> = Vec::new();
    let mut i: usize = 0;
    while i < n
        invariant
            n == line@.len(),
            i <= n,
            token_views(toks@) + tokens_from(line@, i as int) == tokens_of(line@),
        decreases n - i,
    {
        if is_space_char(line.get_char(i)) {
            i = i + 1;
        } else {
            let ghost start = i as int;
            let mut j: usize = i + 1;
            while j < n && !is_space_char(line.get_char(j))
                invariant
                    n == line@.len(),
                    start < j <= n,
                    0 <= start,
                    forall|l: int| start <= l < j ==> !is_shell_space(line@[l]),
                decreases n - j,
            {
                j = j + 1;
            }
            proof {
                lemma_space_index_is(line@, start, j as int);
            }
            let t = line.substring_char(i, j).to_owned();
            toks.push(t);
            proof {
                assert(token_views(toks@) =~= token_views(toks@.drop_last()) + seq![t@]);
                assert(token_views(toks@) + tokens_from(line@, j as int) =~= (token_views(
                    toks@.drop_last(),
                ) + tokens_from(line@, start)));
            }
            i = j;
        }
    }
    proof {
        assert(tokens_from(line@, n as int) =~= Seq::<Seq<char>>::empty());
        assert(token_views(toks@) =~= token_views(toks@) + Seq::<Seq<char>>::empty());
    }
    toks
}

/// The operator a token denotes, or `None` for an ordinary word.
pub open spec fn operator_of(t: Seq<char>) -> Option<ControlFlow> {
    if t == "|"@ {
        Some(ControlFlow::Pipe)
    } else if t == "||"@ {
        Some(ControlFlow::Or)
    } else if t == "&&"@ {
        Some(ControlFlow::And)
    } else if t == "&"@ {
        Some(ControlFlow::Background)
    } else if t == ";"@ {
        Some(ControlFlow::Sequence)
    } else {
        None
    }
}

/// Classifies one token as a control-flow operator or an ordinary word.
pub fn classify_token(t: &String) -> (r: Option<ControlFlow>)
    ensures
        r == operator_of(t@),
{
    proof {
        reveal_strlit("|");
        reveal_strlit("||");
        reveal_strlit("&&");
        reveal_strlit("&");
        reveal_strlit(";");
    }
    if *t == "|".to_owned() {
        Some(ControlFlow::Pipe)
    } else if *t == "||".to_owned() {
        Some(ControlFlow::Or)
    } else if *t == "&&".to_owned() {
        Some(ControlFlow::And)
    } else if *t == "&".to_owned() {
        Some(ControlFlow::Background)
    } else if *t == ";".to_owned() {
        Some(ControlFlow::Sequence)
    } else {
        None
    }
}

/// The first index at or after `i` whose token is a control-flow operator, or
/// the length of `ts` if there is none.
pub open spec fn op_index_from(ts: Seq<Seq<char>>, i: int) -> int
    decreases ts.len() - i,
{
    if i < 0 || i >= ts.len() {
        ts.len() as int
    } else if operator_of(ts[i]) is Some {
        i
    } else {
        op_index_from(ts, i + 1)
    }
}

/// `op_index_from` lands on the first operator token at or after `i`.
pub proof fn lemma_op_index_from(ts: Seq<Seq<char>>, i: int)
    requires
        0 <= i <= ts.len(),
    ensures
        i <= op_index_from(ts, i) <= ts.len(),
        op_index_from(ts, i) < ts.len() ==> operator_of(ts[op_index_from(ts, i)]) is Some,
        forall|j: int| i <= j < op_index_from(ts, i) ==> operator_of(ts[j]) is None,
    decreases ts.len() - i,
{
    if i < ts.len() && operator_of(ts[i]) is None {
        lemma_op_index_from(ts, i + 1);
    }
}

/// If no token of `[i, k)` is an operator and `k` is the length of `ts` or an
/// operator index, then `k` is exactly `op_index_from(ts, i)`.
proof fn lemma_op_index_is(ts: Seq<Seq<char>>, i: int, k: int)
    requires
        0 <= i <= k <= ts.len(),
        forall|j: int| i <= j < k ==> operator_of(ts[j]) is None,
        k < ts.len() ==> operator_of(ts[k]) is Some,
    ensures
        op_index_from(ts, i) == k,
    decreases k - i,
{
    if i < k {
        lemma_op_index_is(ts, i + 1, k);
    }
}

/// The command a token list parses to: its first token.
pub open spec fn parsed_command(ts: Seq<Seq<char>>) -> Seq<char> {
    ts[0]
}

/// The argument vector a token list parses to: every token before the first
/// operator (the first token is never read as an operator).
pub open spec fn parsed_argv(ts: Seq<Seq<char>>) -> Seq<Seq<char>> {
    ts.subrange(0, op_index_from(ts, 1))
}

/// Folds a token list into a command segment.  An empty list yields no
/// command at all.  Otherwise the first token is the command, the tokens up
/// to the first operator are `argv`, and on an operator the tokens after it
/// are attached, unparsed, as the successive command's continuation.
pub fn split_out_command(tokens: &Vec<String>) -> (r: Option<CommandConfig>)
    ensures
        ({
            let ts = token_views(tokens@);
            let k = op_index_from(ts, 1);
            match r {
                None => tokens@.len() == 0,
                Some(c) => {
                    &&& tokens@.len() > 0
                    &&& c.wf()
                    &&& c.command@ == parsed_command(ts)
                    &&& token_views(c.argv@) == parsed_argv(ts)
                    &&& (match c.successive_command {
                        None => k == ts.len(),
                        Some(sc) => {
                            &&& k < ts.len()
                            &&& operator_of(ts[k]) == Some(sc.controlflow)
                            &&& token_views(sc.commands@) == ts.subrange(k + 1, ts.len() as int)
                            &&& sc.commands@.len() + 2 <= tokens@.len()
                        },
                    })
                },
            }
        }),
{
    let ghost ts = token_views(tokens@);
    if tokens.len() == 0 {
        return None;
    }
    let command: String = tokens[0].clone();
    let mut argv: Vec<String> = Vec::new();
    argv.push(tokens[0].clone());
    let mut i: usize = 1;
    while i < tokens.len()
        invariant
            ts == token_views(tokens@),
            1 <= i <= tokens@.len(),
            argv@ =~= tokens@.subrange(0, i as int),
            command == tokens@[0],
            forall|j: int| 1 <= j < i ==> operator_of(ts[j]) is None,
        decreases tokens@.len() - i,
    {
        let cls = classify_token(&tokens[i]);
        match cls {
            Some(op) => {
                let mut rest: Vec<String> = Vec::new();
                let mut j: usize = i + 1;
                while j < tokens.len()
                    invariant
                        i + 1 <= j <= tokens@.len(),
                        rest@ =~= tokens@.subrange(i + 1, j as int),
                    decreases tokens@.len() - j,
                {
                    rest.push(tokens[j].clone());
                    j = j + 1;
                }
                proof {
                    lemma_op_index_is(ts, 1, i as int);
                    assert(token_views(argv@) =~= ts.subrange(0, i as int));
                    assert(token_views(rest@) =~= ts.subrange(
                        i + 1 as int,
                        ts.len() as int,
                    ));
                }
                return Some(
                    CommandConfig {
                        command,
                        argv,
                        successive_command: Some(
                            SuccessiveCommand { controlflow: op, commands: rest },
                        ),
                    },
                );
            },
            None => {
                argv.push(tokens[i].clone());
                proof {
                    assert(argv@ =~= tokens@.subrange(0, i + 1 as int));
                }
                i = i + 1;
            },
        }
    }
    proof {
        lemma_op_index_is(ts, 1, ts.len() as int);
        assert(token_views(argv@) =~= ts.subrange(0, ts.len() as int));
    }
    Some(CommandConfig { command, argv, successive_command: None })
}

/// Parses one whole line: tokenize, then fold the tokens into a segment.
pub fn parse_line(line: &str) -> (r: Option<CommandConfig>)
    ensures
        ({
            let ts = tokens_of(line@);
            let k = op_index_from(ts, 1);
            match r {
                None => ts.len() == 0,
                Some(c) => {
                    &&& ts.len() > 0
                    &&& c.wf()
                    &&& c.command@ == parsed_command(ts)
                    &&& token_views(c.argv@) == parsed_argv(ts)
                    &&& (match c.successive_command {
                        None => k == ts.len(),
                        Some(sc) => {
                            &&& k < ts.len()
                            &&& operator_of(ts[k]) == Some(sc.controlflow)
                            &&& token_views(sc.commands@) == ts.subrange(k + 1, ts.len() as int)
                        },
                    })
                },
            }
        }),
{
    let toks = tokenize(line);
    split_out_command(&toks)
}

/// Law: for any input whose first token is not a control-flow operator, the
/// parsed command equals that first token, and so does the first element of
/// the parsed argument vector.
pub proof fn lemma_first_token_is_command(ts: Seq<Seq<char>>)
    requires
        ts.len() > 0,
        operator_of(ts[0]) is None,
    ensures
        parsed_command(ts) == ts[0],
        parsed_argv(ts).len() > 0,
        parsed_argv(ts)[0] == ts[0],
{
    lemma_op_index_from(ts, 1);
}

} // verus!
