//! The built-in commands: `cd`, `pwd`, `help`, `exit`, `which`.
//!
//! Built-ins run inside the interpreter's own process.  Their decisions are
//! pure functions of the arguments and the environment map; only the final
//! step — changing directory, reading a directory, printing — goes through
//! the trusted system wrappers.

use vstd::prelude::*;
use vstd::string::{StrSliceExecFns, StringExecFns};
use crate::envmap::{char_index_from, lemma_char_index_from, StrMap};
use crate::errors::ShellError;
use crate::parse::token_views;
use crate::run::Status;
use crate::sys::{print_line, sys_chdir, sys_error_text, sys_getcwd, sys_list_dir};

verus! {

broadcast use vstd::string::group_string_axioms;

/// The command names that are executed in-process.
pub open spec fn is_builtin_name(c: Seq<char>) -> bool {
    c == "cd"@ || c == "pwd"@ || c == "exit"@ || c == "help"@ || c == "which"@
}

/// The five built-in names are pairwise distinct, so dispatch by name is
/// unambiguous.
pub proof fn lemma_builtin_names_distinct()
    ensures
        "cd"@ != "pwd"@,
        "cd"@ != "exit"@,
        "cd"@ != "help"@,
        "cd"@ != "which"@,
        "pwd"@ != "exit"@,
        "pwd"@ != "help"@,
        "pwd"@ != "which"@,
        "exit"@ != "help"@,
        "exit"@ != "which"@,
        "help"@ != "which"@,
{
    reveal_strlit("cd");
    reveal_strlit("pwd");
    reveal_strlit("exit");
    reveal_strlit("help");
    reveal_strlit("which");
    assert("cd"@.len() == 2);
    assert("pwd"@.len() == 3);
    assert("exit"@.len() == 4);
    assert("help"@.len() == 4);
    assert("which"@.len() == 5);
    assert("exit"@[0] == 'e');
    assert("help"@[0] == 'h');
}

/// The built-in `cd`: with an argument, enter that directory; without one,
/// enter the directory `HOME` names, failing when `HOME` is not set.  An OS
/// refusal is reported with the attempted path.
pub fn rsh_cd(args: &Vec<String>, env_map: &StrMap) -> (r: Result<Status, ShellError>)
    ensures
        r matches Ok(s) ==> s == Status::Success,
        args@.len() <= 1 && !env_map@.contains_key("HOME"@) ==> (r matches Err(e)
            && e matches ShellError::MissingEnvironmentVariable(v) && v@ == "HOME"@),
        r matches Err(e) ==> (args@.len() > 1 ==> (e matches ShellError::DirectoryChangeError(
            p,
            _,
        ) && p@ == args@[1]@)),
        r matches Err(e) ==> ((args@.len() <= 1 && env_map@.contains_key("HOME"@))
            ==> (e matches ShellError::DirectoryChangeError(p, _) && p@ == env_map@["HOME"@])),
{
    if args.len() > 1 {
        let destination = &args[1];
        match sys_chdir(destination) {
            Ok(_) => Ok(Status::Success),
            Err(e) => Err(
                ShellError::DirectoryChangeError(destination.clone(), sys_error_text(&e)),
            ),
        }
    } else {
        match env_map.get(&"HOME".to_owned()) {
            None => Err(ShellError::MissingEnvironmentVariable("HOME".to_owned())),
            Some(home) => match sys_chdir(home) {
                Ok(_) => Ok(Status::Success),
                Err(e) => Err(ShellError::DirectoryChangeError(home.clone(), sys_error_text(&e))),
            },
        }
    }
}

/// The built-in `pwd`: prints the current working directory; fails only when
/// the directory cannot be retrieved from the system.
pub fn rsh_pwd(_args: &Vec<String>) -> (r: Result<Status, ShellError>)
    ensures
        r matches Ok(s) ==> s == Status::Success,
        r matches Err(e) ==> e matches ShellError::OsFailure(_, _),
{
    match sys_getcwd() {
        Ok(cwd) => {
            print_line(&cwd);
            Ok(Status::Success)
        },
        Err(e) => Err(ShellError::OsFailure("getcwd".to_owned(), sys_error_text(&e))),
    }
}

/// The built-in `help`: prints two fixed lines of usage text; always
/// succeeds.
pub fn rsh_help(_args: &Vec<String>) -> (r: Result<Status, ShellError>)
    ensures
        r == Ok::<Status, ShellError>(Status::Success),
{
    print_line(&"rush, a small Unix command interpreter.".to_owned());
    print_line(&"Type a command and its arguments, then press enter.".to_owned());
    Ok(Status::Success)
}

/// The built-in `exit`: tells the driving loop to stop; no other effect.
pub fn rsh_exit(_args: &Vec<String>) -> (r: Result<Status, ShellError>)
    ensures
        r == Ok::<Status, ShellError>(Status::Exit),
{
    Ok(Status::Exit)
}

/// The pieces of `s` between occurrences of `:`, from position `i` on; empty
/// pieces are kept, so there is always at least one piece.
pub open spec fn pieces_from(s: Seq<char>, i: int) -> Seq<Seq<char>>
    decreases s.len() - i,
    when 0 <= i <= s.len()
    via pieces_from_dec
{
    let j = char_index_from(s, ':', i);
    if j == s.len() {
        seq![s.subrange(i, j)]
    } else {
        seq![s.subrange(i, j)] + pieces_from(s, j + 1)
    }
}

#[via_fn]
proof fn pieces_from_dec(s: Seq<char>, i: int) {
    lemma_char_index_from(s, ':', i);
}

/// The colon-separated pieces of a whole string, as `PATH` is split.
pub open spec fn colon_split(s: Seq<char>) -> Seq<Seq<char>> {
    pieces_from(s, 0)
}

/// Splits a string at every `:`, keeping empty pieces.
pub fn split_colon(s: &str) -> (r: Vec<String>)
    ensures
        token_views(r@) == colon_split(s@),
{
    let n = s.unicode_len();
    let mut pieces: Vec<String> = Vec::new();
    let mut i: usize = 0;
    let mut fin = false;
    while !fin
        invariant
            n == s@.len(),
            0 <= i <= n,
            !fin ==> token_views(pieces@) + pieces_from(s@, i as int) == colon_split(s@),
            fin ==> token_views(pieces@) == colon_split(s@),
        decreases n - i + (if fin { 0int } else { 1int }),
    {
        let mut j: usize = i;
        while j < n && s.get_char(j) != ':'
            invariant
                n == s@.len(),
                i <= j <= n,
                forall|l: int| i <= l < j ==> s@[l] != ':',
            decreases n - j,
        {
            j = j + 1;
        }
        proof {
            crate::envmap::lemma_char_index_is(s@, ':', i as int, j as int);
        }
        let piece = s.substring_char(i, j).to_owned();
        pieces.push(piece);
        if j == n {
            proof {
                assert(token_views(pieces@) =~= token_views(pieces@.drop_last()) + pieces_from(
                    s@,
                    i as int,
                ));
            }
            fin = true;
        } else {
            proof {
                assert(token_views(pieces@) + pieces_from(s@, j + 1 as int) =~= token_views(
                    pieces@.drop_last(),
                ) + pieces_from(s@, i as int));
            }
            i = j + 1;
        }
    }
    pieces
}

/// The views of a list of listings.
pub open spec fn listing_views(ls: Seq<Vec<String>>) -> Seq<Seq<Seq<char>>> {
    Seq::new(ls.len(), |i: int| token_views(ls[i]@))
}

/// Adds one directory's entry names to the map: each name other than `.` and
/// `..` is bound to `dir/name`, overwriting any earlier binding.
pub open spec fn insert_listing(
    m: Map<Seq<char>, Seq<char>>,
    dir: Seq<char>,
    names: Seq<Seq<char>>,
) -> Map<Seq<char>, Seq<char>>
    decreases names.len(),
{
    if names.len() == 0 {
        m
    } else {
        let m2 = insert_listing(m, dir, names.drop_last());
        if names.last() == "."@ || names.last() == ".."@ {
            m2
        } else {
            m2.insert(names.last(), dir + "/"@ + names.last())
        }
    }
}

/// The name-to-path map a list of directories and their listings denotes:
/// directories are taken in order, so an entry in a later directory wins.
pub open spec fn collect_spec(
    dirs: Seq<Seq<char>>,
    listings: Seq<Seq<Seq<char>>>,
) -> Map<Seq<char>, Seq<char>>
    decreases dirs.len(),
{
    if dirs.len() == 0 {
        Map::empty()
    } else {
        insert_listing(
            collect_spec(dirs.drop_last(), listings.drop_last()),
            dirs.last(),
            listings.last(),
        )
    }
}

/// Builds the name-to-path map of the given directories and listings: every
/// listed name except `.` and `..` is bound to `dir/name`, a later directory
/// overwriting an earlier one on a name collision.
pub fn collect_files(dirs: &Vec<String>, listings: &Vec<Vec<String>>) -> (m: StrMap)
    requires
        dirs@.len() == listings@.len(),
    ensures
        m@ == collect_spec(token_views(dirs@), listing_views(listings@)),
{
    let ghost dv = token_views(dirs@);
    let ghost lv = listing_views(listings@);
    let mut m = StrMap::new();
    let mut i: usize = 0;
    while i < dirs.len()
        invariant
            dv == token_views(dirs@),
            lv == listing_views(listings@),
            dirs@.len() == listings@.len(),
            0 <= i <= dirs@.len(),
            m@ == collect_spec(dv.subrange(0, i as int), lv.subrange(0, i as int)),
        decreases dirs@.len() - i,
    {
        let dir = &dirs[i];
        let names = &listings[i];
        let ghost nv = token_views(names@);
        let mut j: usize = 0;
        while j < names.len()
            invariant
                dv == token_views(dirs@),
                lv == listing_views(listings@),
                dirs@.len() == listings@.len(),
                0 <= i < dirs@.len(),
                nv == token_views(listings@[i as int]@),
                nv == token_views(names@),
                dir@ == dv[i as int],
                0 <= j <= names@.len(),
                m@ == insert_listing(
                    collect_spec(dv.subrange(0, i as int), lv.subrange(0, i as int)),
                    dv[i as int],
                    nv.subrange(0, j as int),
                ),
            decreases names@.len() - j,
        {
            let name = &names[j];
            proof {
                assert(nv.subrange(0, j + 1 as int).drop_last() =~= nv.subrange(0, j as int));
                assert(nv.subrange(0, j + 1 as int).last() == name@);
            }
            if !(*name == ".".to_owned() || *name == "..".to_owned()) {
                let path = dir.clone().concat("/").concat(name.as_str());
                m.insert(name.clone(), path);
            }
            j = j + 1;
        }
        proof {
            assert(nv.subrange(0, names@.len() as int) =~= nv);
            assert(dv.subrange(0, i + 1 as int).drop_last() =~= dv.subrange(0, i as int));
            assert(lv.subrange(0, i + 1 as int).drop_last() =~= lv.subrange(0, i as int));
            assert(dv.subrange(0, i + 1 as int).last() == dv[i as int]);
            assert(lv.subrange(0, i + 1 as int).last() == nv);
        }
        i = i + 1;
    }
    proof {
        assert(dv.subrange(0, dirs@.len() as int) =~= dv);
        assert(lv.subrange(0, dirs@.len() as int) =~= lv);
    }
    m
}

/// Lists every given directory and builds the name-to-path map of their
/// entries.  The map is exactly `collect_spec` of whatever the directories
/// held at the moment they were read; a directory that cannot be listed is
/// reported with its path.
pub fn find_files_in(paths: &Vec<String>) -> (r: Result<StrMap, ShellError>)
    ensures
        r matches Err(e) ==> (e matches ShellError::DirectoryReadError(d, _) && (exists|i: int|
            0 <= i < paths@.len() && d@ == paths@[i]@)),
        r matches Ok(m) ==> (exists|ls: Seq<Seq<Seq<char>>>|
            ls.len() == paths@.len() && m@ == collect_spec(token_views(paths@), ls)),
{
    let mut listings: Vec<Vec<String>> = Vec::new();
    let mut i: usize = 0;
    while i < paths.len()
        invariant
            0 <= i <= paths@.len(),
            listings@.len() == i,
        decreases paths@.len() - i,
    {
        match sys_list_dir(&paths[i]) {
            Ok(names) => {
                listings.push(names);
            },
            Err(e) => {
                let ghost w = i as int;
                let bad = paths[i].clone();
                proof {
                    assert(bad@ == paths@[w]@);
                }
                return Err(ShellError::DirectoryReadError(bad, sys_error_text(&e)));
            },
        }
        i = i + 1;
    }
    let m = collect_files(paths, &listings);
    proof {
        let ls = listing_views(listings@);
        assert(ls.len() == paths@.len());
        assert(m@ == collect_spec(token_views(paths@), ls));
    }
    Ok(m)
}

/// The line `which` prints: the resolved path when the name was found, or
/// the not-found message.
pub fn which_message(name: &String, resolved: Option<&String>) -> (r: String)
    ensures
        match resolved {
            Some(p) => r@ == p@,
            None => r@ == "Command "@ + name@ + " not found."@,
        },
{
    match resolved {
        Some(p) => p.clone(),
        None => "Command ".to_owned().concat(name.as_str()).concat(" not found."),
    }
}

/// The built-in `which`: looks `PATH` up, splits it on `:`, lists each
/// directory, and prints where the requested name resolves — an entry in a
/// later directory wins — or the not-found message.
pub fn rsh_which(argv: &Vec<String>, env_map: &StrMap) -> (r: Result<Status, ShellError>)
    requires
        argv@.len() >= 2,
    ensures
        r matches Ok(s) ==> s == Status::Success,
        !env_map@.contains_key("PATH"@) ==> (r matches Err(e)
            && e matches ShellError::MissingEnvironmentVariable(v) && v@ == "PATH"@),
        r matches Err(ShellError::MissingEnvironmentVariable(_)) ==> !env_map@.contains_key(
            "PATH"@,
        ),
        r matches Err(e) ==> (e matches ShellError::MissingEnvironmentVariable(_)
            || e matches ShellError::DirectoryReadError(_, _)),
        r matches Err(e) ==> (e matches ShellError::DirectoryReadError(d, _) ==> (
        env_map@.contains_key("PATH"@) && (exists|i: int|
            0 <= i < colon_split(env_map@["PATH"@]).len() && d@ == colon_split(
                env_map@["PATH"@],
            )[i]))),
{
    let name = &argv[1];
    match env_map.get(&"PATH".to_owned()) {
        None => Err(ShellError::MissingEnvironmentVariable("PATH".to_owned())),
        Some(pathval) => {
            let dirs = split_colon(pathval.as_str());
            match find_files_in(&dirs) {
                Err(e) => {
                    proof {
                        match &e {
                            ShellError::DirectoryReadError(d, _) => {
                                let i0 = choose|i: int|
                                    0 <= i < dirs@.len() && d@ == dirs@[i]@;
                                assert(colon_split(env_map@["PATH"@]) == token_views(dirs@));
                                assert(colon_split(env_map@["PATH"@])[i0] == d@);
                            },
                            _ => {},
                        }
                    }
                    Err(e)
                },
                Ok(files) => {
                    let msg = which_message(name, files.get(name));
                    print_line(&msg);
                    Ok(Status::Success)
                },
            }
        },
    }
}

} // verus!
