//! The environment: a name-to-value map built once per execution from raw
//! `KEY=VALUE` strings.

use vstd::prelude::*;
use vstd::string::StrSliceExecFns;
use crate::errors::ShellError;
use crate::parse::token_views;

verus! {

/// One name/value binding of a [`StrMap`].
#[derive(Debug, Clone, PartialEq, Eq)]
pub struct Binding {
    pub key: String,
    pub value: String,
}

/// The mapping a sequence of bindings denotes: bindings are taken in order,
/// so a later binding for a key overwrites an earlier one.
pub open spec fn map_of(entries: Seq<Binding>) -> Map<Seq<char>, Seq<char>>
    decreases entries.len(),
{
    if entries.len() == 0 {
        Map::empty()
    } else {
        map_of(entries.drop_last()).insert(entries.last().key@, entries.last().value@)
    }
}

/// A name-to-value map with last-insertion-wins semantics, viewed as a
/// mathematical map from key characters to value characters.
#[derive(Debug, Clone, PartialEq, Eq)]
pub struct StrMap {
    entries: Vec<Binding>,
}

impl View for StrMap {
    type V = Map<Seq<char>, Seq<char>>;

    closed spec fn view(&self) -> Map<Seq<char>, Seq<char>> {
        map_of(self.entries@)
    }
}

impl StrMap {
    /// An empty map.
    pub fn new() -> (r: StrMap)
        ensures
            r@ == Map::<Seq<char>, Seq<char>>::empty(),
    {
        StrMap { entries: Vec::new() }
    }

    /// Adds a binding; a key bound before is rebound to the new value.
    pub fn insert(&mut self, key: String, value: String)
        ensures
            final(self)@ == old(self)@.insert(key@, value@),
    {
        let ghost k = key@;
        let ghost v = value@;
        self.entries.push(Binding { key, value });
        proof {
            assert(self.entries@.drop_last() =~= old(self).entries@);
            assert(self.entries@.last().key@ == k);
            assert(self.entries@.last().value@ == v);
        }
    }

    /// Looks a key up among the first `n` bindings, preferring later ones.
    fn lookup<'a>(entries: &'a Vec<Binding>, n: usize, key: &String) -> (r: Option<&'a String>)
        requires
            n <= entries@.len(),
        ensures
            ({
                let m = map_of(entries@.subrange(0, n as int));
                match r {
                    Some(v) => m.contains_key(key@) && v@ == m[key@],
                    None => !m.contains_key(key@),
                }
            }),
        decreases n,
    {
        if n == 0 {
            proof {
                assert(entries@.subrange(0, 0) =~= Seq::<Binding>::empty());
            }
            None
        } else {
            proof {
                assert(entries@.subrange(0, n as int).drop_last() =~= entries@.subrange(
                    0,
                    n - 1 as int,
                ));
                assert(entries@.subrange(0, n as int).last() == entries@[n - 1 as int]);
            }
            let e = &entries[n - 1];
            if e.key == *key {
                Some(&e.value)
            } else {
                Self::lookup(entries, n - 1, key)
            }
        }
    }

    /// The value bound to `key`, or `None` if the map does not hold the key.
    pub fn get(&self, key: &String) -> (r: Option<&String>)
        ensures
            match r {
                Some(v) => self@.contains_key(key@) && v@ == self@[key@],
                None => !self@.contains_key(key@),
            },
    {
        proof {
            assert(self.entries@.subrange(0, self.entries@.len() as int) =~= self.entries@);
        }
        Self::lookup(&self.entries, self.entries.len(), key)
    }
}

/// The first index at or after `i` holding the character `c`, or the length
/// of `s` if there is none.
pub open spec fn char_index_from(s: Seq<char>, c: char, i: int) -> int
    decreases s.len() - i,
{
    if i < 0 || i >= s.len() {
        s.len() as int
    } else if s[i] == c {
        i
    } else {
        char_index_from(s, c, i + 1)
    }
}

/// `char_index_from` lands on the first occurrence of `c` at or after `i`.
pub proof fn lemma_char_index_from(s: Seq<char>, c: char, i: int)
    requires
        0 <= i <= s.len(),
    ensures
        i <= char_index_from(s, c, i) <= s.len(),
        char_index_from(s, c, i) < s.len() ==> s[char_index_from(s, c, i)] == c,
        forall|j: int| i <= j < char_index_from(s, c, i) ==> s[j] != c,
    decreases s.len() - i,
{
    if i < s.len() && s[i] != c {
        lemma_char_index_from(s, c, i + 1);
    }
}

/// If no character of `[i, k)` is `c` and `k` is the length of `s` or an
/// occurrence of `c`, then `k` is exactly `char_index_from(s, c, i)`.
pub proof fn lemma_char_index_is(s: Seq<char>, c: char, i: int, k: int)
    requires
        0 <= i <= k <= s.len(),
        forall|j: int| i <= j < k ==> s[j] != c,
        k < s.len() ==> s[k] == c,
    ensures
        char_index_from(s, c, i) == k,
    decreases k - i,
{
    if i < k {
        lemma_char_index_is(s, c, i + 1, k);
    }
}

/// The first occurrence of `c` in `s`, or the length of `s` if there is none.
pub fn find_char(s: &str, c: char) -> (k: usize)
    ensures
        k == char_index_from(s@, c, 0),
{
    let n = s.unicode_len();
    let mut i: usize = 0;
    while i < n && s.get_char(i) != c
        invariant
            n == s@.len(),
            0 <= i <= n,
            forall|j: int| 0 <= j < i ==> s@[j] != c,
        decreases n - i,
    {
        i = i + 1;
    }
    proof {
        lemma_char_index_is(s@, c, 0, i as int);
    }
    i
}

/// Where an environment entry splits: the index of its first `=`, or its
/// length if it has none.
pub open spec fn entry_eq_index(s: Seq<char>) -> int {
    char_index_from(s, '=', 0)
}

/// A raw environment entry is valid when it holds an `=` and the key before
/// that `=` is non-empty.
pub open spec fn valid_env_entry(s: Seq<char>) -> bool {
    1 <= entry_eq_index(s) < s.len()
}

/// The key of a raw environment entry: everything before its first `=`.
pub open spec fn entry_key(s: Seq<char>) -> Seq<char> {
    s.subrange(0, entry_eq_index(s))
}

/// The value of a raw environment entry: everything after its first `=`.
pub open spec fn entry_value(s: Seq<char>) -> Seq<char> {
    s.subrange(entry_eq_index(s) + 1, s.len() as int)
}

/// The mapping a list of raw entries denotes; a later entry for a key wins.
pub open spec fn env_map_of(vars: Seq<Seq<char>>) -> Map<Seq<char>, Seq<char>>
    decreases vars.len(),
{
    if vars.len() == 0 {
        Map::empty()
    } else {
        env_map_of(vars.drop_last()).insert(entry_key(vars.last()), entry_value(vars.last()))
    }
}

/// Whether every raw entry of the list is valid.
pub open spec fn all_valid_env(vars: Seq<Seq<char>>) -> bool {
    forall|i: int| 0 <= i < vars.len() ==> valid_env_entry(vars[i])
}

/// Builds the environment map from raw `KEY=VALUE` strings.  Each string is
/// split on its first `=`; a string without `=` or with an empty key is
/// rejected with a `ParseError` carrying that string; a later entry for a
/// key overwrites an earlier one.
pub fn obtain_env_val_map(env_vars: &Vec<String>) -> (r: Result<StrMap, ShellError>)
    ensures
        ({
            let vs = token_views(env_vars@);
            match r {
                Ok(m) => all_valid_env(vs) && m@ == env_map_of(vs),
                Err(e) => {
                    &&& !all_valid_env(vs)
                    &&& (e matches ShellError::ParseError(s) && (exists|i: int|
                        0 <= i < vs.len() && !valid_env_entry(vs[i]) && s@ == vs[i] && (forall|
                            j: int,
                        | 0 <= j < i ==> valid_env_entry(vs[j]))))
                },
            }
        }),
{
    let ghost vs = token_views(env_vars@);
    let mut m = StrMap::new();
    let mut i: usize = 0;
    while i < env_vars.len()
        invariant
            vs == token_views(env_vars@),
            0 <= i <= env_vars@.len(),
            forall|j: int| 0 <= j < i ==> valid_env_entry(vs[j]),
            m@ == env_map_of(vs.subrange(0, i as int)),
        decreases env_vars@.len() - i,
    {
        let s: &String = &env_vars[i];
        let n = s.as_str().unicode_len();
        let k = find_char(s.as_str(), '=');
        proof {
            lemma_char_index_from(s@, '=', 0);
            assert(vs[i as int] == s@);
        }
        if k == 0 || k == n {
            proof {
                assert(!valid_env_entry(vs[i as int]));
            }
            return Err(ShellError::ParseError(s.clone()));
        }
        let key = s.as_str().substring_char(0, k).to_owned();
        let value = s.as_str().substring_char(k + 1, n).to_owned();
        m.insert(key, value);
        proof {
            assert(vs.subrange(0, i + 1 as int).drop_last() =~= vs.subrange(0, i as int));
            assert(vs.subrange(0, i + 1 as int).last() == vs[i as int]);
            assert(key@ == entry_key(vs[i as int]));
            assert(value@ == entry_value(vs[i as int]));
        }
        i = i + 1;
    }
    proof {
        assert(vs.subrange(0, vs.len() as int) =~= vs);
    }
    Ok(m)
}

} // verus!
