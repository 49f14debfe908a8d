//! The mathematical model of a command line: a sequence of tokens, each a
//! sequence of characters, together with the serialization rules for option
//! flags and for the joined display form.

use vstd::prelude::*;

verus! {

/// The token sequence denoted by a vector of strings.
pub open spec fn toks(v: Seq<String>) -> Seq<Seq<char>> {
    v.map_values(|s: String| s@)
}

pub proof fn lemma_toks_push(v: Seq<String>, s: String)
    ensures
        toks(v.push(s)) == toks(v).push(s@),
{
    assert(toks(v.push(s)) =~= toks(v).push(s@));
}

pub proof fn lemma_toks_concat(a: Seq<String>, b: Seq<String>)
    ensures
        toks(a + b) == toks(a) + toks(b),
{
    assert(toks(a + b) =~= toks(a) + toks(b));
}

/// Tokens joined with single spaces: the shell-invocable command line.
pub open spec fn join_spaces(ts: Seq<Seq<char>>) -> Seq<char>
    decreases ts.len(),
{
    if ts.len() == 0 {
        Seq::empty()
    } else if ts.len() == 1 {
        ts[0]
    } else {
        join_spaces(ts.drop_last()) + seq![' '] + ts.last()
    }
}

/// How a main-command selector extends the token list: it appends its fixed
/// tokens only when no main command has been chosen yet.
pub open spec fn first_wins_append(
    t: Seq<Seq<char>>,
    started: bool,
    fixed: Seq<Seq<char>>,
) -> Seq<Seq<char>> {
    if started {
        t
    } else {
        t + fixed
    }
}

/// The characters of an optional string, the empty sequence when absent.
pub open spec fn value_or_empty(v: Option<String>) -> Seq<char> {
    match v {
        Option::Some(s) => s@,
        Option::None => Seq::empty(),
    }
}

/// The tokens serialized for one accumulated long option
/// `(name, value, use_equals)`: `--name`, then, when the value is non-empty,
/// the value alone, prefixed with `=` when `use_equals` is set.
pub open spec fn long_entry_tokens(e: (Seq<char>, Seq<char>, bool)) -> Seq<Seq<char>> {
    let name_tok = seq!['-', '-'] + e.0;
    if e.1.len() == 0 {
        seq![name_tok]
    } else {
        seq![name_tok, (if e.2 { seq!['='] } else { Seq::<char>::empty() }) + e.1]
    }
}

/// The tokens serialized for the accumulated long options, in insertion order.
pub open spec fn long_tokens(ds: Seq<(Seq<char>, Seq<char>, bool)>) -> Seq<Seq<char>>
    decreases ds.len(),
{
    if ds.len() == 0 {
        Seq::empty()
    } else {
        long_tokens(ds.drop_last()) + long_entry_tokens(ds.last())
    }
}

/// The token serialized for the accumulated single-dash characters: one
/// `-abc` token, or nothing when no character was accumulated.
pub open spec fn short_tokens(singles: Seq<char>) -> Seq<Seq<char>> {
    if singles.len() == 0 {
        Seq::empty()
    } else {
        seq![seq!['-'] + singles]
    }
}

/// Everything an options sub-chain appends on completion: the single-dash
/// token, if any, followed by the long-option tokens.
pub open spec fn options_tokens(
    singles: Seq<char>,
    ds: Seq<(Seq<char>, Seq<char>, bool)>,
) -> Seq<Seq<char>> {
    short_tokens(singles) + long_tokens(ds)
}

} // verus!
