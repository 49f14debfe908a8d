//! The options sub-builder: local accumulation of single-dash characters
//! and long options, flushed into the owning command builder on completion.

use vstd::prelude::*;

use crate::command::GitCommand;
use crate::tokens::lemma_toks_push;
use crate::tokens::long_entry_tokens;
use crate::tokens::long_tokens;
use crate::tokens::options_tokens;
use crate::tokens::short_tokens;
use crate::tokens::toks;
use crate::tokens::value_or_empty;

verus! {

/// Short-lived accumulator for option flags.  Nothing is written into the
/// owning builder until `done` serializes the accumulated options; until
/// then all state is local.  Insertion order and duplicates are preserved.
pub struct GitOptions {
    parent: GitCommand,
    single_dash: String,
    double_dash: Vec<(String, String, bool)>,
}

impl GitOptions {
    /// The command builder this sub-chain will flush into.
    pub closed spec fn owner(&self) -> GitCommand {
        self.parent
    }

    /// The accumulated single-dash characters, in insertion order.
    pub closed spec fn singles(&self) -> Seq<char> {
        self.single_dash@
    }

    /// The accumulated long options `(name, value, use_equals)`, in
    /// insertion order.
    pub closed spec fn longs(&self) -> Seq<(Seq<char>, Seq<char>, bool)> {
        self.double_dash@.map_values(|e: (String, String, bool)| (e.0@, e.1@, e.2))
    }

    pub(crate) fn new(parent: GitCommand) -> (r: GitOptions)
        ensures
            r.owner() == parent,
            r.singles() == Seq::<char>::empty(),
            r.longs() == Seq::<(Seq<char>, Seq<char>, bool)>::empty(),
    {
        let r = GitOptions { parent, single_dash: String::new(), double_dash: Vec::new() };
        proof {
            assert(r.longs() =~= Seq::<(Seq<char>, Seq<char>, bool)>::empty());
        }
        r
    }

    /// Accumulates one single-dash character; order preserved, duplicates
    /// allowed.
    pub fn single(self, c: char) -> (r: GitOptions)
        ensures
            r.singles() == self.singles().push(c),
            r.longs() == self.longs(),
            r.owner() == self.owner(),
    {
        let GitOptions { parent, mut single_dash, double_dash } = self;
        single_dash.push(c);
        GitOptions { parent, single_dash, double_dash }
    }

    /// Accumulates one long option; an absent value is recorded as the
    /// empty string and an absent equals style as false.
    pub fn double(self, name: String, value: Option<String>, equals: Option<bool>) -> (r:
        GitOptions)
        ensures
            r.longs() == self.longs().push(
                (name@, value_or_empty(value), equals.unwrap_or(false)),
            ),
            r.singles() == self.singles(),
            r.owner() == self.owner(),
    {
        let GitOptions { parent, single_dash, mut double_dash } = self;
        let ghost before = double_dash@;
        let v = match value {
            Some(s) => s,
            None => String::new(),
        };
        let e = match equals {
            Some(b) => b,
            None => false,
        };
        double_dash.push((name, v, e));
        let r = GitOptions { parent, single_dash, double_dash };
        proof {
            assert(r.longs() =~= before.map_values(|x: (String, String, bool)| (x.0@, x.1@, x.2))
                .push((r.double_dash@.last().0@, r.double_dash@.last().1@, r.double_dash@.last().2)));
        }
        r
    }

    /// The serialized option tokens: the single-dash token, if any, then
    /// for each long option `--name` and, when the value is non-empty, the
    /// value token with an `=` prefix when the equals style was chosen.
    fn __options(&self) -> (r: Vec<String>)
        ensures
            toks(r@) == options_tokens(self.singles(), self.longs()),
    {
        proof {
            reveal_strlit("-");
            reveal_strlit("--");
            reveal_strlit("=");
            reveal_strlit("");
        }
        let mut ret: Vec<String> = Vec::new();
        if !self.single_dash.as_str().is_empty() {
            let t = String::from_str("-").concat(self.single_dash.as_str());
            let ghost before = ret@;
            ret.push(t);
            proof {
                lemma_toks_push(before, ret@.last());
                assert(ret@.last()@ =~= seq!['-'] + self.singles());
                assert(toks(ret@) =~= short_tokens(self.singles()));
            }
        }
        proof {
            assert(toks(ret@) =~= short_tokens(self.singles()) + long_tokens(
                self.longs().take(0),
            ));
        }
        let mut i: usize = 0;
        while i < self.double_dash.len()
            invariant
                i <= self.double_dash.len(),
                toks(ret@) == short_tokens(self.singles()) + long_tokens(
                    self.longs().take(i as int),
                ),
                "-"@ == seq!['-'],
                "--"@ == seq!['-', '-'],
                "="@ == seq!['='],
                ""@ == Seq::<char>::empty(),
            decreases self.double_dash.len() - i,
        {
            let ghost entry_view = self.longs()[i as int];
            let entry = &self.double_dash[i];
            let name_tok = String::from_str("--").concat(entry.0.as_str());
            let ghost before = ret@;
            ret.push(name_tok);
            proof {
                lemma_toks_push(before, ret@.last());
                assert(ret@.last()@ =~= seq!['-', '-'] + entry_view.0);
            }
            if !entry.1.as_str().is_empty() {
                let prefix: &str = if entry.2 {
                    "="
                } else {
                    ""
                };
                let val_tok = String::from_str(prefix).concat(entry.1.as_str());
                let ghost before2 = ret@;
                ret.push(val_tok);
                proof {
                    lemma_toks_push(before2, ret@.last());
                    assert(ret@.last()@ =~= (if entry_view.2 {
                        seq!['=']
                    } else {
                        Seq::<char>::empty()
                    }) + entry_view.1);
                }
            }
            proof {
                assert(self.longs().take(i + 1).drop_last() =~= self.longs().take(i as int));
                assert(self.longs().take(i + 1).last() == entry_view);
                assert(long_tokens(self.longs().take(i + 1)) == long_tokens(
                    self.longs().take(i as int),
                ) + long_entry_tokens(entry_view));
                assert(toks(ret@) =~= short_tokens(self.singles()) + long_tokens(
                    self.longs().take(i + 1),
                ));
            }
            i = i + 1;
        }
        proof {
            assert(self.longs().take(self.double_dash@.len() as int) =~= self.longs());
        }
        ret
    }

    /// Serializes the accumulated options and appends them to the owner's
    /// tokens, in order; the owner's other state is untouched.  This is the
    /// only point at which the accumulated options become visible.
    pub fn done(self) -> (r: GitCommand)
        ensures
            r.tokens() == self.owner().tokens() + options_tokens(self.singles(), self.longs()),
            r.started() == self.owner().started(),
            r.repo() == self.owner().repo(),
            r.resolves_root() == self.owner().resolves_root(),
    {
        let opts = self.__options();
        let GitOptions { mut parent, .. } = self;
        parent.extend_tokens(opts);
        parent
    }
}

impl GitCommand {
    /// Opens an options sub-chain bound to this builder; nothing is
    /// appended until the sub-chain's `done`.
    pub fn options(self) -> (r: GitOptions)
        ensures
            r.owner() == self,
            r.singles() == Seq::<char>::empty(),
            r.longs() == Seq::<(Seq<char>, Seq<char>, bool)>::empty(),
    {
        GitOptions::new(self)
    }
}

} // verus!
