//! Derived repository queries: the command that discovers the repository
//! root, and the derivation of the repository's leaf name from the
//! discovered path.

use vstd::prelude::*;

use crate::command::GitCommand;
use crate::tokens::long_entry_tokens;
use crate::tokens::long_tokens;
use crate::tokens::options_tokens;
use crate::tokens::value_or_empty;

verus! {

/// `s` with every trailing `/` removed.
pub open spec fn drop_trailing_slashes(s: Seq<char>) -> Seq<char>
    decreases s.len(),
{
    if s.len() > 0 && s.last() == '/' {
        drop_trailing_slashes(s.drop_last())
    } else {
        s
    }
}

/// The suffix of `s` after its last `/`, or all of `s` when it holds none.
pub open spec fn after_last_slash(s: Seq<char>) -> Seq<char>
    decreases s.len(),
{
    if s.len() == 0 {
        s
    } else if s.last() == '/' {
        Seq::empty()
    } else {
        after_last_slash(s.drop_last()).push(s.last())
    }
}

/// The last non-empty `/`-separated segment of a path, the empty sequence
/// when the path holds no such segment.
pub open spec fn last_nonempty_segment(s: Seq<char>) -> Seq<char> {
    after_last_slash(drop_trailing_slashes(s))
}

/// The command whose output locates the repository root:
/// `git rev-parse --show-toplevel`.
pub fn find_repo_path_command() -> (r: GitCommand)
    ensures
        r.tokens() == seq!["git"@, "rev-parse"@, "--show-toplevel"@],
        r.started(),
        r.repo() is None,
        !r.resolves_root(),
{
    let r = GitCommand::create(false).rev_parse().options().double(
        String::from_str("show-toplevel"),
        None,
        None,
    ).done();
    proof {
        reveal_strlit("--show-toplevel");
        reveal_strlit("show-toplevel");
        let entry = ("show-toplevel"@, Seq::<char>::empty(), false);
        let empty_longs = Seq::<(Seq<char>, Seq<char>, bool)>::empty();
        assert(empty_longs.push(entry) =~= seq![entry]);
        assert(seq![entry].drop_last() =~= empty_longs);
        assert(long_tokens(seq![entry]) == long_tokens(empty_longs) + long_entry_tokens(entry));
        assert(seq!['-', '-'] + "show-toplevel"@ =~= "--show-toplevel"@);
        assert(long_entry_tokens(entry) =~= seq!["--show-toplevel"@]);
        assert(options_tokens(Seq::<char>::empty(), seq![entry]) =~= seq!["--show-toplevel"@]);
        assert(seq!["git"@] + seq!["rev-parse"@] =~= seq!["git"@, "rev-parse"@]);
        assert(r.tokens() =~= seq!["git"@, "rev-parse"@, "--show-toplevel"@]);
    }
    r
}

/// The repository root path from the captured output of the discovery
/// command: the output as captured, or the empty string when the command
/// produced no usable result.
pub fn find_repo_path(captured: Option<String>) -> (r: String)
    ensures
        r@ == value_or_empty(captured),
{
    match captured {
        Some(s) => s,
        None => String::new(),
    }
}

/// The repository's leaf directory name: the last non-empty `/`-separated
/// segment of the discovered root path.  The path is taken as captured; no
/// trailing whitespace is trimmed.
pub fn find_repo_name(repo_path: &str) -> (r: String)
    ensures
        r@ == last_nonempty_segment(repo_path@),
{
    let n = repo_path.unicode_len();
    let mut e: usize = n;
    proof {
        assert(repo_path@.take(n as int) =~= repo_path@);
    }
    while e > 0 && repo_path.get_char(e - 1) == '/'
        invariant
            e <= n,
            n == repo_path@.len(),
            drop_trailing_slashes(repo_path@) == drop_trailing_slashes(repo_path@.take(e as int)),
        decreases e,
    {
        proof {
            assert(repo_path@.take(e as int).drop_last() =~= repo_path@.take(e - 1));
        }
        e = e - 1;
    }
    proof {
        if e > 0 {
            assert(repo_path@.take(e as int).last() == repo_path@[e - 1]);
        }
        assert(drop_trailing_slashes(repo_path@) == repo_path@.take(e as int));
    }
    let mut b: usize = e;
    proof {
        assert(after_last_slash(repo_path@.take(e as int)) + repo_path@.subrange(
            e as int,
            e as int,
        ) =~= after_last_slash(repo_path@.take(e as int)));
    }
    while b > 0 && repo_path.get_char(b - 1) != '/'
        invariant
            b <= e,
            e <= n,
            n == repo_path@.len(),
            after_last_slash(repo_path@.take(e as int)) == after_last_slash(
                repo_path@.take(b as int),
            ) + repo_path@.subrange(b as int, e as int),
        decreases b,
    {
        proof {
            assert(repo_path@.take(b as int).drop_last() =~= repo_path@.take(b - 1));
            assert(after_last_slash(repo_path@.take(b as int)) == after_last_slash(
                repo_path@.take(b - 1),
            ).push(repo_path@[b - 1]));
            assert(after_last_slash(repo_path@.take(b - 1)) + repo_path@.subrange(b - 1, e as int)
                =~= after_last_slash(repo_path@.take(b - 1)).push(repo_path@[b - 1])
                + repo_path@.subrange(b as int, e as int));
        }
        b = b - 1;
    }
    proof {
        if b > 0 {
            assert(repo_path@.take(b as int).last() == repo_path@[b - 1]);
        }
        assert(after_last_slash(repo_path@.take(b as int)) =~= Seq::<char>::empty());
        assert(after_last_slash(repo_path@.take(e as int)) =~= repo_path@.subrange(
            b as int,
            e as int,
        ));
    }
    let seg = repo_path.substring_char(b, e);
    String::from_str(seg)
}

} // verus!
