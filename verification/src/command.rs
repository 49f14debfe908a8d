//! The command builder: an append-only accumulator of git command tokens.

use vstd::prelude::*;

use crate::sanitize::replace_placeholder;
use crate::sanitize::sanitized;
use crate::tokens::first_wins_append;
use crate::tokens::join_spaces;
use crate::tokens::lemma_toks_concat;
use crate::tokens::lemma_toks_push;
use crate::tokens::toks;

verus! {

/// Builder for one git invocation.  `tokens()` always begins with the
/// program name `git`; every method only appends tokens, never removes or
/// reorders them.  A main-command selector appends its tokens only while no
/// main command has been chosen (`started()` is false): the first main verb
/// wins.  The optional repository name is used purely as a substitution
/// value by the text-injection methods.
pub struct GitCommand {
    repo_name: Option<String>,
    find_root: bool,
    git_cmd: Vec<String>,
    git_cmd_started: bool,
}

impl GitCommand {
    /// The accumulated token sequence, program name first.
    pub closed spec fn tokens(&self) -> Seq<Seq<char>> {
        toks(self.git_cmd@)
    }

    /// Whether a main-command token has already been chosen.
    pub closed spec fn started(&self) -> bool {
        self.git_cmd_started
    }

    /// The repository name used for placeholder substitution, if resolved.
    pub closed spec fn repo(&self) -> Option<Seq<char>> {
        match self.repo_name {
            Option::Some(s) => Option::Some(s@),
            Option::None => Option::None,
        }
    }

    /// Whether the builder was created in resolve-root mode.
    pub closed spec fn resolves_root(&self) -> bool {
        self.find_root
    }

    /// Every builder starts with the program name and only appends.
    pub open spec fn wf(&self) -> bool {
        self.tokens().len() >= 1 && self.tokens()[0] == "git"@
    }

    /// A fresh builder: tokens `["git"]`, no main command chosen yet, no
    /// repository name.  In resolve-root mode the embedding program is
    /// expected to discover the repository name and hand it to
    /// `set_repo_name` before the text-injection methods are used.
    pub fn create(find_root: bool) -> (r: GitCommand)
        ensures
            r.tokens() == seq!["git"@],
            !r.started(),
            r.repo() is None,
            r.resolves_root() == find_root,
            r.wf(),
    {
        let mut git_cmd: Vec<String> = Vec::new();
        git_cmd.push(String::from_str("git"));
        let r = GitCommand { repo_name: None, find_root, git_cmd, git_cmd_started: false };
        proof {
            assert(r.tokens() =~= seq!["git"@]);
        }
        r
    }

    /// Stores the resolved repository name; tokens and command state are
    /// untouched.  Substitution from here on replaces the placeholder with
    /// `name`.
    pub fn set_repo_name(&mut self, name: String)
        ensures
            final(self).repo() == Option::Some(name@),
            final(self).tokens() == old(self).tokens(),
            final(self).started() == old(self).started(),
            final(self).resolves_root() == old(self).resolves_root(),
    {
        self.repo_name = Some(name);
    }

    /// Reinitializes the token list to `["git"]` and forgets the chosen main
    /// command; the resolved repository name is kept.
    pub fn _reset(&mut self)
        ensures
            final(self).tokens() == seq!["git"@],
            !final(self).started(),
            final(self).repo() == old(self).repo(),
            final(self).resolves_root() == old(self).resolves_root(),
    {
        let mut git_cmd: Vec<String> = Vec::new();
        git_cmd.push(String::from_str("git"));
        self.git_cmd = git_cmd;
        self.git_cmd_started = false;
        proof {
            assert(self.tokens() =~= seq!["git"@]);
        }
    }

    /// Appends one main-command token under the first-wins rule.
    fn push_main(self, tok: &str) -> (r: GitCommand)
        ensures
            r.tokens() == first_wins_append(self.tokens(), self.started(), seq![tok@]),
            r.started(),
            r.repo() == self.repo(),
            r.resolves_root() == self.resolves_root(),
    {
        let GitCommand { repo_name, find_root, mut git_cmd, git_cmd_started } = self;
        if !git_cmd_started {
            let ghost before = git_cmd@;
            git_cmd.push(String::from_str(tok));
            proof {
                lemma_toks_push(before, git_cmd@.last());
                assert(toks(before).push(tok@) =~= toks(before) + seq![tok@]);
            }
        }
        GitCommand { repo_name, find_root, git_cmd, git_cmd_started: true }
    }

    /// Appends two main-command tokens under the first-wins rule.
    fn push_main2(self, tok0: &str, tok1: &str) -> (r: GitCommand)
        ensures
            r.tokens() == first_wins_append(self.tokens(), self.started(), seq![tok0@, tok1@]),
            r.started(),
            r.repo() == self.repo(),
            r.resolves_root() == self.resolves_root(),
    {
        let GitCommand { repo_name, find_root, mut git_cmd, git_cmd_started } = self;
        if !git_cmd_started {
            let ghost before = git_cmd@;
            git_cmd.push(String::from_str(tok0));
            git_cmd.push(String::from_str(tok1));
            proof {
                lemma_toks_push(before, git_cmd@[before.len() as int]);
                lemma_toks_push(before.push(git_cmd@[before.len() as int]), git_cmd@.last());
                assert(toks(before).push(tok0@).push(tok1@) =~= toks(before) + seq![tok0@, tok1@]);
            }
        }
        GitCommand { repo_name, find_root, git_cmd, git_cmd_started: true }
    }

    /// Appends one modifier token unconditionally; the first-wins state is
    /// untouched.
    fn push_always(self, tok: &str) -> (r: GitCommand)
        ensures
            r.tokens() == self.tokens().push(tok@),
            r.started() == self.started(),
            r.repo() == self.repo(),
            r.resolves_root() == self.resolves_root(),
    {
        let GitCommand { repo_name, find_root, mut git_cmd, git_cmd_started } = self;
        let ghost before = git_cmd@;
        git_cmd.push(String::from_str(tok));
        proof {
            lemma_toks_push(before, git_cmd@.last());
        }
        GitCommand { repo_name, find_root, git_cmd, git_cmd_started }
    }

    /// Sanitizes a caller-supplied string and appends it as a single token.
    fn push_text(self, arg: &str) -> (r: GitCommand)
        ensures
            r.tokens() == self.tokens().push(sanitized(self.repo(), arg@)),
            r.started() == self.started(),
            r.repo() == self.repo(),
            r.resolves_root() == self.resolves_root(),
    {
        let t = self.sanitize(String::from_str(arg));
        let GitCommand { repo_name, find_root, mut git_cmd, git_cmd_started } = self;
        let ghost before = git_cmd@;
        git_cmd.push(t);
        proof {
            lemma_toks_push(before, git_cmd@.last());
        }
        GitCommand { repo_name, find_root, git_cmd, git_cmd_started }
    }

    /// Replaces every occurrence of the repository-name placeholder when a
    /// repository name has been resolved; returns the input unchanged
    /// otherwise.
    fn sanitize(&self, a: String) -> (r: String)
        ensures
            r@ == sanitized(self.repo(), a@),
    {
        match &self.repo_name {
            Some(name) => replace_placeholder(a.as_str(), name.as_str()),
            None => a,
        }
    }

    /// Appends already-serialized tokens to the accumulated command.
    pub(crate) fn extend_tokens(&mut self, mut extra: Vec<String>)
        ensures
            final(self).tokens() == old(self).tokens() + toks(extra@),
            final(self).started() == old(self).started(),
            final(self).repo() == old(self).repo(),
            final(self).resolves_root() == old(self).resolves_root(),
    {
        let ghost before = self.git_cmd@;
        let ghost added = extra@;
        self.git_cmd.append(&mut extra);
        proof {
            lemma_toks_concat(before, added);
        }
    }

    /// The accumulated tokens as a fresh vector, program name included.
    pub fn command_list(&self) -> (r: Vec<String>)
        ensures
            toks(r@) == self.tokens(),
    {
        let mut r: Vec<String> = Vec::new();
        let mut i: usize = 0;
        while i < self.git_cmd.len()
            invariant
                i <= self.git_cmd.len(),
                toks(r@) == self.tokens().take(i as int),
            decreases self.git_cmd.len() - i,
        {
            let ghost before = r@;
            r.push(self.git_cmd[i].clone());
            proof {
                lemma_toks_push(before, r@.last());
                assert(toks(before).push(self.git_cmd@[i as int]@) =~= self.tokens().take(
                    i + 1,
                ));
            }
            i = i + 1;
        }
        proof {
            assert(self.tokens().take(self.git_cmd@.len() as int) =~= self.tokens());
        }
        r
    }

    /// The human-readable command line: all tokens joined with single
    /// spaces, exactly reproducing the shell-invocable string.
    pub fn describe(&self) -> (r: String)
        ensures
            r@ == join_spaces(self.tokens()),
    {
        proof {
            reveal_strlit(" ");
        }
        let mut out = String::new();
        let mut i: usize = 0;
        let n = self.git_cmd.len();
        while i < n
            invariant
                i <= n,
                n == self.git_cmd.len(),
                out@ == join_spaces(self.tokens().take(i as int)),
                " "@ == seq![' '],
            decreases n - i,
        {
            if i > 0 {
                out.append(" ");
            }
            out.append(self.git_cmd[i].as_str());
            proof {
                lemma_join_take_succ(self.tokens(), i as int);
            }
            i = i + 1;
        }
        proof {
            assert(self.tokens().take(n as int) =~= self.tokens());
        }
        out
    }

    // Main-command selectors: each appends its fixed token(s) only when no
    // main command has been chosen yet, then marks the main command chosen.
    pub fn status(self) -> (r: GitCommand)
        ensures
            r.tokens() == first_wins_append(self.tokens(), self.started(), seq!["status"@]),
            r.started(),
            r.repo() == self.repo(),
            r.resolves_root() == self.resolves_root(),
    {
        self.push_main("status")
    }

    pub fn reset(self) -> (r: GitCommand)
        ensures
            r.tokens() == first_wins_append(self.tokens(), self.started(), seq!["reset"@]),
            r.started(),
            r.repo() == self.repo(),
            r.resolves_root() == self.resolves_root(),
    {
        self.push_main("reset")
    }

    pub fn add(self) -> (r: GitCommand)
        ensures
            r.tokens() == first_wins_append(self.tokens(), self.started(), seq!["add"@]),
            r.started(),
            r.repo() == self.repo(),
            r.resolves_root() == self.resolves_root(),
    {
        self.push_main("add")
    }

    pub fn rev_parse(self) -> (r: GitCommand)
        ensures
            r.tokens() == first_wins_append(self.tokens(), self.started(), seq!["rev-parse"@]),
            r.started(),
            r.repo() == self.repo(),
            r.resolves_root() == self.resolves_root(),
    {
        self.push_main("rev-parse")
    }

    pub fn init(self) -> (r: GitCommand)
        ensures
            r.tokens() == first_wins_append(self.tokens(), self.started(), seq!["init"@]),
            r.started(),
            r.repo() == self.repo(),
            r.resolves_root() == self.resolves_root(),
    {
        self.push_main("init")
    }

    pub fn log(self) -> (r: GitCommand)
        ensures
            r.tokens() == first_wins_append(self.tokens(), self.started(), seq!["log"@]),
            r.started(),
            r.repo() == self.repo(),
            r.resolves_root() == self.resolves_root(),
    {
        self.push_main("log")
    }

    pub fn checkout(self) -> (r: GitCommand)
        ensures
            r.tokens() == first_wins_append(self.tokens(), self.started(), seq!["checkout"@]),
            r.started(),
            r.repo() == self.repo(),
            r.resolves_root() == self.resolves_root(),
    {
        self.push_main("checkout")
    }

    pub fn branch(self) -> (r: GitCommand)
        ensures
            r.tokens() == first_wins_append(self.tokens(), self.started(), seq!["branch"@]),
            r.started(),
            r.repo() == self.repo(),
            r.resolves_root() == self.resolves_root(),
    {
        self.push_main("branch")
    }

    pub fn clone(self) -> (r: GitCommand)
        ensures
            r.tokens() == first_wins_append(self.tokens(), self.started(), seq!["clone"@]),
            r.started(),
            r.repo() == self.repo(),
            r.resolves_root() == self.resolves_root(),
    {
        self.push_main("clone")
    }

    pub fn commit(self) -> (r: GitCommand)
        ensures
            r.tokens() == first_wins_append(self.tokens(), self.started(), seq!["commit"@]),
            r.started(),
            r.repo() == self.repo(),
            r.resolves_root() == self.resolves_root(),
    {
        self.push_main("commit")
    }

    pub fn config(self) -> (r: GitCommand)
        ensures
            r.tokens() == first_wins_append(self.tokens(), self.started(), seq!["config"@]),
            r.started(),
            r.repo() == self.repo(),
            r.resolves_root() == self.resolves_root(),
    {
        self.push_main("config")
    }

    pub fn submodule(self) -> (r: GitCommand)
        ensures
            r.tokens() == first_wins_append(self.tokens(), self.started(), seq!["submodule"@]),
            r.started(),
            r.repo() == self.repo(),
            r.resolves_root() == self.resolves_root(),
    {
        self.push_main("submodule")
    }

    pub fn fetch(self) -> (r: GitCommand)
        ensures
            r.tokens() == first_wins_append(self.tokens(), self.started(), seq!["fetch"@]),
            r.started(),
            r.repo() == self.repo(),
            r.resolves_root() == self.resolves_root(),
    {
        self.push_main("fetch")
    }

    pub fn merge(self) -> (r: GitCommand)
        ensures
            r.tokens() == first_wins_append(self.tokens(), self.started(), seq!["merge"@]),
            r.started(),
            r.repo() == self.repo(),
            r.resolves_root() == self.resolves_root(),
    {
        self.push_main("merge")
    }

    pub fn mv(self) -> (r: GitCommand)
        ensures
            r.tokens() == first_wins_append(self.tokens(), self.started(), seq!["mv"@]),
            r.started(),
            r.repo() == self.repo(),
            r.resolves_root() == self.resolves_root(),
    {
        self.push_main("mv")
    }

    pub fn pull(self) -> (r: GitCommand)
        ensures
            r.tokens() == first_wins_append(self.tokens(), self.started(), seq!["pull"@]),
            r.started(),
            r.repo() == self.repo(),
            r.resolves_root() == self.resolves_root(),
    {
        self.push_main("pull")
    }

    pub fn pull_origin(self) -> (r: GitCommand)
        ensures
            r.tokens() == first_wins_append(
                self.tokens(),
                self.started(),
                seq!["pull"@, "origin"@],
            ),
            r.started(),
            r.repo() == self.repo(),
            r.resolves_root() == self.resolves_root(),
    {
        self.push_main2("pull", "origin")
    }

    pub fn push_origin(self) -> (r: GitCommand)
        ensures
            r.tokens() == first_wins_append(
                self.tokens(),
                self.started(),
                seq!["push"@, "origin"@],
            ),
            r.started(),
            r.repo() == self.repo(),
            r.resolves_root() == self.resolves_root(),
    {
        self.push_main2("push", "origin")
    }

    pub fn rebase(self) -> (r: GitCommand)
        ensures
            r.tokens() == first_wins_append(self.tokens(), self.started(), seq!["rebase"@]),
            r.started(),
            r.repo() == self.repo(),
            r.resolves_root() == self.resolves_root(),
    {
        self.push_main("rebase")
    }

    pub fn remote(self) -> (r: GitCommand)
        ensures
            r.tokens() == first_wins_append(self.tokens(), self.started(), seq!["remote"@]),
            r.started(),
            r.repo() == self.repo(),
            r.resolves_root() == self.resolves_root(),
    {
        self.push_main("remote")
    }

    pub fn rm(self) -> (r: GitCommand)
        ensures
            r.tokens() == first_wins_append(self.tokens(), self.started(), seq!["rm"@]),
            r.started(),
            r.repo() == self.repo(),
            r.resolves_root() == self.resolves_root(),
    {
        self.push_main("rm")
    }

    pub fn restore(self) -> (r: GitCommand)
        ensures
            r.tokens() == first_wins_append(self.tokens(), self.started(), seq!["restore"@]),
            r.started(),
            r.repo() == self.repo(),
            r.resolves_root() == self.resolves_root(),
    {
        self.push_main("restore")
    }

    pub fn show(self) -> (r: GitCommand)
        ensures
            r.tokens() == first_wins_append(self.tokens(), self.started(), seq!["show"@]),
            r.started(),
            r.repo() == self.repo(),
            r.resolves_root() == self.resolves_root(),
    {
        self.push_main("show")
    }

    pub fn switch(self) -> (r: GitCommand)
        ensures
            r.tokens() == first_wins_append(self.tokens(), self.started(), seq!["switch"@]),
            r.started(),
            r.repo() == self.repo(),
            r.resolves_root() == self.resolves_root(),
    {
        self.push_main("switch")
    }

    pub fn tag(self) -> (r: GitCommand)
        ensures
            r.tokens() == first_wins_append(self.tokens(), self.started(), seq!["tag"@]),
            r.started(),
            r.repo() == self.repo(),
            r.resolves_root() == self.resolves_root(),
    {
        self.push_main("tag")
    }

    pub fn worktree(self) -> (r: GitCommand)
        ensures
            r.tokens() == first_wins_append(self.tokens(), self.started(), seq!["worktree"@]),
            r.started(),
            r.repo() == self.repo(),
            r.resolves_root() == self.resolves_root(),
    {
        self.push_main("worktree")
    }

    // Always-append modifiers: appended unconditionally, the first-wins
    // state untouched.
    pub fn master(self) -> (r: GitCommand)
        ensures
            r.tokens() == self.tokens().push("master"@),
            r.started() == self.started(),
            r.repo() == self.repo(),
            r.resolves_root() == self.resolves_root(),
    {
        self.push_always("master")
    }

    pub fn upstream(self) -> (r: GitCommand)
        ensures
            r.tokens() == self.tokens().push("upstream"@),
            r.started() == self.started(),
            r.repo() == self.repo(),
            r.resolves_root() == self.resolves_root(),
    {
        self.push_always("upstream")
    }

    // Text injection: the argument is sanitized and appended as one token.
    pub fn branch_name(self, arg: &str) -> (r: GitCommand)
        ensures
            r.tokens() == self.tokens().push(sanitized(self.repo(), arg@)),
            r.started() == self.started(),
            r.repo() == self.repo(),
            r.resolves_root() == self.resolves_root(),
    {
        self.push_text(arg)
    }

    pub fn url(self, arg: &str) -> (r: GitCommand)
        ensures
            r.tokens() == self.tokens().push(sanitized(self.repo(), arg@)),
            r.started() == self.started(),
            r.repo() == self.repo(),
            r.resolves_root() == self.resolves_root(),
    {
        self.push_text(arg)
    }

    pub fn text(self, arg: &str) -> (r: GitCommand)
        ensures
            r.tokens() == self.tokens().push(sanitized(self.repo(), arg@)),
            r.started() == self.started(),
            r.repo() == self.repo(),
            r.resolves_root() == self.resolves_root(),
    {
        self.push_text(arg)
    }
}

/// One step of the joined display form: appending the next token appends a
/// separating space (except before the first token) and the token itself.
proof fn lemma_join_take_succ(ts: Seq<Seq<char>>, i: int)
    requires
        0 <= i < ts.len(),
    ensures
        i == 0 ==> join_spaces(ts.take(i + 1)) == ts[0],
        i > 0 ==> join_spaces(ts.take(i + 1)) == join_spaces(ts.take(i)) + seq![' '] + ts[i],
{
    let t1 = ts.take(i + 1);
    if i == 0 {
        assert(t1.len() == 1);
        assert(t1[0] == ts[0]);
    } else {
        assert(t1.drop_last() =~= ts.take(i));
        assert(t1.last() == ts[i]);
    }
}

} // verus!
