//! Placeholder substitution: replacing every occurrence of
//! `%%repo_name%%` in caller-supplied text with the resolved repository
//! name.

use vstd::prelude::*;

verus! {

/// The literal placeholder recognized in caller-supplied text.
pub open spec fn placeholder() -> Seq<char> {
    "%%repo_name%%"@
}

/// `s` with every occurrence of `pat` replaced by `rep`, scanning left to
/// right without overlap (the semantics of `str::replace`).
pub open spec fn replace_all(s: Seq<char>, pat: Seq<char>, rep: Seq<char>) -> Seq<char>
    decreases s.len(),
{
    if s.len() == 0 {
        s
    } else if 0 < pat.len() <= s.len() && s.take(pat.len() as int) == pat {
        rep + replace_all(s.skip(pat.len() as int), pat, rep)
    } else {
        seq![s[0]] + replace_all(s.skip(1), pat, rep)
    }
}

/// What a text-injection method appends: the argument with the placeholder
/// substituted when a repository name is held, the argument unchanged
/// otherwise.
pub open spec fn sanitized(repo: Option<Seq<char>>, s: Seq<char>) -> Seq<char> {
    match repo {
        Option::Some(n) => replace_all(s, placeholder(), n),
        Option::None => s,
    }
}

/// Relies on alloc's String::push: appends the one character at the end of
/// the string.
pub assume_specification[ String::push ](s: &mut String, c: char)
    ensures
        final(s)@ == old(s)@.push(c),
;

/// Whether the placeholder occurs in `s` starting at character position `i`.
fn placeholder_at(s: &str, i: usize, n: usize) -> (b: bool)
    requires
        n == s@.len(),
        i <= n,
    ensures
        b == (i + placeholder().len() <= s@.len() && s@.subrange(
            i as int,
            i + placeholder().len(),
        ) == placeholder()),
{
    proof {
        reveal_strlit("%%repo_name%%");
    }
    let pat = "%%repo_name%%";
    if n - i < 13 {
        return false;
    }
    let mut j: usize = 0;
    while j < 13
        invariant
            j <= 13,
            i + 13 <= n,
            n == s@.len(),
            pat@ == placeholder(),
            placeholder().len() == 13,
            forall|k: int| 0 <= k < j ==> s@[i + k] == placeholder()[k],
        decreases 13 - j,
    {
        if s.get_char(i + j) != pat.get_char(j) {
            proof {
                let sub = s@.subrange(i as int, i + 13);
                assert(sub[j as int] == s@[i + j]);
            }
            return false;
        }
        j = j + 1;
    }
    proof {
        assert(s@.subrange(i as int, i + 13) =~= placeholder());
    }
    true
}

/// `s` with every occurrence of the placeholder replaced by `rep`.
pub(crate) fn replace_placeholder(s: &str, rep: &str) -> (r: String)
    ensures
        r@ == replace_all(s@, placeholder(), rep@),
{
    proof {
        reveal_strlit("%%repo_name%%");
    }
    let n = s.unicode_len();
    let mut out = String::new();
    let mut i: usize = 0;
    proof {
        assert(s@.skip(0) =~= s@);
        assert(Seq::<char>::empty() + replace_all(s@, placeholder(), rep@) =~= replace_all(
            s@,
            placeholder(),
            rep@,
        ));
    }
    while i < n
        invariant
            i <= n,
            n == s@.len(),
            placeholder().len() == 13,
            replace_all(s@, placeholder(), rep@) == out@ + replace_all(
                s@.skip(i as int),
                placeholder(),
                rep@,
            ),
        decreases n - i,
    {
        let ghost rest = s@.skip(i as int);
        let ghost out_before = out@;
        if placeholder_at(s, i, n) {
            out.append(rep);
            proof {
                assert(rest.take(13) =~= s@.subrange(i as int, i + 13));
                assert(rest.skip(13) =~= s@.skip(i + 13));
                assert(replace_all(rest, placeholder(), rep@) == rep@ + replace_all(
                    rest.skip(13),
                    placeholder(),
                    rep@,
                ));
                assert((out_before + rep@) + replace_all(s@.skip(i + 13), placeholder(), rep@)
                    =~= out_before + (rep@ + replace_all(s@.skip(i + 13), placeholder(), rep@)));
            }
            i = i + 13;
        } else {
            let c = s.get_char(i);
            out.push(c);
            proof {
                if i + 13 <= n {
                    assert(rest.take(13) =~= s@.subrange(i as int, i + 13));
                }
                assert(rest[0] == s@[i as int]);
                assert(rest.skip(1) =~= s@.skip(i + 1));
                assert(replace_all(rest, placeholder(), rep@) == seq![s@[i as int]]
                    + replace_all(rest.skip(1), placeholder(), rep@));
                assert(out@ =~= out_before + seq![s@[i as int]]);
                assert((out_before + seq![s@[i as int]]) + replace_all(
                    s@.skip(i + 1),
                    placeholder(),
                    rep@,
                ) =~= out_before + (seq![s@[i as int]] + replace_all(
                    s@.skip(i + 1),
                    placeholder(),
                    rep@,
                )));
            }
            i = i + 1;
        }
    }
    proof {
        assert(s@.skip(n as int) =~= Seq::<char>::empty());
        assert(out@ + Seq::<char>::empty() =~= out@);
    }
    out
}

} // verus!
