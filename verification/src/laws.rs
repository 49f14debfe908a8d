//! The laws of the builder, stated over the token model: the token-order
//! invariant for arbitrary call sequences, the first-wins idempotence of
//! main-command selectors, and the non-idempotence of always-append
//! modifiers.

use vstd::prelude::*;

use crate::tokens::first_wins_append;

verus! {

/// One factory-method call, abstracted to its effect on the token list: a
/// main-command selector with its fixed tokens, an always-append modifier
/// with its fixed tokens, or a text injection with its (already sanitized)
/// token.
pub enum FactoryCall {
    Main(Seq<Seq<char>>),
    Always(Seq<Seq<char>>),
    Text(Seq<char>),
}

/// The builder state `(tokens, started)` after one factory-method call.
/// This is exactly what the contracts of the factory methods state: a main
/// selector appends first-wins and marks the main command chosen; a
/// modifier or text injection appends unconditionally and leaves the flag
/// alone.
pub open spec fn step(t: Seq<Seq<char>>, started: bool, c: FactoryCall) -> (Seq<Seq<char>>, bool) {
    match c {
        FactoryCall::Main(ts) => (first_wins_append(t, started, ts), true),
        FactoryCall::Always(ts) => (t + ts, started),
        FactoryCall::Text(s) => (t.push(s), started),
    }
}

/// The builder state after a whole sequence of factory-method calls.
pub open spec fn apply_calls(t: Seq<Seq<char>>, started: bool, cs: Seq<FactoryCall>) -> (
    Seq<Seq<char>>,
    bool,
)
    decreases cs.len(),
{
    if cs.len() == 0 {
        (t, started)
    } else {
        let first = step(t, started, cs[0]);
        apply_calls(first.0, first.1, cs.drop_first())
    }
}

/// The tokens a sequence of calls contributes, in call order: each call's
/// fixed tokens, except that a main selector contributes nothing once a
/// main command has been chosen.
pub open spec fn contributed(started: bool, cs: Seq<FactoryCall>) -> Seq<Seq<char>>
    decreases cs.len(),
{
    if cs.len() == 0 {
        Seq::empty()
    } else {
        match cs[0] {
            FactoryCall::Main(ts) => (if started {
                Seq::empty()
            } else {
                ts
            }) + contributed(true, cs.drop_first()),
            FactoryCall::Always(ts) => ts + contributed(started, cs.drop_first()),
            FactoryCall::Text(s) => seq![s] + contributed(started, cs.drop_first()),
        }
    }
}

/// Token-order invariant: for any sequence of factory-method calls, the
/// resulting token list is the initial one — for a fresh builder, just the
/// program name — followed by each call's contributed tokens in call
/// order, modulo the first-wins rule.  In particular nothing is ever
/// removed or reordered.
pub proof fn lemma_token_order(t: Seq<Seq<char>>, started: bool, cs: Seq<FactoryCall>)
    ensures
        apply_calls(t, started, cs).0 == t + contributed(started, cs),
    decreases cs.len(),
{
    if cs.len() == 0 {
        assert(t + Seq::<Seq<char>>::empty() =~= t);
    } else {
        let first = step(t, started, cs[0]);
        let rest = cs.drop_first();
        lemma_token_order(first.0, first.1, rest);
        match cs[0] {
            FactoryCall::Main(ts) => {
                if started {
                    assert(t + (Seq::<Seq<char>>::empty() + contributed(true, rest)) =~= t
                        + contributed(true, rest));
                } else {
                    assert((t + ts) + contributed(true, rest) =~= t + (ts + contributed(
                        true,
                        rest,
                    )));
                }
            },
            FactoryCall::Always(ts) => {
                assert((t + ts) + contributed(started, rest) =~= t + (ts + contributed(
                    started,
                    rest,
                )));
            },
            FactoryCall::Text(s) => {
                assert(t.push(s) + contributed(started, rest) =~= t + (seq![s] + contributed(
                    started,
                    rest,
                )));
            },
        }
    }
}

/// Append-only invariant: no factory-method call ever removes or reorders
/// existing tokens — after any call sequence every token already present
/// is still present, at its old position.  In particular the program name
/// stays the first token of every builder.
pub proof fn lemma_tokens_preserved(t: Seq<Seq<char>>, started: bool, cs: Seq<FactoryCall>)
    ensures
        apply_calls(t, started, cs).0.len() >= t.len(),
        forall|i: int| 0 <= i < t.len() ==> apply_calls(t, started, cs).0[i] == t[i],
{
    lemma_token_order(t, started, cs);
}

/// First-wins idempotence: once a main command has been chosen, a later
/// main-command selection — whether of the same subcommand or a different
/// one — adds no tokens: only the first main verb's tokens appear.
pub proof fn lemma_first_wins(t: Seq<Seq<char>>, a: Seq<Seq<char>>, b: Seq<Seq<char>>)
    ensures
        first_wins_append(first_wins_append(t, false, a), true, b) == t + a,
{
}

/// `x` concatenated with itself `n` times.
pub open spec fn repeated(x: Seq<Seq<char>>, n: nat) -> Seq<Seq<char>>
    decreases n,
{
    if n == 0 {
        Seq::empty()
    } else {
        repeated(x, (n - 1) as nat) + x
    }
}

/// The token list after `n` calls of one always-append modifier with fixed
/// tokens `x`.
pub open spec fn always_appended(t: Seq<Seq<char>>, x: Seq<Seq<char>>, n: nat) -> Seq<Seq<char>>
    decreases n,
{
    if n == 0 {
        t
    } else {
        always_appended(t, x, (n - 1) as nat) + x
    }
}

/// Always-append non-idempotence: calling an always-append modifier `n`
/// times appends its fixed tokens repeated exactly `n` times.
pub proof fn lemma_always_append_repeats(t: Seq<Seq<char>>, x: Seq<Seq<char>>, n: nat)
    ensures
        always_appended(t, x, n) == t + repeated(x, n),
        always_appended(t, x, n).len() == t.len() + n * x.len(),
    decreases n,
{
    if n == 0 {
        assert(t + Seq::<Seq<char>>::empty() =~= t);
    } else {
        lemma_always_append_repeats(t, x, (n - 1) as nat);
        assert((t + repeated(x, (n - 1) as nat)) + x =~= t + (repeated(x, (n - 1) as nat) + x));
        assert((n - 1) * x.len() + x.len() == n * x.len()) by (nonlinear_arith);
    }
}

} // verus!
