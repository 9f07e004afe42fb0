//! The mathematical model of a grammar and of its expansion.
//!
//! [`Grammar`] is the view of a grammar tree, [`run`] is what matching a
//! grammar against an input means, and [`Outcome`] is what a match yields.
//! Everything here is specification: the executable matcher is proved to
//! compute `run`.

use crate::text::digit_run;
use vstd::prelude::*;

verus! {

/// A value that only the surroundings of the program can supply.
#[derive(Clone, Copy, Debug, PartialEq, Eq, Structural)]
pub enum Source {
    /// Name of the branch that is checked out.
    CurrentBranch,
    /// Branch that the current branch tracks.
    CurrentUpstream,
    /// Local branch that tracks the head of the main remote.
    MainBranch,
    /// The main remote of the repository.
    MainRemote,
    /// Head branch of the main remote.
    MainRemoteHead,
    /// Remote that the current branch tracks.
    CurrentRemote,
}

/// The answers known so far: a source is in the domain once it was resolved,
/// and maps to `None` when it resolved to nothing.
pub type Known = Map<Source, Option<Seq<char>>>;

/// A grammar as a mathematical value.
#[verifier::ext_equal]
pub enum Grammar {
    /// Matches the empty rest of a line that has ended.
    EndOfLine,
    /// Consumes the literal and emits nothing.
    EatLiteral(Seq<char>),
    /// Consumes nothing and emits the literal.
    EmitLiteral(Seq<char>),
    /// Consumes a run of one or more digits and emits it.
    Number,
    /// Consumes nothing and emits the answer of a source.
    External(Source),
    /// The first child that matches decides.
    Alternation(Seq<Grammar>),
    /// Every child matches in turn, each where the one before stopped.
    Sequence(Seq<Grammar>),
    /// Children match in any order, each at most once; the flag asks for at
    /// least one of them.
    RepeatedChoice(Seq<Grammar>, bool),
}

impl Grammar {
    /// The grammar that never matches.
    pub open spec fn fail() -> Grammar {
        Grammar::Alternation(Seq::empty())
    }

    /// Consumes `i` and emits `o`.
    pub open spec fn word(i: Seq<char>, o: Seq<char>) -> Grammar {
        Grammar::Sequence(seq![Grammar::EatLiteral(i), Grammar::EmitLiteral(o)])
    }

    /// Consumes `i`, then matches `o`.
    pub open spec fn map(i: Seq<char>, o: Grammar) -> Grammar {
        Grammar::Sequence(seq![Grammar::EatLiteral(i), o])
    }

    /// Emits `p`, then matches `g`.
    pub open spec fn prefix(p: Seq<char>, g: Grammar) -> Grammar {
        Grammar::Sequence(seq![Grammar::EmitLiteral(p), g])
    }

    /// `g` behind a blank.
    pub open spec fn arg(g: Grammar) -> Grammar {
        Grammar::prefix(" "@, g)
    }

    /// The long flag `--o` for the shorthand `i`.
    pub open spec fn flag(i: Seq<char>, o: Seq<char>) -> Grammar {
        Grammar::prefix("--"@, Grammar::word(i, o))
    }

    /// The short flag `-o` for the shorthand `i`.
    pub open spec fn f(i: Seq<char>, o: Seq<char>) -> Grammar {
        Grammar::prefix("-"@, Grammar::word(i, o))
    }

    /// `g` or nothing.
    pub open spec fn opt(g: Grammar) -> Grammar {
        Grammar::RepeatedChoice(seq![g], false)
    }

    /// Any of `children`, in any order, each at most once.
    pub open spec fn set(children: Seq<Grammar>) -> Grammar {
        Grammar::RepeatedChoice(children, false)
    }

    /// Each of `children` behind `p`.
    pub open spec fn prefixed(p: Seq<char>, children: Seq<Grammar>) -> Seq<Grammar> {
        Seq::new(children.len(), |i: int| Grammar::prefix(p, children[i]))
    }

    /// Any of `children`, each behind `p`.
    pub open spec fn prefix_set(p: Seq<char>, children: Seq<Grammar>) -> Grammar {
        Grammar::RepeatedChoice(Grammar::prefixed(p, children), false)
    }

    /// Any of `children`, each behind a blank.
    pub open spec fn argset(children: Seq<Grammar>) -> Grammar {
        Grammar::prefix_set(" "@, children)
    }

    /// A number, or `0` where there is none.
    pub open spec fn number_or_zero() -> Grammar {
        Grammar::Alternation(seq![Grammar::Number, Grammar::EmitLiteral("0"@)])
    }

    /// Consumes `i` and emits the answer of `source`.
    pub open spec fn map_custom(i: Seq<char>, source: Source) -> Grammar {
        Grammar::Sequence(seq![Grammar::EatLiteral(i), Grammar::External(source)])
    }

    /// The parameter `--o=` for the shorthand `i`, with `arg` as its value or
    /// the cursor mark where `arg` does not match.
    pub open spec fn param(i: Seq<char>, o: Seq<char>, arg: Grammar) -> Grammar {
        Grammar::Sequence(
            seq![
                Grammar::EmitLiteral("--"@),
                Grammar::word(i, o),
                Grammar::prefix("="@, Grammar::Alternation(seq![arg, Grammar::EmitLiteral("%"@)])),
            ],
        )
    }

    /// The parameter `--o` for the shorthand `i`, whose value may be left
    /// out: `=` and `arg`, or `=` and the cursor mark for `_`.
    pub open spec fn param_opt(i: Seq<char>, o: Seq<char>, arg: Grammar) -> Grammar {
        Grammar::Sequence(
            seq![
                Grammar::EmitLiteral("--"@),
                Grammar::word(i, o),
                Grammar::opt(
                    Grammar::prefix(
                        "="@,
                        Grammar::Alternation(
                            seq![arg, Grammar::map("_"@, Grammar::EmitLiteral("%"@))],
                        ),
                    ),
                ),
            ],
        )
    }
}

/// What matching a grammar against an input yields.
pub enum Outcome {
    /// The grammar matched: `emitted` is appended to the output and `rest`
    /// is the input that is left.
    Match { emitted: Seq<char>, rest: Seq<char> },
    /// The grammar does not match; the output stays as it was.
    NoMatch,
    /// The match depends on a source whose answer is not known yet; the
    /// output stays as it was.
    Ask { source: Source },
}

/// The result of a repeated choice together with the children it applied,
/// in the order of application.
pub struct Choice {
    pub outcome: Outcome,
    pub picks: Seq<int>,
}

/// Number of children that are not marked as used.
pub open spec fn unused(used: Seq<bool>) -> nat
    decreases used.len(),
{
    if used.len() == 0 {
        0
    } else {
        unused(used.drop_last()) + if used.last() {
            0nat
        } else {
            1nat
        }
    }
}

/// Marking an unused child leaves one unused child fewer.
pub proof fn lemma_mark_used(used: Seq<bool>, i: int)
    requires
        0 <= i < used.len(),
        !used[i],
    ensures
        unused(used.update(i, true)) + 1 == unused(used),
    decreases used.len(),
{
    let marked = used.update(i, true);
    if i == used.len() - 1 {
        assert(marked.drop_last() == used.drop_last());
    } else {
        lemma_mark_used(used.drop_last(), i);
        assert(marked.drop_last() == used.drop_last().update(i, true));
    }
}

/// The markers of a choice that has applied no child yet.
pub open spec fn none_used(len: nat) -> Seq<bool> {
    Seq::new(len, |i: int| false)
}

/// What matching `g` against the front of `input` yields, given the answers
/// in `known`.
pub open spec fn run(g: Grammar, input: Seq<char>, eol: bool, known: Known) -> Outcome
    decreases g, 0nat, 0nat,
{
    match g {
        Grammar::EndOfLine => if input.len() == 0 && eol {
            Outcome::Match { emitted: Seq::empty(), rest: input }
        } else {
            Outcome::NoMatch
        },
        Grammar::EatLiteral(text) => if text.is_prefix_of(input) {
            Outcome::Match { emitted: Seq::empty(), rest: input.skip(text.len() as int) }
        } else {
            Outcome::NoMatch
        },
        Grammar::EmitLiteral(text) => Outcome::Match { emitted: text, rest: input },
        Grammar::Number => if digit_run(input) > 0 {
            Outcome::Match {
                emitted: input.take(digit_run(input) as int),
                rest: input.skip(digit_run(input) as int),
            }
        } else {
            Outcome::NoMatch
        },
        Grammar::External(source) => if !known.dom().contains(source) {
            Outcome::Ask { source }
        } else {
            match known[source] {
                Some(text) => Outcome::Match { emitted: text, rest: input },
                None => Outcome::NoMatch,
            }
        },
        Grammar::Alternation(children) => run_first(children, 0, input, eol, known),
        Grammar::Sequence(children) => run_all(children, 0, input, eol, known),
        Grammar::RepeatedChoice(children, require_one) => {
            let choice = run_choice(children, none_used(children.len()), input, eol, known);
            if require_one && choice.outcome is Match && choice.picks.len() == 0 {
                Outcome::NoMatch
            } else {
                choice.outcome
            }
        },
    }
}

/// The outcome of the first child at or after `from` that does not fail.
pub open spec fn run_first(
    children: Seq<Grammar>,
    from: nat,
    input: Seq<char>,
    eol: bool,
    known: Known,
) -> Outcome
    decreases children, 0nat, children.len() - from,
{
    if from >= children.len() {
        Outcome::NoMatch
    } else {
        match run(children[from as int], input, eol, known) {
            Outcome::NoMatch => run_first(children, from + 1, input, eol, known),
            decided => decided,
        }
    }
}

/// `outcome` behind a match that emitted `head`.
pub open spec fn after(head: Seq<char>, outcome: Outcome) -> Outcome {
    match outcome {
        Outcome::Match { emitted, rest } => Outcome::Match { emitted: head + emitted, rest },
        stopped => stopped,
    }
}

/// What comes behind two matches comes behind the one that emitted what both
/// emitted.
pub proof fn lemma_after_after(first: Seq<char>, second: Seq<char>, outcome: Outcome)
    ensures
        after(first, after(second, outcome)) == after(first + second, outcome),
{
    if let Outcome::Match { emitted, rest } = outcome {
        assert(first + (second + emitted) == (first + second) + emitted);
    }
}

/// The children from `from` on matched one after the other.
pub open spec fn run_all(
    children: Seq<Grammar>,
    from: nat,
    input: Seq<char>,
    eol: bool,
    known: Known,
) -> Outcome
    decreases children, 0nat, children.len() - from,
{
    if from >= children.len() {
        Outcome::Match { emitted: Seq::empty(), rest: input }
    } else {
        match run(children[from as int], input, eol, known) {
            Outcome::Match { emitted, rest } => after(
                emitted,
                run_all(children, from + 1, rest, eol, known),
            ),
            stopped => stopped,
        }
    }
}

/// Index of the first unused child at or after `from` that does not fail on
/// `input`, or the number of children when there is none.
pub open spec fn first_hit(
    children: Seq<Grammar>,
    used: Seq<bool>,
    from: nat,
    input: Seq<char>,
    eol: bool,
    known: Known,
) -> nat
    decreases children, 0nat, children.len() - from,
{
    if from >= children.len() {
        children.len()
    } else if from < used.len() && !used[from as int] && !(run(
        children[from as int],
        input,
        eol,
        known,
    ) is NoMatch) {
        from
    } else {
        first_hit(children, used, from + 1, input, eol, known)
    }
}

/// `later` behind the children `picks`, which emitted `head`: when `later`
/// stops without a match, nothing of the choice stays.
pub open spec fn resume(head: Seq<char>, picks: Seq<int>, later: Choice) -> Choice {
    match later.outcome {
        Outcome::Match { emitted, rest } => Choice {
            outcome: Outcome::Match { emitted: head + emitted, rest },
            picks: picks + later.picks,
        },
        stopped => Choice { outcome: stopped, picks: Seq::empty() },
    }
}

/// What is resumed behind two runs of picks is resumed behind both as one.
pub proof fn lemma_resume_resume(
    first: Seq<char>,
    first_picks: Seq<int>,
    second: Seq<char>,
    second_picks: Seq<int>,
    later: Choice,
)
    ensures
        resume(first, first_picks, resume(second, second_picks, later)) == resume(
            first + second,
            first_picks + second_picks,
            later,
        ),
{
    if let Outcome::Match { emitted, rest } = later.outcome {
        assert(first + (second + emitted) == (first + second) + emitted);
        assert(first_picks + (second_picks + later.picks) == (first_picks + second_picks)
            + later.picks);
    }
}

/// A repeated choice that goes on from the markers in `used`: the first
/// unused child that matches is applied and marked, and the scan starts over
/// on what it left, until no unused child matches.
pub open spec fn run_choice(
    children: Seq<Grammar>,
    used: Seq<bool>,
    input: Seq<char>,
    eol: bool,
    known: Known,
) -> Choice
    decreases children, 1 + unused(used), 0nat,
{
    let hit = first_hit(children, used, 0, input, eol, known);
    if hit < children.len() && hit < used.len() && !used[hit as int] {
        match run(children[hit as int], input, eol, known) {
            Outcome::Match { emitted, rest } => {
                proof {
                    lemma_mark_used(used, hit as int);
                }
                resume(
                    emitted,
                    seq![hit as int],
                    run_choice(children, used.update(hit as int, true), rest, eol, known),
                )
            },
            stopped => Choice { outcome: stopped, picks: Seq::empty() },
        }
    } else {
        Choice {
            outcome: Outcome::Match { emitted: Seq::empty(), rest: input },
            picks: Seq::empty(),
        }
    }
}

/// What expanding a whole expression yields.
pub enum Verdict {
    /// The grammar matched the whole expression and emitted `text`.
    Expansion { text: Seq<char> },
    /// The grammar does not match, or leaves a part of the expression over.
    NoMatch,
    /// The answer of `source` is needed to decide.
    Ask { source: Source },
}

/// The verdict on `input` as a whole: a match counts only when nothing of
/// the input is left.
pub open spec fn verdict(g: Grammar, input: Seq<char>, eol: bool, known: Known) -> Verdict {
    match run(g, input, eol, known) {
        Outcome::Match { emitted, rest } => if rest.len() == 0 {
            Verdict::Expansion { text: emitted }
        } else {
            Verdict::NoMatch
        },
        Outcome::NoMatch => Verdict::NoMatch,
        Outcome::Ask { source } => Verdict::Ask { source },
    }
}

} // verus!
