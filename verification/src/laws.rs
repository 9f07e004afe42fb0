//! Laws of the expansion, proved of the model in [`crate::model`].
//!
//! The matcher is proved to compute `run`, so each law holds of every call
//! of `Node::expand`.

use crate::model::{
    after, first_hit, lemma_mark_used, none_used, run, run_all, run_choice, run_first, unused,
    Grammar, Known, Outcome,
};
use crate::text::digit_run;
use crate::tree::{agrees, Step};
use vstd::prelude::*;
use vstd::set_lib::{lemma_int_range, lemma_len_subset, set_int_range};

verus! {

/// True when no leaf of the grammar takes its text from a source.
pub open spec fn closed(g: Grammar) -> bool
    decreases g,
{
    match g {
        Grammar::External(_) => false,
        Grammar::Alternation(children) => all_closed(children),
        Grammar::Sequence(children) => all_closed(children),
        Grammar::RepeatedChoice(children, _) => all_closed(children),
        _ => true,
    }
}

/// True when every grammar of the list is closed.
pub open spec fn all_closed(children: Seq<Grammar>) -> bool
    decreases children,
{
    forall|i: int| 0 <= i < children.len() ==> closed(#[trigger] children[i])
}

/// Two steps that say the same: the same variant, with the same text left or
/// the same source asked.
pub open spec fn same_step(one: Step, other: Step) -> bool {
    match (one, other) {
        (Step::Match(left), Step::Match(right)) => left@ == right@,
        (Step::NoMatch, Step::NoMatch) => true,
        (Step::Ask(first), Step::Ask(second)) => first == second,
        _ => false,
    }
}

/// A step that is no match leaves the output as it was, whatever the grammar
/// and the input.
pub proof fn law_no_partial_output(
    step: Step,
    before: Seq<char>,
    after_call: Seq<char>,
    g: Grammar,
    input: Seq<char>,
    eol: bool,
    known: Known,
)
    requires
        agrees(step, before, after_call, run(g, input, eol, known)),
        !(step is Match),
    ensures
        after_call == before,
{
}

/// A closed grammar yields the same outcome whatever answers are known, and
/// never asks for one.
pub proof fn lemma_closed_run(g: Grammar, input: Seq<char>, eol: bool, one: Known, other: Known)
    requires
        closed(g),
    ensures
        run(g, input, eol, one) == run(g, input, eol, other),
        !(run(g, input, eol, one) is Ask),
    decreases g, 0nat, 0nat,
{
    match g {
        Grammar::Alternation(children) => {
            lemma_closed_first(children, 0, input, eol, one, other);
        },
        Grammar::Sequence(children) => {
            lemma_closed_all(children, 0, input, eol, one, other);
        },
        Grammar::RepeatedChoice(children, _) => {
            lemma_closed_choice(children, none_used(children.len()), input, eol, one, other);
        },
        _ => {},
    }
}

proof fn lemma_closed_first(
    children: Seq<Grammar>,
    from: nat,
    input: Seq<char>,
    eol: bool,
    one: Known,
    other: Known,
)
    requires
        all_closed(children),
    ensures
        run_first(children, from, input, eol, one) == run_first(children, from, input, eol, other),
        !(run_first(children, from, input, eol, one) is Ask),
    decreases children, 0nat, children.len() - from,
{
    if from < children.len() {
        lemma_closed_run(children[from as int], input, eol, one, other);
        lemma_closed_first(children, from + 1, input, eol, one, other);
    }
}

proof fn lemma_closed_all(
    children: Seq<Grammar>,
    from: nat,
    input: Seq<char>,
    eol: bool,
    one: Known,
    other: Known,
)
    requires
        all_closed(children),
    ensures
        run_all(children, from, input, eol, one) == run_all(children, from, input, eol, other),
        !(run_all(children, from, input, eol, one) is Ask),
    decreases children, 0nat, children.len() - from,
{
    if from < children.len() {
        lemma_closed_run(children[from as int], input, eol, one, other);
        if let Outcome::Match { emitted, rest } = run(children[from as int], input, eol, one) {
            lemma_closed_all(children, from + 1, rest, eol, one, other);
        }
    }
}

proof fn lemma_closed_hit(
    children: Seq<Grammar>,
    used: Seq<bool>,
    from: nat,
    input: Seq<char>,
    eol: bool,
    one: Known,
    other: Known,
)
    requires
        all_closed(children),
    ensures
        first_hit(children, used, from, input, eol, one) == first_hit(
            children,
            used,
            from,
            input,
            eol,
            other,
        ),
    decreases children, 0nat, children.len() - from,
{
    if from < children.len() {
        lemma_closed_run(children[from as int], input, eol, one, other);
        lemma_closed_hit(children, used, from + 1, input, eol, one, other);
    }
}

proof fn lemma_closed_choice(
    children: Seq<Grammar>,
    used: Seq<bool>,
    input: Seq<char>,
    eol: bool,
    one: Known,
    other: Known,
)
    requires
        all_closed(children),
    ensures
        run_choice(children, used, input, eol, one) == run_choice(
            children,
            used,
            input,
            eol,
            other,
        ),
        !(run_choice(children, used, input, eol, one).outcome is Ask),
    decreases children, 1 + unused(used), 0nat,
{
    lemma_closed_hit(children, used, 0, input, eol, one, other);
    let hit = first_hit(children, used, 0, input, eol, one);
    if hit < children.len() && hit < used.len() && !used[hit as int] {
        lemma_closed_run(children[hit as int], input, eol, one, other);
        if let Outcome::Match { emitted, rest } = run(children[hit as int], input, eol, one) {
            lemma_mark_used(used, hit as int);
            lemma_closed_choice(children, used.update(hit as int, true), rest, eol, one, other);
        }
    }
}

/// Determinism: on a grammar without external leaves, two calls with the
/// same input, the same flag and the same output before them end in the same
/// step and the same output, whatever answers each of them was given.
pub proof fn law_determinism(
    g: Grammar,
    input: Seq<char>,
    eol: bool,
    before: Seq<char>,
    first_known: Known,
    first_step: Step,
    first_after: Seq<char>,
    second_known: Known,
    second_step: Step,
    second_after: Seq<char>,
)
    requires
        closed(g),
        agrees(first_step, before, first_after, run(g, input, eol, first_known)),
        agrees(second_step, before, second_after, run(g, input, eol, second_known)),
    ensures
        same_step(first_step, second_step),
        first_after == second_after,
        !(first_step is Ask),
{
    lemma_closed_run(g, input, eol, first_known, second_known);
}

/// With the same answers the same holds of every grammar: the outcome is a
/// function of the grammar, the input, the flag and the known answers.
pub proof fn law_repeatable(
    g: Grammar,
    input: Seq<char>,
    eol: bool,
    known: Known,
    before: Seq<char>,
    first_step: Step,
    first_after: Seq<char>,
    second_step: Step,
    second_after: Seq<char>,
)
    requires
        agrees(first_step, before, first_after, run(g, input, eol, known)),
        agrees(second_step, before, second_after, run(g, input, eol, known)),
    ensures
        same_step(first_step, second_step),
        first_after == second_after,
{
}

/// The children that a repeated choice applies, from the markers in `used`
/// on, are children that were unused, and no child is among them twice.
pub proof fn lemma_picks_unused_and_distinct(
    children: Seq<Grammar>,
    used: Seq<bool>,
    input: Seq<char>,
    eol: bool,
    known: Known,
)
    ensures
        ({
            let picks = run_choice(children, used, input, eol, known).picks;
            &&& picks.no_duplicates()
            &&& forall|k: int|
                0 <= k < picks.len() ==> 0 <= #[trigger] picks[k] < children.len() && picks[k]
                    < used.len() && !used[picks[k]]
        }),
    decreases 1 + unused(used),
{
    let hit = first_hit(children, used, 0, input, eol, known);
    if hit < children.len() && hit < used.len() && !used[hit as int] {
        if let Outcome::Match { emitted, rest } = run(children[hit as int], input, eol, known) {
            let marked = used.update(hit as int, true);
            lemma_mark_used(used, hit as int);
            lemma_picks_unused_and_distinct(children, marked, rest, eol, known);
            let later = run_choice(children, marked, rest, eol, known);
            let picks = run_choice(children, used, input, eol, known).picks;
            if later.outcome is Match {
                assert(picks == seq![hit as int] + later.picks);
                assert forall|k: int| 0 <= k < picks.len() implies 0 <= #[trigger] picks[k]
                    < children.len() && picks[k] < used.len() && !used[picks[k]] by {
                    if k > 0 {
                        assert(picks[k] == later.picks[k - 1]);
                        assert(!marked[later.picks[k - 1]]);
                    }
                }
                assert forall|i: int, j: int|
                    0 <= i < picks.len() && 0 <= j < picks.len() && i != j implies picks[i]
                    != picks[j] by {
                    if i > 0 {
                        assert(picks[i] == later.picks[i - 1]);
                        assert(!marked[later.picks[i - 1]]);
                    }
                    if j > 0 {
                        assert(picks[j] == later.picks[j - 1]);
                        assert(!marked[later.picks[j - 1]]);
                    }
                }
            }
        }
    }
}

/// The grammars at the indices in `picks`, in that order.
pub open spec fn picked(children: Seq<Grammar>, picks: Seq<int>) -> Seq<Grammar> {
    Seq::new(picks.len(), |k: int| children[picks[k]])
}

/// A repeated choice that matches yields what the children it applied yield
/// when they are matched one after the other, in the order of application.
pub proof fn lemma_choice_is_sequence_of_picks(
    children: Seq<Grammar>,
    used: Seq<bool>,
    input: Seq<char>,
    eol: bool,
    known: Known,
)
    requires
        run_choice(children, used, input, eol, known).outcome is Match,
    ensures
        ({
            let choice = run_choice(children, used, input, eol, known);
            choice.outcome == run_all(picked(children, choice.picks), 0, input, eol, known)
        }),
    decreases 1 + unused(used),
{
    let choice = run_choice(children, used, input, eol, known);
    let hit = first_hit(children, used, 0, input, eol, known);
    if hit < children.len() && hit < used.len() && !used[hit as int] {
        if let Outcome::Match { emitted, rest } = run(children[hit as int], input, eol, known) {
            let marked = used.update(hit as int, true);
            lemma_mark_used(used, hit as int);
            let later = run_choice(children, marked, rest, eol, known);
            lemma_choice_is_sequence_of_picks(children, marked, rest, eol, known);
            let all = picked(children, choice.picks);
            let tail = picked(children, later.picks);
            assert(all[0] == children[hit as int]);
            assert(all.skip(1) == tail);
            lemma_run_all_skip(all, 1, rest, eol, known);
            assert(tail.skip(0) == tail);
            lemma_run_all_skip(tail, 0, rest, eol, known);
        }
    } else {
        assert(picked(children, choice.picks).len() == 0);
    }
}

/// Matching the children from `from` on is matching the list without its
/// first `from` children.
pub proof fn lemma_run_all_skip(
    children: Seq<Grammar>,
    from: nat,
    input: Seq<char>,
    eol: bool,
    known: Known,
)
    requires
        from <= children.len(),
    ensures
        run_all(children, from, input, eol, known) == run_all(
            children.skip(from as int),
            0,
            input,
            eol,
            known,
        ),
    decreases children.len() - from,
{
    let tail = children.skip(from as int);
    if from < children.len() {
        assert(tail[0] == children[from as int]);
        if let Outcome::Match { emitted, rest } = run(children[from as int], input, eol, known) {
            lemma_run_all_skip(children, from + 1, rest, eol, known);
            assert(tail.skip(1) == children.skip(from + 1 as int));
            lemma_run_all_skip(tail, 1, rest, eol, known);
        }
    }
}

/// A repeated choice applies no child twice within one evaluation: the
/// indices of the children it applied are indices of its list, all different.
pub proof fn law_choice_applies_each_child_once(
    children: Seq<Grammar>,
    input: Seq<char>,
    eol: bool,
    known: Known,
)
    ensures
        ({
            let picks = run_choice(children, none_used(children.len()), input, eol, known).picks;
            &&& picks.no_duplicates()
            &&& picks.len() <= children.len()
            &&& forall|k: int| 0 <= k < picks.len() ==> 0 <= #[trigger] picks[k] < children.len()
        }),
{
    let picks = run_choice(children, none_used(children.len()), input, eol, known).picks;
    lemma_picks_unused_and_distinct(children, none_used(children.len()), input, eol, known);
    lemma_distinct_indices_are_few(picks, children.len());
}

/// Distinct indices below `bound` are at most `bound` many.
pub proof fn lemma_distinct_indices_are_few(picks: Seq<int>, bound: nat)
    requires
        picks.no_duplicates(),
        forall|k: int| 0 <= k < picks.len() ==> 0 <= #[trigger] picks[k] < bound,
    ensures
        picks.len() <= bound,
{
    let range = set_int_range(0, bound as int);
    picks.unique_seq_to_set();
    lemma_int_range(0, bound as int);
    assert(picks.to_set().subset_of(range)) by {
        assert forall|index: int| picks.to_set().contains(index) implies range.contains(index) by {
            let k = choose|k: int| 0 <= k < picks.len() && picks[k] == index;
            assert(0 <= picks[k] < bound);
        }
    }
    lemma_len_subset(picks.to_set(), range);
}

/// The outcome of an alternation is the outcome of its first child that
/// does not fail.
pub proof fn lemma_alternation_takes_first(
    children: Seq<Grammar>,
    index: int,
    input: Seq<char>,
    eol: bool,
    known: Known,
)
    requires
        0 <= index < children.len(),
        forall|k: int| 0 <= k < index ==> run(#[trigger] children[k], input, eol, known) is NoMatch,
        !(run(children[index], input, eol, known) is NoMatch),
    ensures
        run(Grammar::Alternation(children), input, eol, known) == run(
            children[index],
            input,
            eol,
            known,
        ),
{
    lemma_first_skips_failures(children, 0, index, input, eol, known);
}

proof fn lemma_first_skips_failures(
    children: Seq<Grammar>,
    from: nat,
    index: int,
    input: Seq<char>,
    eol: bool,
    known: Known,
)
    requires
        from <= index < children.len(),
        forall|k: int|
            from <= k < index ==> run(#[trigger] children[k], input, eol, known) is NoMatch,
    ensures
        run_first(children, from, input, eol, known) == run_first(
            children,
            index as nat,
            input,
            eol,
            known,
        ),
    decreases index - from,
{
    if from < index {
        assert(run(children[from as int], input, eol, known) is NoMatch);
        lemma_first_skips_failures(children, from + 1, index, input, eol, known);
    }
}

/// Alternation ordering: when two children can both match the input and no
/// child in front of the earlier one matches or asks, the alternation yields
/// what the earlier one yields.
pub proof fn law_alternation_order(
    children: Seq<Grammar>,
    earlier: int,
    later: int,
    input: Seq<char>,
    eol: bool,
    known: Known,
)
    requires
        0 <= earlier < later < children.len(),
        run(children[earlier], input, eol, known) is Match,
        run(children[later], input, eol, known) is Match,
        forall|k: int|
            0 <= k < earlier ==> run(#[trigger] children[k], input, eol, known) is NoMatch,
    ensures
        run(Grammar::Alternation(children), input, eol, known) == run(
            children[earlier],
            input,
            eol,
            known,
        ),
{
    lemma_alternation_takes_first(children, earlier, input, eol, known);
}

/// The grammar that never matches does not match.
pub proof fn law_fail(input: Seq<char>, eol: bool, known: Known)
    ensures
        run(Grammar::fail(), input, eol, known) is NoMatch,
{
}

/// A prefix is emitted in front of what the grammar behind it emits, and is
/// taken back where that grammar does not match.
pub proof fn law_prefix(p: Seq<char>, g: Grammar, input: Seq<char>, eol: bool, known: Known)
    ensures
        run(Grammar::prefix(p, g), input, eol, known) == after(p, run(g, input, eol, known)),
{
    reveal_with_fuel(run, 3);
    reveal_with_fuel(run_all, 3);
    let children = seq![Grammar::EmitLiteral(p), g];
    assert(children[0] == Grammar::EmitLiteral(p) && children[1] == g);
    if let Outcome::Match { emitted, rest } = run(g, input, eol, known) {
        assert(emitted + Seq::<char>::empty() == emitted);
    }
}

/// A mapping eats its shorthand and then is the grammar behind it.
pub proof fn law_map(i: Seq<char>, g: Grammar, input: Seq<char>, eol: bool, known: Known)
    ensures
        run(Grammar::map(i, g), input, eol, known) == if i.is_prefix_of(input) {
            run(g, input.skip(i.len() as int), eol, known)
        } else {
            Outcome::NoMatch
        },
{
    reveal_with_fuel(run, 3);
    reveal_with_fuel(run_all, 3);
    let children = seq![Grammar::EatLiteral(i), g];
    assert(children[0] == Grammar::EatLiteral(i) && children[1] == g);
    if i.is_prefix_of(input) {
        if let Outcome::Match { emitted, rest } = run(g, input.skip(i.len() as int), eol, known) {
            assert(emitted + Seq::<char>::empty() == emitted);
            assert(Seq::<char>::empty() + emitted == emitted);
        }
    }
}

/// A word eats its shorthand and emits its text, and does not match an input
/// that does not start with the shorthand.
pub proof fn law_word(i: Seq<char>, o: Seq<char>, input: Seq<char>, eol: bool, known: Known)
    ensures
        run(Grammar::word(i, o), input, eol, known) == if i.is_prefix_of(input) {
            Outcome::Match { emitted: o, rest: input.skip(i.len() as int) }
        } else {
            Outcome::NoMatch
        },
{
    law_map(i, Grammar::EmitLiteral(o), input, eol, known);
}

/// A long flag eats its shorthand and emits two dashes and its name.
pub proof fn law_flag(i: Seq<char>, o: Seq<char>, input: Seq<char>, eol: bool, known: Known)
    ensures
        run(Grammar::flag(i, o), input, eol, known) == if i.is_prefix_of(input) {
            Outcome::Match { emitted: "--"@ + o, rest: input.skip(i.len() as int) }
        } else {
            Outcome::NoMatch
        },
{
    law_word(i, o, input, eol, known);
    law_prefix("--"@, Grammar::word(i, o), input, eol, known);
}

/// An optional grammar yields what the grammar yields, and matches nothing
/// where the grammar does not match.
pub proof fn law_opt(g: Grammar, input: Seq<char>, eol: bool, known: Known)
    ensures
        run(Grammar::opt(g), input, eol, known) == match run(g, input, eol, known) {
            Outcome::NoMatch => Outcome::Match { emitted: Seq::empty(), rest: input },
            decided => decided,
        },
{
    reveal_with_fuel(run, 3);
    reveal_with_fuel(first_hit, 3);
    reveal_with_fuel(run_choice, 3);
    let children = seq![g];
    let fresh = none_used(1);
    assert(children[0] == g);
    assert(!fresh[0]);
    if let Outcome::Match { emitted, rest } = run(g, input, eol, known) {
        let marked = fresh.update(0, true);
        assert(marked[0]);
        assert(first_hit(children, marked, 0, rest, eol, known) == 1);
        assert(emitted + Seq::<char>::empty() == emitted);
    }
}

/// A number or zero emits the digits in front of the input, and `0` where
/// there is none.
pub proof fn law_number_or_zero(input: Seq<char>, eol: bool, known: Known)
    ensures
        run(Grammar::number_or_zero(), input, eol, known) == if digit_run(input) > 0 {
            Outcome::Match {
                emitted: input.take(digit_run(input) as int),
                rest: input.skip(digit_run(input) as int),
            }
        } else {
            Outcome::Match { emitted: "0"@, rest: input }
        },
{
    reveal_with_fuel(run, 3);
    reveal_with_fuel(run_first, 3);
    let children = seq![Grammar::Number, Grammar::EmitLiteral("0"@)];
    assert(children[0] == Grammar::Number && children[1] == Grammar::EmitLiteral("0"@));
}

} // verus!
