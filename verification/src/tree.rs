//! Grammar trees and the matcher that expands a shorthand against them.

use crate::model::{
    after, first_hit, lemma_after_after, lemma_mark_used, lemma_resume_resume, none_used, resume,
    run, run_all, run_choice, run_first, unused, verdict, Choice, Grammar, Known, Outcome, Source,
    Verdict,
};
use crate::text::{lemma_digit_run, mark, rewind, split_digits, strip_prefix};
use vstd::prelude::*;
use vstd::string::*;

verus! {

/// Literal text of a grammar.
pub type Str = &'static str;

/// Data structure for constructing grammars.
#[derive(Debug)]
pub enum Node {
    /// Succeeds without consuming anything at the end of a line.
    EndOfLine,
    /// Consume the given string and produce nothing.
    EatLiteral(Str),
    /// Eat nothing and produce the given string.
    EmitLiteral(Str),
    /// Eat a number and produce it.
    Number,
    /// Eat nothing and produce the answer of a source.
    External(Source),
    /// Try to run each child until one succeeds.
    Alternation(Vec<Node>),
    /// Run every child, fail if any child fails.
    Sequence(Vec<Node>),
    /// Repeatedly try running each child, one after the other.
    /// When a child succeeds, it will no longer be tried.
    /// Finishes when none of the remaining children succeed.
    /// Fails only when it must apply a child and applied none.
    RepeatedChoice { children: Vec<Node>, require_one: bool },
}

/// The grammars that a list of nodes stands for.
pub open spec fn views(nodes: Seq<Node>) -> Seq<Grammar>
    decreases nodes,
{
    Seq::new(
        nodes.len(),
        |i: int|
            if 0 <= i < nodes.len() {
                nodes[i].view()
            } else {
                Grammar::EndOfLine
            },
    )
}

/// A list of nodes that is written down element by element stands for the
/// list of their grammars, written down element by element.
pub broadcast proof fn lemma_views_of_array<const N: usize>(
    nodes: [Node; N],
    grammars: [Grammar; N],
)
    ensures
        #![trigger views(nodes@), grammars@]
        (forall|i: int| 0 <= i < N ==> nodes@[i]@ == grammars@[i]) ==> views(nodes@) == grammars@,
{
    if forall|i: int| 0 <= i < N ==> nodes@[i]@ == grammars@[i] {
        assert(views(nodes@) =~= grammars@);
    }
}

/// A list of one node stands for the grammar of that node.
pub broadcast proof fn lemma_views_of_one(nodes: [Node; 1])
    ensures
        #[trigger] views(nodes@) == Seq::<Grammar>::empty().push(nodes@[0]@),
{
    assert(views(nodes@) =~= Seq::<Grammar>::empty().push(nodes@[0]@));
}

/// A list of no node stands for no grammar.
pub broadcast proof fn lemma_views_of_none(nodes: [Node; 0])
    ensures
        #[trigger] views(nodes@) == Seq::<Grammar>::empty(),
{
    assert(views(nodes@) =~= Seq::<Grammar>::empty());
}

impl View for Node {
    type V = Grammar;

    open spec fn view(&self) -> Grammar
        decreases self,
    {
        match self {
            Node::EndOfLine => Grammar::EndOfLine,
            Node::EatLiteral(text) => Grammar::EatLiteral(text@),
            Node::EmitLiteral(text) => Grammar::EmitLiteral(text@),
            Node::Number => Grammar::Number,
            Node::External(source) => Grammar::External(*source),
            Node::Alternation(children) => Grammar::Alternation(views(children@)),
            Node::Sequence(children) => Grammar::Sequence(views(children@)),
            Node::RepeatedChoice { children, require_one } => Grammar::RepeatedChoice(
                views(children@),
                *require_one,
            ),
        }
    }
}

impl Clone for Node {
    fn clone(&self) -> (copy: Node)
        ensures
            copy@ == self@,
        decreases self,
    {
        match self {
            Node::EndOfLine => Node::EndOfLine,
            Node::EatLiteral(text) => Node::EatLiteral(*text),
            Node::EmitLiteral(text) => Node::EmitLiteral(*text),
            Node::Number => Node::Number,
            Node::External(source) => Node::External(*source),
            Node::Alternation(children) => Node::Alternation(clone_all(children)),
            Node::Sequence(children) => Node::Sequence(clone_all(children)),
            Node::RepeatedChoice { children, require_one } => Node::RepeatedChoice {
                children: clone_all(children),
                require_one: *require_one,
            },
        }
    }
}

/// Copies of the nodes in `nodes`, in the same order.
fn clone_all(nodes: &Vec<Node>) -> (copies: Vec<Node>)
    ensures
        views(copies@) == views(nodes@),
    decreases nodes,
{
    let mut copies: Vec<Node> = Vec::new();
    let mut at: usize = 0;
    while at < nodes.len()
        invariant
            at <= nodes.len(),
            copies.len() == at,
            forall|i: int| 0 <= i < at ==> copies[i]@ == nodes[i]@,
        decreases nodes.len() - at,
    {
        let copy = nodes[at].clone();
        copies.push(copy);
        at = at + 1;
    }
    assert(views(copies@) =~= views(nodes@));
    copies
}

/// The answers of the sources that were resolved so far.
pub struct Answers {
    current_branch: Option<Option<String>>,
    current_upstream: Option<Option<String>>,
    main_branch: Option<Option<String>>,
    main_remote: Option<Option<String>>,
    main_remote_head: Option<Option<String>>,
    current_remote: Option<Option<String>>,
}

/// The text of an answer.
pub open spec fn answer_view(answer: Option<String>) -> Option<Seq<char>> {
    match answer {
        Some(text) => Some(text@),
        None => None,
    }
}

impl Answers {
    /// What is stored for `source`: `None` as long as it was not resolved.
    pub closed spec fn slot(&self, source: Source) -> Option<Option<String>> {
        match source {
            Source::CurrentBranch => self.current_branch,
            Source::CurrentUpstream => self.current_upstream,
            Source::MainBranch => self.main_branch,
            Source::MainRemote => self.main_remote,
            Source::MainRemoteHead => self.main_remote_head,
            Source::CurrentRemote => self.current_remote,
        }
    }

    /// No source resolved yet.
    pub fn new() -> (answers: Answers)
        ensures
            answers@ == Map::<Source, Option<Seq<char>>>::empty(),
    {
        let answers = Answers {
            current_branch: None,
            current_upstream: None,
            main_branch: None,
            main_remote: None,
            main_remote_head: None,
            current_remote: None,
        };
        assert(answers@ =~= Map::<Source, Option<Seq<char>>>::empty());
        answers
    }

    /// Stores the answer of `source`, in place of an earlier one if there
    /// is any.
    pub fn record(&mut self, source: Source, answer: Option<String>)
        ensures
            final(self)@ == old(self)@.insert(source, answer_view(answer)),
    {
        let ghost text = answer_view(answer);
        match source {
            Source::CurrentBranch => {
                self.current_branch = Some(answer);
            },
            Source::CurrentUpstream => {
                self.current_upstream = Some(answer);
            },
            Source::MainBranch => {
                self.main_branch = Some(answer);
            },
            Source::MainRemote => {
                self.main_remote = Some(answer);
            },
            Source::MainRemoteHead => {
                self.main_remote_head = Some(answer);
            },
            Source::CurrentRemote => {
                self.current_remote = Some(answer);
            },
        }
        assert(self@ =~= old(self)@.insert(source, text));
    }

    /// The answer of `source`: `None` as long as it was not resolved,
    /// `Some(None)` when it resolved to nothing.
    pub fn lookup(&self, source: Source) -> (answer: Option<Option<&str>>)
        ensures
            answer is Some <==> self@.dom().contains(source),
            answer matches Some(Some(text)) ==> self@[source] == Some(text@),
            answer matches Some(None) ==> self@[source] is None,
    {
        let slot = match source {
            Source::CurrentBranch => &self.current_branch,
            Source::CurrentUpstream => &self.current_upstream,
            Source::MainBranch => &self.main_branch,
            Source::MainRemote => &self.main_remote,
            Source::MainRemoteHead => &self.main_remote_head,
            Source::CurrentRemote => &self.current_remote,
        };
        match slot {
            Some(Some(text)) => Some(Some(text.as_str())),
            Some(None) => Some(None),
            None => None,
        }
    }
}

impl View for Answers {
    type V = Known;

    closed spec fn view(&self) -> Known {
        Map::new(
            |source: Source| self.slot(source) is Some,
            |source: Source| answer_view(self.slot(source)->0),
        )
    }
}

/// How an attempt to match ended.
#[derive(Debug, PartialEq, Eq)]
pub enum Step<'a> {
    /// The node matched; what is left of the input.
    Match(&'a str),
    /// The node does not match.
    NoMatch,
    /// The answer of this source is needed to go on.
    Ask(Source),
}

/// `step` and the output after the attempt are what `outcome` says, for an
/// output that held `before`.
pub open spec fn agrees(step: Step, before: Seq<char>, after: Seq<char>, outcome: Outcome) -> bool {
    match outcome {
        Outcome::Match { emitted, rest } => {
            &&& step matches Step::Match(left)
            &&& left@ == rest
            &&& after == before + emitted
        },
        Outcome::NoMatch => step is NoMatch && after == before,
        Outcome::Ask { source } => step == Step::Ask(source) && after == before,
    }
}

impl Node {
    /// Matches this node against the front of `input` and appends what it
    /// emits to `output`.
    ///
    /// On a match the result holds the input that is left. When the node does
    /// not match, or needs an answer that `answers` does not hold yet, the
    /// output is what it was before the call.
    pub fn expand<'a>(
        &self,
        input: &'a str,
        eol: bool,
        answers: &Answers,
        output: &mut String,
    ) -> (step: Step<'a>)
        ensures
            agrees(step, old(output)@, final(output)@, run(self@, input@, eol, answers@)),
            !(step is Match) ==> final(output)@ == old(output)@,
        decreases self,
    {
        let ghost before = output@;
        match self {
            Node::EndOfLine => {
                if input.is_empty() && eol {
                    assert(before + Seq::<char>::empty() == before);
                    Step::Match(input)
                } else {
                    Step::NoMatch
                }
            },
            Node::EatLiteral(text) => {
                match strip_prefix(input, text) {
                    Some(tail) => {
                        assert(tail@ == input@.skip(text@.len() as int));
                        assert(before + Seq::<char>::empty() == before);
                        Step::Match(tail)
                    },
                    None => Step::NoMatch,
                }
            },
            Node::EmitLiteral(text) => {
                output.append(text);
                Step::Match(input)
            },
            Node::Number => {
                let (number, tail) = split_digits(input);
                proof {
                    lemma_digit_run(input@);
                }
                if number.is_empty() {
                    Step::NoMatch
                } else {
                    output.append(number);
                    Step::Match(tail)
                }
            },
            Node::External(source) => {
                match answers.lookup(*source) {
                    None => Step::Ask(*source),
                    Some(None) => Step::NoMatch,
                    Some(Some(text)) => {
                        output.append(text);
                        Step::Match(input)
                    },
                }
            },
            Node::Alternation(children) => expand_first(children, input, eol, answers, output),
            Node::Sequence(children) => expand_all(children, input, eol, answers, output),
            Node::RepeatedChoice { children, require_one } => expand_choice(
                children,
                *require_one,
                input,
                eol,
                answers,
                output,
            ),
        }
    }
}

/// Tries each child until one succeeds.
#[verifier::loop_isolation(false)]
fn expand_first<'a>(
    children: &Vec<Node>,
    input: &'a str,
    eol: bool,
    answers: &Answers,
    output: &mut String,
) -> (step: Step<'a>)
    ensures
        agrees(
            step,
            old(output)@,
            final(output)@,
            run_first(views(children@), 0, input@, eol, answers@),
        ),
    decreases children,
{
    let ghost before = output@;
    let ghost grammars = views(children@);
    let mut at: usize = 0;
    while at < children.len()
        invariant
            at <= children.len(),
            output@ == before,
            run_first(grammars, 0, input@, eol, answers@) == run_first(
                grammars,
                at as nat,
                input@,
                eol,
                answers@,
            ),
        decreases children.len() - at,
    {
        let step = children[at].expand(input, eol, answers, output);
        match step {
            Step::NoMatch => {},
            decided => {
                return decided;
            },
        }
        at = at + 1;
    }
    Step::NoMatch
}

/// Runs every child, each where the one before stopped, and takes back what
/// was emitted when a child does not match.
#[verifier::loop_isolation(false)]
fn expand_all<'a>(
    children: &Vec<Node>,
    input: &'a str,
    eol: bool,
    answers: &Answers,
    output: &mut String,
) -> (step: Step<'a>)
    ensures
        agrees(
            step,
            old(output)@,
            final(output)@,
            run_all(views(children@), 0, input@, eol, answers@),
        ),
    decreases children,
{
    let ghost before = output@;
    let ghost grammars = views(children@);
    let backtrack_len = mark(output);
    let mut rest = input;
    let mut at: usize = 0;
    let ghost mut emitted = Seq::<char>::empty();
    assert(before + emitted == before);
    while at < children.len()
        invariant
            at <= children.len(),
            output@ == before + emitted,
            run_all(grammars, 0, input@, eol, answers@) == after(
                emitted,
                run_all(grammars, at as nat, rest@, eol, answers@),
            ),
        decreases children.len() - at,
    {
        let ghost here = output@;
        let step = children[at].expand(rest, eol, answers, output);
        match step {
            Step::Match(tail) => {
                proof {
                    let added = run(grammars[at as int], rest@, eol, answers@)->emitted;
                    let later = run_all(grammars, (at + 1) as nat, tail@, eol, answers@);
                    lemma_after_after(emitted, added, later);
                    assert(here + added == before + (emitted + added));
                    emitted = emitted + added;
                }
                rest = tail;
            },
            stopped => {
                rewind(output, backtrack_len, Ghost(before));
                return match stopped {
                    Step::Ask(source) => Step::Ask(source),
                    _ => Step::NoMatch,
                };
            },
        }
        at = at + 1;
    }
    Step::Match(rest)
}

/// Repeatedly runs the first unused child that matches, until none does.
#[verifier::loop_isolation(false)]
fn expand_choice<'a>(
    children: &Vec<Node>,
    require_one: bool,
    input: &'a str,
    eol: bool,
    answers: &Answers,
    output: &mut String,
) -> (step: Step<'a>)
    ensures
        agrees(
            step,
            old(output)@,
            final(output)@,
            run(Grammar::RepeatedChoice(views(children@), require_one), input@, eol, answers@),
        ),
    decreases children,
{
    let ghost before = output@;
    let ghost grammars = views(children@);
    let ghost whole = run_choice(grammars, none_used(grammars.len()), input@, eol, answers@);
    let count = children.len();
    let backtrack_len = mark(output);
    let mut rest = input;
    let mut parsed: Vec<bool> = vec![false; count];
    let mut any = false;
    let mut scanning = true;
    let ghost mut emitted = Seq::<char>::empty();
    let ghost mut picks = Seq::<int>::empty();
    assert(parsed@ == none_used(count as nat));
    assert(before + emitted == before);
    while scanning
        invariant
            parsed.len() == count,
            output@ == before + emitted,
            any <==> picks.len() > 0,
            scanning ==> whole == resume(
                emitted,
                picks,
                run_choice(grammars, parsed@, rest@, eol, answers@),
            ),
            !scanning ==> whole == (Choice {
                outcome: Outcome::Match { emitted, rest: rest@ },
                picks,
            }),
        decreases
                unused(parsed@) + if scanning {
                    1nat
                } else {
                    0nat
                },
    {
        let ghost scanned = rest@;
        let ghost marked = parsed@;
        let ghost here = output@;
        let mut idx: usize = 0;
        let mut hit = false;
        while idx < count && !hit
            invariant
                idx <= count,
                parsed.len() == count,
                !hit ==> {
                    &&& rest@ == scanned
                    &&& parsed@ == marked
                    &&& output@ == here
                    &&& first_hit(grammars, marked, 0, scanned, eol, answers@) == first_hit(
                        grammars,
                        marked,
                        idx as nat,
                        scanned,
                        eol,
                        answers@,
                    )
                },
                hit ==> {
                    &&& idx > 0
                    &&& first_hit(grammars, marked, 0, scanned, eol, answers@) == idx - 1
                    &&& !marked[idx - 1]
                    &&& parsed@ == marked.update(idx - 1, true)
                    &&& run(grammars[idx - 1], scanned, eol, answers@) matches Outcome::Match {
                        emitted: added,
                        rest: left,
                    }
                    &&& left == rest@
                    &&& output@ == here + added
                },
            decreases count - idx,
        {
            if !parsed[idx] {
                let step = children[idx].expand(rest, eol, answers, output);
                match step {
                    Step::Match(tail) => {
                        parsed.set(idx, true);
                        rest = tail;
                        hit = true;
                    },
                    Step::NoMatch => {},
                    Step::Ask(source) => {
                        rewind(output, backtrack_len, Ghost(before));
                        return Step::Ask(source);
                    },
                }
            }
            idx = idx + 1;
        }
        if hit {
            proof {
                let index = idx - 1;
                let added = run(grammars[index], scanned, eol, answers@)->emitted;
                let later = run_choice(grammars, parsed@, rest@, eol, answers@);
                lemma_mark_used(marked, index);
                assert(run_choice(grammars, marked, scanned, eol, answers@) == resume(
                    added,
                    seq![index],
                    later,
                ));
                lemma_resume_resume(emitted, picks, added, seq![index], later);
                assert(here + added == before + (emitted + added));
                emitted = emitted + added;
                picks = picks + seq![index];
            }
            any = true;
        } else {
            proof {
                assert(emitted + Seq::<char>::empty() == emitted);
                assert(picks + Seq::<int>::empty() == picks);
            }
            scanning = false;
        }
    }
    if require_one && !any {
        rewind(output, backtrack_len, Ghost(before));
        Step::NoMatch
    } else {
        Step::Match(rest)
    }
}

/// How the expansion of a whole expression ended.
#[derive(Debug, PartialEq, Eq)]
pub enum Reply {
    /// The expression was matched to its end; the text that was emitted.
    Expansion(String),
    /// The expression is not in the language of the grammar.
    NoMatch,
    /// The answer of this source is needed to go on.
    Ask(Source),
}

impl View for Reply {
    type V = Verdict;

    open spec fn view(&self) -> Verdict {
        match self {
            Reply::Expansion(text) => Verdict::Expansion { text: text@ },
            Reply::NoMatch => Verdict::NoMatch,
            Reply::Ask(source) => Verdict::Ask { source: *source },
        }
    }
}

impl Node {
    /// Expands the whole of `expr`: the text that this node emits when it
    /// matches `expr` to its end.
    pub fn expand_fully(&self, expr: &str, eol: bool, answers: &Answers) -> (reply: Reply)
        ensures
            reply@ == verdict(self@, expr@, eol, answers@),
    {
        let mut output = String::new();
        match self.expand(expr, eol, answers, &mut output) {
            Step::Match(tail) => {
                assert(Seq::<char>::empty() + output@ == output@);
                if tail.is_empty() {
                    Reply::Expansion(output)
                } else {
                    Reply::NoMatch
                }
            },
            Step::NoMatch => Reply::NoMatch,
            Step::Ask(source) => Reply::Ask(source),
        }
    }
}

/// Copies of the nodes of an array, in the same order.
fn to_vec<const N: usize>(nodes: &[Node; N]) -> (list: Vec<Node>)
    ensures
        views(list@) == views(nodes@),
{
    let mut list: Vec<Node> = Vec::new();
    let mut at: usize = 0;
    while at < N
        invariant
            at <= N,
            list.len() == at,
            forall|i: int| 0 <= i < at ==> list[i]@ == nodes[i]@,
        decreases N - at,
    {
        let copy = nodes[at].clone();
        list.push(copy);
        at = at + 1;
    }
    assert(views(list@) =~= views(nodes@));
    list
}

// Useful combinators

/// The text that marks where the cursor belongs in an expansion.
pub const CURSOR: &'static str = "%";

/// Matches the empty rest of a line that has ended.
pub fn end_of_line() -> (node: Node)
    ensures
        node@ == Grammar::EndOfLine,
{
    Node::EndOfLine
}

/// Consumes `text` and emits nothing.
pub fn eat(text: Str) -> (node: Node)
    ensures
        node@ == Grammar::EatLiteral(text@),
{
    Node::EatLiteral(text)
}

/// Consumes nothing and emits `text`.
pub fn emit(text: Str) -> (node: Node)
    ensures
        node@ == Grammar::EmitLiteral(text@),
{
    Node::EmitLiteral(text)
}

/// Consumes a run of digits and emits it.
pub fn number() -> (node: Node)
    ensures
        node@ == Grammar::Number,
{
    Node::Number
}

/// Consumes nothing and emits the answer of `source`.
pub fn external(source: Source) -> (node: Node)
    ensures
        node@ == Grammar::External(source),
{
    Node::External(source)
}

/// The node that never matches.
pub fn fail() -> (node: Node)
    ensures
        node@ == Grammar::fail(),
{
    let node = or([]);
    assert(node@->Alternation_0 =~= Seq::<Grammar>::empty());
    node
}

/// Consumes `i` and emits `o`.
pub fn word(i: Str, o: Str) -> (node: Node)
    ensures
        node@ == Grammar::word(i@, o@),
{
    let node = Node::Sequence(vec![eat(i), emit(o)]);
    assert(node@->Sequence_0 =~= seq![Grammar::EatLiteral(i@), Grammar::EmitLiteral(o@)]);
    node
}

/// Consumes `i`, then matches `o`.
pub fn map(i: Str, o: Node) -> (node: Node)
    ensures
        node@ == Grammar::map(i@, o@),
{
    let node = Node::Sequence(vec![eat(i), o]);
    assert(node@->Sequence_0 =~= seq![Grammar::EatLiteral(i@), o@]);
    node
}

/// Emits `p`, then matches `node`.
pub fn prefix(p: Str, node: Node) -> (prefixed: Node)
    ensures
        prefixed@ == Grammar::prefix(p@, node@),
{
    let prefixed = Node::Sequence(vec![emit(p), node]);
    assert(prefixed@->Sequence_0 =~= seq![Grammar::EmitLiteral(p@), node@]);
    prefixed
}

/// `node` behind a blank.
pub fn arg(node: Node) -> (spaced: Node)
    ensures
        spaced@ == Grammar::arg(node@),
{
    prefix(" ", node)
}

/// The long flag `--o` for the shorthand `i`.
pub fn flag(i: Str, o: Str) -> (node: Node)
    ensures
        node@ == Grammar::flag(i@, o@),
{
    prefix("--", word(i, o))
}

/// The short flag `-o` for the shorthand `i`.
pub fn f(i: Str, o: Str) -> (node: Node)
    ensures
        node@ == Grammar::f(i@, o@),
{
    prefix("-", word(i, o))
}

/// The first of `nodes` that matches.
pub fn or<const N: usize>(nodes: [Node; N]) -> (node: Node)
    ensures
        node@ == Grammar::Alternation(views(nodes@)),
{
    Node::Alternation(to_vec(&nodes))
}

/// All of `nodes`, one after the other.
pub fn seq<const N: usize>(nodes: [Node; N]) -> (node: Node)
    ensures
        node@ == Grammar::Sequence(views(nodes@)),
{
    Node::Sequence(to_vec(&nodes))
}

/// `node` or nothing.
pub fn opt(node: Node) -> (optional: Node)
    ensures
        optional@ == Grammar::opt(node@),
{
    let optional = Node::RepeatedChoice { children: vec![node], require_one: false };
    assert(optional@->RepeatedChoice_0 =~= seq![node@]);
    optional
}

/// Any of `nodes`, in any order, each at most once.
pub fn set<const N: usize>(nodes: [Node; N]) -> (node: Node)
    ensures
        node@ == Grammar::set(views(nodes@)),
{
    Node::RepeatedChoice { children: to_vec(&nodes), require_one: false }
}

/// Any of `nodes`, each behind `p`.
pub fn prefix_set<const N: usize>(p: Str, nodes: [Node; N]) -> (node: Node)
    ensures
        node@ == Grammar::prefix_set(p@, views(nodes@)),
{
    let mut children: Vec<Node> = Vec::new();
    let mut at: usize = 0;
    while at < N
        invariant
            at <= N,
            children.len() == at,
            forall|i: int| 0 <= i < at ==> children[i]@ == Grammar::prefix(p@, nodes[i]@),
        decreases N - at,
    {
        let child = prefix(p, nodes[at].clone());
        children.push(child);
        at = at + 1;
    }
    assert(views(children@) =~= Grammar::prefixed(p@, views(nodes@)));
    Node::RepeatedChoice { children, require_one: false }
}

/// Any of `nodes`, each behind a blank.
pub fn argset<const N: usize>(nodes: [Node; N]) -> (node: Node)
    ensures
        node@ == Grammar::argset(views(nodes@)),
{
    prefix_set(" ", nodes)
}

/// A number, or `0` where there is none.
pub fn number_or_zero() -> (node: Node)
    ensures
        node@ == Grammar::number_or_zero(),
{
    let node = or([number(), emit("0")]);
    assert(node@->Alternation_0 =~= seq![Grammar::Number, Grammar::EmitLiteral("0"@)]);
    node
}

/// Consumes `i` and emits the answer of `source`.
pub fn map_custom(i: Str, source: Source) -> (node: Node)
    ensures
        node@ == Grammar::map_custom(i@, source),
{
    let node = seq([eat(i), external(source)]);
    assert(node@->Sequence_0 =~= seq![Grammar::EatLiteral(i@), Grammar::External(source)]);
    node
}

/// The parameter `--o=` for the shorthand `i`, with `arg` as its value or
/// the cursor mark where `arg` does not match.
pub fn param(i: Str, o: Str, arg: Node) -> (node: Node)
    ensures
        node@ == Grammar::param(i@, o@, arg@),
{
    let value = or([arg, emit(CURSOR)]);
    assert(value@->Alternation_0 =~= seq![arg@, Grammar::EmitLiteral("%"@)]);
    let node = seq([emit("--"), word(i, o), prefix("=", value)]);
    assert(node@->Sequence_0 =~= seq![
        Grammar::EmitLiteral("--"@),
        Grammar::word(i@, o@),
        Grammar::prefix("="@, value@),
    ]);
    node
}

/// The parameter `--o` for the shorthand `i`, whose value may be left out:
/// `=` and `arg`, or `=` and the cursor mark for `_`.
pub fn param_opt(i: Str, o: Str, arg: Node) -> (node: Node)
    ensures
        node@ == Grammar::param_opt(i@, o@, arg@),
{
    let value = or([arg, map("_", emit(CURSOR))]);
    assert(value@->Alternation_0 =~= seq![
        arg@,
        Grammar::map("_"@, Grammar::EmitLiteral("%"@)),
    ]);
    let node = seq([emit("--"), word(i, o), opt(prefix("=", value))]);
    assert(node@->Sequence_0 =~= seq![
        Grammar::EmitLiteral("--"@),
        Grammar::word(i@, o@),
        Grammar::opt(Grammar::prefix("="@, value@)),
    ]);
    node
}

} // verus!
