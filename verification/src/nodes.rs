//! The term vocabulary for grammars: a term eats a shorthand and emits a
//! prefix and an expansion, and a set tries each of its nodes once, in order.
//!
//! The terms are built from the nodes of [`crate::tree`], and are matched by
//! the same matcher.

use crate::model::Grammar;
use crate::tree::{eat, emit, number as digits, views, Str};
use vstd::prelude::*;

verus! {

pub use crate::tree::Node;

/// The grammars that a list of borrowed nodes stands for.
pub open spec fn views_of(nodes: Seq<&Node>) -> Seq<Grammar> {
    Seq::new(nodes.len(), |i: int| nodes[i]@)
}

/// Copies of the nodes behind the references, in the same order.
fn to_vec(nodes: &[&Node]) -> (list: Vec<Node>)
    ensures
        views(list@) == views_of(nodes@),
{
    let mut list: Vec<Node> = Vec::new();
    let mut at: usize = 0;
    while at < nodes.len()
        invariant
            at <= nodes.len(),
            list.len() == at,
            forall|i: int| 0 <= i < at ==> list[i]@ == nodes[i]@,
        decreases nodes.len() - at,
    {
        let copy = nodes[at].clone();
        list.push(copy);
        at = at + 1;
    }
    assert(views(list@) =~= views_of(nodes@));
    list
}

/// All of `nodes`, one after the other.
pub fn seq(nodes: &[&Node]) -> (node: Node)
    ensures
        node@ == Grammar::Sequence(views_of(nodes@)),
{
    Node::Sequence(to_vec(nodes))
}

/// The first of `nodes` that matches.
pub fn or(nodes: &[&Node]) -> (node: Node)
    ensures
        node@ == Grammar::Alternation(views_of(nodes@)),
{
    Node::Alternation(to_vec(nodes))
}

/// Each of `grammars` or nothing, one after the other: every one is tried
/// once, in its turn.
pub open spec fn each_once(grammars: Seq<Grammar>) -> Grammar {
    Grammar::Sequence(Seq::new(grammars.len(), |i: int| Grammar::opt(grammars[i])))
}

/// Each of `nodes` once, in order, where it matches.
pub fn set(nodes: &[&Node]) -> (node: Node)
    ensures
        node@ == each_once(views_of(nodes@)),
{
    let mut children: Vec<Node> = Vec::new();
    let mut at: usize = 0;
    while at < nodes.len()
        invariant
            at <= nodes.len(),
            children.len() == at,
            forall|i: int| 0 <= i < at ==> children[i]@ == Grammar::opt(nodes[i]@),
        decreases nodes.len() - at,
    {
        let child = opt(nodes[at].clone());
        children.push(child);
        at = at + 1;
    }
    assert(views(children@) =~= each_once(views_of(nodes@))->Sequence_0);
    Node::Sequence(children)
}

/// `node` or nothing.
pub fn opt(node: Node) -> (optional: Node)
    ensures
        optional@ == Grammar::opt(node@),
{
    crate::tree::opt(node)
}

/// Emits `prefix` and `expansion` and eats nothing.
pub open spec fn noneat_grammar(prefix: Seq<char>, expansion: Seq<char>) -> Grammar {
    Grammar::Sequence(seq![Grammar::EmitLiteral(prefix), Grammar::EmitLiteral(expansion)])
}

/// Emits `prefix` and `expansion` and eats nothing.
pub fn noneat(prefix: Str, expansion: Str) -> (node: Node)
    ensures
        node@ == noneat_grammar(prefix@, expansion@),
{
    let node = Node::Sequence(vec![emit(prefix), emit(expansion)]);
    assert(node@->Sequence_0 =~= noneat_grammar(prefix@, expansion@)->Sequence_0);
    node
}

/// Eats `shorthand`, emits `prefix` and `expansion`, then matches `child`
/// where there is one.
pub open spec fn term_grammar(
    shorthand: Seq<char>,
    prefix: Seq<char>,
    expansion: Seq<char>,
    child: Option<Grammar>,
) -> Grammar {
    let head = seq![
        Grammar::EatLiteral(shorthand),
        Grammar::EmitLiteral(prefix),
        Grammar::EmitLiteral(expansion),
    ];
    match child {
        Some(grammar) => Grammar::Sequence(head.push(grammar)),
        None => Grammar::Sequence(head),
    }
}

/// The grammar of a node that may be missing.
pub open spec fn child_view(child: Option<Node>) -> Option<Grammar> {
    match child {
        Some(node) => Some(node@),
        None => None,
    }
}

/// Eats `shorthand`, emits `prefix` and `expansion`, then matches `child`
/// where there is one.
pub fn term(shorthand: Str, prefix: Str, expansion: Str, child: Option<Node>) -> (node: Node)
    ensures
        node@ == term_grammar(shorthand@, prefix@, expansion@, child_view(child)),
{
    let ghost wanted = term_grammar(shorthand@, prefix@, expansion@, child_view(child));
    let mut children = vec![eat(shorthand), emit(prefix), emit(expansion)];
    if let Some(child) = child {
        children.push(child);
    }
    assert(views(children@) =~= wanted->Sequence_0);
    Node::Sequence(children)
}

/// Emits `prefix` and the digits that it eats; needs at least one digit.
pub open spec fn number_grammar(prefix: Seq<char>) -> Grammar {
    Grammar::Sequence(seq![Grammar::EmitLiteral(prefix), Grammar::Number])
}

/// Emits `prefix` and the digits that it eats; needs at least one digit.
pub fn number(prefix: Str) -> (node: Node)
    ensures
        node@ == number_grammar(prefix@),
{
    let node = Node::Sequence(vec![emit(prefix), digits()]);
    assert(node@->Sequence_0 =~= number_grammar(prefix@)->Sequence_0);
    node
}

/// Emits `prefix` and the digits that it eats, or `0` where there is none.
pub open spec fn number_or_zero_grammar(prefix: Seq<char>) -> Grammar {
    Grammar::Sequence(seq![Grammar::EmitLiteral(prefix), Grammar::number_or_zero()])
}

/// Emits `prefix` and the digits that it eats, or `0` where there is none.
pub fn number_or_zero(prefix: Str) -> (node: Node)
    ensures
        node@ == number_or_zero_grammar(prefix@),
{
    let node = Node::Sequence(vec![emit(prefix), crate::tree::number_or_zero()]);
    assert(node@->Sequence_0 =~= number_or_zero_grammar(prefix@)->Sequence_0);
    node
}

/// The value `=expansion` of a parameter, for the shorthand.
pub open spec fn param_variant_grammar(shorthand: Seq<char>, expansion: Seq<char>) -> Grammar {
    term_grammar(shorthand, "="@, expansion, None)
}

/// The value `=expansion` of a parameter, for the shorthand.
pub fn param_variant(shorthand: Str, expansion: Str) -> (node: Node)
    ensures
        node@ == param_variant_grammar(shorthand@, expansion@),
{
    term(shorthand, "=", expansion, None)
}

// Specific builders

/// The subcommand ` expansion` for the shorthand, followed by `child`.
pub open spec fn subcmd_grammar(
    shorthand: Seq<char>,
    expansion: Seq<char>,
    child: Grammar,
) -> Grammar {
    term_grammar(shorthand, " "@, expansion, Some(child))
}

/// The subcommand ` expansion` for the shorthand, followed by `child`.
pub fn subcmd(shorthand: Str, expansion: Str, child: Node) -> (node: Node)
    ensures
        node@ == subcmd_grammar(shorthand@, expansion@, child@),
{
    term(shorthand, " ", expansion, Some(child))
}

/// The long flag ` --expansion` for the shorthand.
pub open spec fn flag_grammar(shorthand: Seq<char>, expansion: Seq<char>) -> Grammar {
    term_grammar(shorthand, " --"@, expansion, None)
}

/// The long flag ` --expansion` for the shorthand.
pub fn flag(shorthand: Str, expansion: Str) -> (node: Node)
    ensures
        node@ == flag_grammar(shorthand@, expansion@),
{
    term(shorthand, " --", expansion, None)
}

/// The short flag ` -expansion` for the shorthand.
pub open spec fn shortflag_grammar(shorthand: Seq<char>, expansion: Seq<char>) -> Grammar {
    term_grammar(shorthand, " -"@, expansion, None)
}

/// The short flag ` -expansion` for the shorthand.
pub fn shortflag(shorthand: Str, expansion: Str) -> (node: Node)
    ensures
        node@ == shortflag_grammar(shorthand@, expansion@),
{
    term(shorthand, " -", expansion, None)
}

/// The parameter ` --expansion` for the shorthand, followed by `child`.
pub open spec fn param_grammar(
    shorthand: Seq<char>,
    expansion: Seq<char>,
    child: Grammar,
) -> Grammar {
    term_grammar(shorthand, " --"@, expansion, Some(child))
}

/// The parameter ` --expansion` for the shorthand, followed by `child`.
pub fn param(shorthand: Str, expansion: Str, child: Node) -> (node: Node)
    ensures
        node@ == param_grammar(shorthand@, expansion@, child@),
{
    term(shorthand, " --", expansion, Some(child))
}

/// A list of borrowed nodes that is written down element by element stands
/// for the list of their grammars, written down element by element.
pub broadcast proof fn lemma_views_of_array<const N: usize>(
    nodes: [&Node; N],
    grammars: [Grammar; N],
)
    ensures
        #![trigger views_of(nodes@), grammars@]
        (forall|i: int| 0 <= i < N ==> nodes@[i]@ == grammars@[i]) ==> views_of(nodes@)
            == grammars@,
{
    if forall|i: int| 0 <= i < N ==> nodes@[i]@ == grammars@[i] {
        assert(views_of(nodes@) =~= grammars@);
    }
}

/// A list of one borrowed node stands for the grammar of that node.
pub broadcast proof fn lemma_views_of_one(nodes: [&Node; 1])
    ensures
        #[trigger] views_of(nodes@) == Seq::<Grammar>::empty().push(nodes@[0]@),
{
    assert(views_of(nodes@) =~= Seq::<Grammar>::empty().push(nodes@[0]@));
}

/// A list of no node stands for no grammar.
pub broadcast proof fn lemma_views_of_none(nodes: [&Node; 0])
    ensures
        #[trigger] views_of(nodes@) == Seq::<Grammar>::empty(),
{
    assert(views_of(nodes@) =~= Seq::<Grammar>::empty());
}

} // verus!
