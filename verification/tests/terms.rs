use git_gud::ast::{ast, local_target};
use git_gud::nodes::{
    flag, noneat, number, number_or_zero, opt, or, param, param_variant, shortflag, subcmd, term,
    Node,
};
use git_gud::tree::{Answers, Reply};

fn all(node: &Node, input: &str) -> Reply {
    node.expand_fully(input, true, &Answers::new())
}

fn text(expansion: &str) -> Reply {
    Reply::Expansion(expansion.to_owned())
}

#[test]
fn term_eats_the_shorthand_and_emits_prefix_and_expansion() {
    assert_eq!(all(&term("co", " ", "checkout", None), "co"), text(" checkout"));
    assert_eq!(all(&term("co", " ", "checkout", None), "c"), Reply::NoMatch);
    let with_child = term("n", " -n", "", Some(number(" ")));
    assert_eq!(all(&with_child, "n5"), text(" -n 5"));
    assert_eq!(all(&with_child, "n"), Reply::NoMatch);
}

#[test]
fn noneat_only_emits() {
    assert_eq!(all(&noneat("=", "%"), ""), text("=%"));
    assert_eq!(all(&noneat("=", "%"), "x"), Reply::NoMatch);
}

#[test]
fn numbers_carry_their_prefix() {
    assert_eq!(all(&number("="), "12"), text("=12"));
    assert_eq!(all(&number("="), ""), Reply::NoMatch);
    assert_eq!(all(&number_or_zero("="), "12"), text("=12"));
    assert_eq!(all(&number_or_zero("="), ""), text("=0"));
}

#[test]
fn specific_terms() {
    assert_eq!(all(&flag("a", "all"), "a"), text(" --all"));
    assert_eq!(all(&shortflag("t", "t"), "t"), text(" -t"));
    assert_eq!(all(&param_variant("d", "direct"), "d"), text("=direct"));
    assert_eq!(all(&subcmd("a", "add", opt(flag("f", "force"))), "af"), text(" add --force"));
    assert_eq!(all(&param("u", "unified", number("=")), "u3"), text(" --unified=3"));
    assert_eq!(all(&param("u", "unified", number("=")), "u"), Reply::NoMatch);
}

#[test]
fn set_tries_each_node_once_in_order() {
    let node = git_gud::nodes::set(&[&flag("a", "amend"), &flag("A", "all")]);
    assert_eq!(all(&node, "aA"), text(" --amend --all"));
    assert_eq!(all(&node, "A"), text(" --all"));
    assert_eq!(all(&node, ""), text(""));
    assert_eq!(all(&node, "Aa"), Reply::NoMatch);
    assert_eq!(all(&node, "aa"), Reply::NoMatch);
}

#[test]
fn lists_keep_their_order() {
    let first = term("a", "", "1", None);
    let second = term("a", "", "2", None);
    assert_eq!(all(&or(&[&first, &second]), "a"), text("1"));
    assert_eq!(all(&git_gud::nodes::seq(&[&first, &second]), "aa"), text("12"));
    assert_eq!(all(&git_gud::nodes::seq(&[]), ""), text(""));
    assert_eq!(all(&or(&[]), ""), Reply::NoMatch);
}

#[test]
fn local_target_counts_back_from_the_head() {
    assert_eq!(all(&local_target(), "-"), text(" HEAD~"));
    assert_eq!(all(&local_target(), "-3"), text(" HEAD~3"));
    assert_eq!(all(&local_target(), ""), Reply::NoMatch);
}

#[test]
fn term_commands_expand() {
    let ast = ast();
    assert_eq!(all(&ast, "a"), text(" add"));
    assert_eq!(all(&ast, "ca"), text(" commit --amend"));
    assert_eq!(all(&ast, "cam"), text(" commit --amend --message=%"));
    assert_eq!(all(&ast, "caA"), text(" commit --amend --all"));
    assert_eq!(all(&ast, "cAa"), Reply::NoMatch);
    assert_eq!(all(&ast, "bll"), text(" blame -L %"));
    assert_eq!(all(&ast, "blt"), text(" blame -t"));
    assert_eq!(all(&ast, "du3"), text(" diff --unified=3"));
    assert_eq!(all(&ast, "du"), Reply::NoMatch);
    assert_eq!(all(&ast, "d-2"), text(" diff HEAD~2"));
    assert_eq!(all(&ast, "bt"), text(" branch --track"));
    assert_eq!(all(&ast, "btd"), text(" branch --track=direct"));
    assert_eq!(all(&ast, "ea"), text(" rebase --abort"));
    assert_eq!(all(&ast, "ei-1"), text(" rebase --interactive HEAD~1"));
    assert_eq!(all(&ast, "m"), text(" merge"));
    assert_eq!(all(&ast, "z"), text(" stash"));
    assert_eq!(all(&ast, "y"), Reply::NoMatch);
    assert_eq!(all(&ast, ""), Reply::NoMatch);
}
