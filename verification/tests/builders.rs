use git_gud::model::Source;
use git_gud::tree::{
    arg, argset, eat, emit, f, fail, flag, map_custom, number, opt, param, param_opt, prefix,
    prefix_set, word, Answers, Node, Reply, CURSOR,
};

fn all(node: &Node, input: &str) -> Reply {
    node.expand_fully(input, true, &Answers::new())
}

fn text(expansion: &str) -> Reply {
    Reply::Expansion(expansion.to_owned())
}

#[test]
fn word_maps_a_shorthand_to_its_text() {
    assert_eq!(all(&word("co", "checkout"), "co"), text("checkout"));
    assert_eq!(all(&word("co", "checkout"), "c"), Reply::NoMatch);
}

#[test]
fn map_eats_then_matches() {
    assert_eq!(all(&git_gud::tree::map("n", number()), "n12"), text("12"));
    assert_eq!(all(&git_gud::tree::map("n", number()), "12"), Reply::NoMatch);
    assert_eq!(all(&git_gud::tree::map("n", number()), "n"), Reply::NoMatch);
}

#[test]
fn prefix_and_arg_emit_in_front() {
    assert_eq!(all(&prefix("=", number()), "5"), text("=5"));
    assert_eq!(all(&prefix("=", number()), "x"), Reply::NoMatch);
    assert_eq!(all(&arg(word("h", "HEAD")), "h"), text(" HEAD"));
}

#[test]
fn flags_get_their_dashes() {
    assert_eq!(all(&flag("a", "all"), "a"), text("--all"));
    assert_eq!(all(&f("x", "X"), "x"), text("-X"));
}

#[test]
fn opt_matches_its_node_or_nothing() {
    assert_eq!(all(&opt(word("a", "A")), "a"), text("A"));
    assert_eq!(all(&opt(word("a", "A")), ""), text(""));
    assert_eq!(all(&opt(word("a", "A")), "aa"), Reply::NoMatch);
}

#[test]
fn prefix_set_puts_the_prefix_in_front_of_each() {
    let node = prefix_set(", ", [word("a", "A"), word("b", "B")]);
    assert_eq!(all(&node, "ba"), text(", B, A"));
    assert_eq!(all(&node, ""), text(""));
    assert_eq!(all(&argset([flag("v", "verbose"), f("q", "q")]), "qv"), text(" -q --verbose"));
    assert_eq!(all(&argset([]), ""), text(""));
}

#[test]
fn map_custom_takes_its_text_from_the_source() {
    let node = map_custom("c", Source::CurrentBranch);
    assert_eq!(all(&node, "c"), Reply::Ask(Source::CurrentBranch));
    assert_eq!(all(&node, "x"), Reply::NoMatch);
    let mut answers = Answers::new();
    answers.record(Source::CurrentBranch, Some("main".to_owned()));
    assert_eq!(node.expand_fully("c", true, &answers), text("main"));
    answers.record(Source::CurrentBranch, None);
    assert_eq!(node.expand_fully("c", true, &answers), Reply::NoMatch);
}

#[test]
fn param_marks_the_cursor_where_the_value_is_missing() {
    assert_eq!(CURSOR, "%");
    let node = param("d", "depth", number());
    assert_eq!(all(&node, "d3"), text("--depth=3"));
    assert_eq!(all(&node, "d"), text("--depth=%"));
    assert_eq!(all(&node, "x"), Reply::NoMatch);
}

#[test]
fn param_opt_may_go_without_a_value() {
    let node = param_opt("d", "decorate", word("s", "short"));
    assert_eq!(all(&node, "d"), text("--decorate"));
    assert_eq!(all(&node, "ds"), text("--decorate=short"));
    assert_eq!(all(&node, "d_"), text("--decorate=%"));
    assert_eq!(all(&node, "dx"), Reply::NoMatch);
    let never = param_opt("g", "gpg-sign", fail());
    assert_eq!(all(&never, "g"), text("--gpg-sign"));
    assert_eq!(all(&never, "g_"), text("--gpg-sign=%"));
}

#[test]
fn leaves_are_the_variants() {
    assert!(matches!(eat("a"), Node::EatLiteral("a")));
    assert!(matches!(emit("a"), Node::EmitLiteral("a")));
    assert!(matches!(number(), Node::Number));
    assert!(matches!(git_gud::tree::end_of_line(), Node::EndOfLine));
    assert!(matches!(git_gud::tree::external(Source::MainRemote), Node::External(Source::MainRemote)));
    assert!(matches!(fail(), Node::Alternation(children) if children.is_empty()));
    assert!(matches!(
        git_gud::tree::set([number()]),
        Node::RepeatedChoice { children, require_one: false } if children.len() == 1
    ));
}
