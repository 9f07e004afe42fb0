use git_gud::tree::{eat, emit, flag, number, number_or_zero, opt, or, param, word, Node};
use itertools::Itertools;

/// Every shorthand that `node` accepts behind `head`, one entry for each way
/// of accepting it. A number stands in with the single digit `0`.
fn enumerate_shorthand_helper(node: &Node, mut head: String) -> Vec<String> {
    match node {
        Node::EndOfLine => vec![head],
        Node::EatLiteral(shorthand) => {
            head.push_str(shorthand);
            vec![head]
        }
        Node::EmitLiteral(_) => vec![head],
        Node::Number => {
            head.push('0');
            vec![head]
        }
        Node::External(_) => vec![head],
        Node::Alternation(nodes) => {
            let mut heads = vec![];
            for node in nodes {
                heads.extend(enumerate_shorthand_helper(node, head.clone()));
            }
            heads
        }
        Node::Sequence(nodes) => enumerate_in_turn(nodes.iter(), head),
        Node::RepeatedChoice { children, require_one } => {
            let mut heads = vec![];
            for set in children.iter().powerset() {
                let k = set.len();
                if k == 0 && *require_one {
                    continue;
                }
                for perm in set.into_iter().permutations(k) {
                    heads.extend(enumerate_in_turn(perm.into_iter(), head.clone()));
                }
            }
            heads
        }
    }
}

/// The shorthands of `nodes` accepted one after the other behind `head`.
fn enumerate_in_turn<'a>(nodes: impl Iterator<Item = &'a Node>, head: String) -> Vec<String> {
    let mut heads = vec![head];
    let mut buffer = vec![];
    for node in nodes {
        for head in heads.drain(..) {
            buffer.extend(enumerate_shorthand_helper(node, head));
        }
        std::mem::swap(&mut heads, &mut buffer);
    }
    heads
}

fn enumerate_shorthand(node: &Node) -> Vec<String> {
    enumerate_shorthand_helper(node, "".to_owned())
}

/// A small command: a key, flags in any order, a choice of depth and an
/// optional target.
fn sample() -> Node {
    git_gud::tree::seq([
        emit("fetch"),
        git_gud::tree::argset([
            flag("4", "ipv4"),
            flag("6", "ipv6"),
            flag("a", "all"),
            flag("-a", "no-all"),
            param("d", "depth", number()),
        ]),
        opt(or([eat(","), eat("/")])),
        opt(or([word(".", "."), git_gud::tree::seq([word("-", "HEAD~"), number_or_zero()])])),
    ])
}

#[test]
fn nonambiguity() {
    let mut all_commands = enumerate_shorthand(&git_gud::tree::map("f", sample()));
    all_commands.extend(enumerate_shorthand(&git_gud::ast::local_target()));
    let len = all_commands.len();
    all_commands.sort();
    all_commands.dedup();
    println!("{all_commands:?}");
    assert_eq!(len, all_commands.len(), "grammar shouldn't be ambiguous");
}

#[test]
fn ambiguity_is_found() {
    let twice = git_gud::tree::set([flag("v", "verbose"), flag("v", "verbose")]);
    let mut all_commands = enumerate_shorthand(&twice);
    let len = all_commands.len();
    all_commands.sort();
    all_commands.dedup();
    assert_eq!(len, 5);
    assert_eq!(all_commands, vec!["".to_owned(), "v".to_owned(), "vv".to_owned()]);
}
