use git_gud::model::Source;
use git_gud::tree::{eat, emit, number, word, Answers, Node, Reply, Step};

/// `a` for `add`, then the flags `f` and `v` in any order.
fn add_with_flags() -> Node {
    git_gud::tree::seq([
        eat("a"),
        emit("add"),
        git_gud::tree::set([word("f", " --force"), word("v", " --verbose")]),
    ])
}

#[test]
fn flags_in_declared_order() {
    let mut output = String::new();
    let step = add_with_flags().expand("afv", true, &Answers::new(), &mut output);
    assert_eq!(step, Step::Match(""));
    assert_eq!(output, "add --force --verbose");
}

#[test]
fn flags_in_reverse_order_are_emitted_as_they_are_consumed() {
    let mut output = String::new();
    let step = add_with_flags().expand("avf", true, &Answers::new(), &mut output);
    assert_eq!(step, Step::Match(""));
    assert_eq!(output, "add --verbose --force");
}

#[test]
fn unmatched_tail_is_left_and_rejected_as_a_whole() {
    let node = add_with_flags();
    let mut output = String::new();
    assert_eq!(node.expand("az", true, &Answers::new(), &mut output), Step::Match("z"));
    assert_eq!(output, "add");
    assert_eq!(node.expand_fully("az", true, &Answers::new()), Reply::NoMatch);
}

#[test]
fn number_takes_the_digit_run() {
    let mut output = String::new();
    let step = number().expand("42abc", false, &Answers::new(), &mut output);
    assert_eq!(step, Step::Match("abc"));
    assert_eq!(output, "42");
}

#[test]
fn failed_sequence_leaves_the_output_alone() {
    let mut output = String::from("kept");
    let node = git_gud::tree::seq([eat("x"), eat("y")]);
    assert_eq!(node.expand("xz", true, &Answers::new(), &mut output), Step::NoMatch);
    assert_eq!(output, "kept");
}

#[test]
fn failed_sequence_takes_back_what_it_emitted() {
    let mut output = String::from("kept");
    let node = git_gud::tree::seq([eat("x"), emit(" emitted"), eat("y")]);
    assert_eq!(node.expand("xz", true, &Answers::new(), &mut output), Step::NoMatch);
    assert_eq!(output, "kept");
}

#[test]
fn external_without_an_answer_fails_on_every_input() {
    let mut answers = Answers::new();
    answers.record(Source::CurrentBranch, None);
    let node = Node::External(Source::CurrentBranch);
    for input in ["", "abc", "42", "c"] {
        let mut output = String::from("kept");
        assert_eq!(node.expand(input, true, &answers, &mut output), Step::NoMatch);
        assert_eq!(output, "kept");
    }
}
