use git_gud::model::Source;
use git_gud::tree::{
    eat, emit, end_of_line, external, number, number_or_zero, opt, or, word, Answers, Node, Reply,
    Step,
};

fn expand<'a>(node: &Node, input: &'a str, eol: bool) -> (Step<'a>, String) {
    let mut output = String::from("<");
    let step = node.expand(input, eol, &Answers::new(), &mut output);
    (step, output)
}

#[test]
fn end_of_line_needs_an_empty_rest_and_the_flag() {
    assert_eq!(expand(&end_of_line(), "", true), (Step::Match(""), "<".to_owned()));
    assert_eq!(expand(&end_of_line(), "", false), (Step::NoMatch, "<".to_owned()));
    assert_eq!(expand(&end_of_line(), "x", true), (Step::NoMatch, "<".to_owned()));
    assert_eq!(expand(&end_of_line(), "x", false), (Step::NoMatch, "<".to_owned()));
}

#[test]
fn eat_strips_the_literal_and_emits_nothing() {
    assert_eq!(expand(&eat("ab"), "abc", false), (Step::Match("c"), "<".to_owned()));
    assert_eq!(expand(&eat("ab"), "ab", false), (Step::Match(""), "<".to_owned()));
    assert_eq!(expand(&eat(""), "abc", false), (Step::Match("abc"), "<".to_owned()));
}

#[test]
fn eat_is_exact() {
    assert_eq!(expand(&eat("ab"), "Abc", false), (Step::NoMatch, "<".to_owned()));
    assert_eq!(expand(&eat("ab"), "a", false), (Step::NoMatch, "<".to_owned()));
    assert_eq!(expand(&eat("ab"), "", false), (Step::NoMatch, "<".to_owned()));
    assert_eq!(expand(&eat("ab"), "cab", false), (Step::NoMatch, "<".to_owned()));
    assert_eq!(expand(&eat("é"), "e", false), (Step::NoMatch, "<".to_owned()));
    assert_eq!(expand(&eat("é"), "éa", false), (Step::Match("a"), "<".to_owned()));
}

#[test]
fn emit_always_matches_and_consumes_nothing() {
    assert_eq!(expand(&emit(" --all"), "rest", false), (Step::Match("rest"), "< --all".to_owned()));
    assert_eq!(expand(&emit("x"), "", true), (Step::Match(""), "<x".to_owned()));
    assert_eq!(expand(&emit(""), "a", true), (Step::Match("a"), "<".to_owned()));
}

#[test]
fn number_needs_a_digit() {
    assert_eq!(expand(&number(), "abc", false), (Step::NoMatch, "<".to_owned()));
    assert_eq!(expand(&number(), "", false), (Step::NoMatch, "<".to_owned()));
    assert_eq!(expand(&number(), "-1", false), (Step::NoMatch, "<".to_owned()));
    assert_eq!(expand(&number(), "٣", false), (Step::NoMatch, "<".to_owned()));
}

#[test]
fn number_takes_the_longest_run() {
    assert_eq!(expand(&number(), "007", false), (Step::Match(""), "<007".to_owned()));
    assert_eq!(expand(&number(), "1a2", false), (Step::Match("a2"), "<1".to_owned()));
    assert_eq!(expand(&number(), "9é", false), (Step::Match("é"), "<9".to_owned()));
}

#[test]
fn number_or_zero_defaults_to_zero() {
    assert_eq!(expand(&number_or_zero(), "abc", false), (Step::Match("abc"), "<0".to_owned()));
    assert_eq!(expand(&number_or_zero(), "12abc", false), (Step::Match("abc"), "<12".to_owned()));
}

#[test]
fn external_asks_while_the_answer_is_unknown() {
    let node = external(Source::MainBranch);
    let mut output = String::from("<");
    assert_eq!(
        node.expand("abc", true, &Answers::new(), &mut output),
        Step::Ask(Source::MainBranch)
    );
    assert_eq!(output, "<");
}

#[test]
fn external_emits_its_answer_and_consumes_nothing() {
    let mut answers = Answers::new();
    answers.record(Source::MainBranch, Some("trunk".to_owned()));
    let node = external(Source::MainBranch);
    let mut output = String::from("<");
    assert_eq!(node.expand("abc", false, &answers, &mut output), Step::Match("abc"));
    assert_eq!(output, "<trunk");
    let mut other = String::new();
    assert_eq!(
        external(Source::MainRemote).expand("abc", false, &answers, &mut other),
        Step::Ask(Source::MainRemote)
    );
}

#[test]
fn alternation_takes_the_first_child_that_matches() {
    let node = or([word("a", "first"), word("a", "second"), word("ab", "third")]);
    assert_eq!(expand(&node, "abc", false), (Step::Match("bc"), "<first".to_owned()));
    let node = or([word("x", "first"), word("ab", "second"), word("a", "third")]);
    assert_eq!(expand(&node, "abc", false), (Step::Match("c"), "<second".to_owned()));
}

#[test]
fn alternation_fails_when_every_child_fails() {
    let node = or([word("x", "first"), git_gud::tree::seq([emit("partial"), eat("y")])]);
    assert_eq!(expand(&node, "abc", false), (Step::NoMatch, "<".to_owned()));
    assert_eq!(expand(&git_gud::tree::fail(), "", true), (Step::NoMatch, "<".to_owned()));
    assert_eq!(expand(&git_gud::tree::fail(), "abc", true), (Step::NoMatch, "<".to_owned()));
}

#[test]
fn alternation_stops_at_a_child_that_asks() {
    let node = or([eat("x"), external(Source::CurrentBranch), emit("later")]);
    let mut output = String::from("<");
    assert_eq!(
        node.expand("abc", false, &Answers::new(), &mut output),
        Step::Ask(Source::CurrentBranch)
    );
    assert_eq!(output, "<");
}

#[test]
fn sequence_threads_the_input_and_the_output() {
    let node = git_gud::tree::seq([eat("a"), emit("1"), number(), emit("2"), eat("b")]);
    assert_eq!(expand(&node, "a42bc", false), (Step::Match("c"), "<1422".to_owned()));
    assert_eq!(expand(&git_gud::tree::seq([]), "abc", false), (Step::Match("abc"), "<".to_owned()));
}

#[test]
fn sequence_rolls_back_text_of_more_than_one_byte() {
    let mut output = String::from("é€");
    let node = git_gud::tree::seq([emit("ü𝄞"), eat("x"), emit("ß"), eat("y")]);
    assert_eq!(node.expand("xz", false, &Answers::new(), &mut output), Step::NoMatch);
    assert_eq!(output, "é€");
    assert_eq!(node.expand("xyz", false, &Answers::new(), &mut output), Step::Match("z"));
    assert_eq!(output, "é€ü𝄞ß");
}

#[test]
fn sequence_that_asks_leaves_the_output_alone() {
    let node = git_gud::tree::seq([emit("partial"), external(Source::MainRemote)]);
    let mut output = String::from("<");
    assert_eq!(
        node.expand("", true, &Answers::new(), &mut output),
        Step::Ask(Source::MainRemote)
    );
    assert_eq!(output, "<");
}

#[test]
fn repeated_choice_uses_no_child_twice() {
    let node = git_gud::tree::set([word("a", "A")]);
    assert_eq!(expand(&node, "aa", false), (Step::Match("a"), "<A".to_owned()));
    let node = git_gud::tree::set([emit("x")]);
    assert_eq!(expand(&node, "", false), (Step::Match(""), "<x".to_owned()));
}

#[test]
fn repeated_choice_starts_over_at_the_first_child() {
    let node = git_gud::tree::set([word("c", "C"), word("b", "B"), word("a", "A")]);
    assert_eq!(expand(&node, "abc", false), (Step::Match(""), "<ABC".to_owned()));
    assert_eq!(expand(&node, "cab", false), (Step::Match(""), "<CAB".to_owned()));
    assert_eq!(expand(&node, "bxa", false), (Step::Match("xa"), "<B".to_owned()));
}

#[test]
fn repeated_choice_prefers_the_earlier_child() {
    let node = git_gud::tree::set([word("a", "short"), word("ab", "long")]);
    assert_eq!(expand(&node, "ab", false), (Step::Match("b"), "<short".to_owned()));
    let node = git_gud::tree::set([word("ab", "long"), word("a", "short")]);
    assert_eq!(expand(&node, "aba", false), (Step::Match(""), "<longshort".to_owned()));
}

#[test]
fn repeated_choice_without_a_match_succeeds_unless_one_is_required() {
    let lenient = Node::RepeatedChoice { children: vec![word("a", "A")], require_one: false };
    assert_eq!(expand(&lenient, "x", false), (Step::Match("x"), "<".to_owned()));
    let strict = Node::RepeatedChoice { children: vec![word("a", "A")], require_one: true };
    assert_eq!(expand(&strict, "x", false), (Step::NoMatch, "<".to_owned()));
    assert_eq!(expand(&strict, "ax", false), (Step::Match("x"), "<A".to_owned()));
    let empty = Node::RepeatedChoice { children: vec![], require_one: true };
    assert_eq!(expand(&empty, "", true), (Step::NoMatch, "<".to_owned()));
}

#[test]
fn required_choice_counts_a_child_that_matches_nothing() {
    let strict = Node::RepeatedChoice { children: vec![opt(eat("a"))], require_one: true };
    assert_eq!(expand(&strict, "x", false), (Step::Match("x"), "<".to_owned()));
}

#[test]
fn repeated_choice_that_asks_takes_back_what_it_emitted() {
    let node = git_gud::tree::set([word("a", "A"), external(Source::CurrentRemote)]);
    let mut output = String::from("<");
    assert_eq!(
        node.expand("a", false, &Answers::new(), &mut output),
        Step::Ask(Source::CurrentRemote)
    );
    assert_eq!(output, "<");
}

#[test]
fn nested_failure_leaves_no_trace() {
    let node = git_gud::tree::seq([
        emit("one"),
        git_gud::tree::set([word("a", " two"), word("b", " three")]),
        or([git_gud::tree::seq([emit(" four"), eat("x")]), git_gud::tree::seq([emit(" five"), eat("y")])]),
    ]);
    assert_eq!(expand(&node, "baz", false), (Step::NoMatch, "<".to_owned()));
    assert_eq!(expand(&node, "bay", false), (Step::Match(""), "<one three two five".to_owned()));
}

#[test]
fn repeated_calls_agree() {
    let node = git_gud::tree::seq([
        eat("a"),
        git_gud::tree::set([word("f", " --force"), word("v", " --verbose")]),
        opt(number()),
    ]);
    for input in ["", "a", "avf12x", "afz", "b"] {
        assert_eq!(expand(&node, input, true), expand(&node, input, true));
        assert_eq!(
            node.expand_fully(input, true, &Answers::new()),
            node.expand_fully(input, true, &Answers::new())
        );
    }
}

#[test]
fn a_closed_node_does_not_look_at_the_answers() {
    let node = git_gud::tree::seq([eat("a"), opt(number()), emit("!")]);
    let mut answers = Answers::new();
    answers.record(Source::CurrentBranch, Some("main".to_owned()));
    answers.record(Source::MainRemote, None);
    for input in ["a", "a7", "x"] {
        let mut with = String::new();
        let mut without = String::new();
        assert_eq!(
            node.expand(input, false, &answers, &mut with),
            node.expand(input, false, &Answers::new(), &mut without)
        );
        assert_eq!(with, without);
    }
}

#[test]
fn expand_fully_wants_the_whole_input() {
    let node = git_gud::tree::seq([eat("a"), emit("add"), opt(word("v", " -v"))]);
    let none = Answers::new();
    assert_eq!(node.expand_fully("a", true, &none), Reply::Expansion("add".to_owned()));
    assert_eq!(node.expand_fully("av", true, &none), Reply::Expansion("add -v".to_owned()));
    assert_eq!(node.expand_fully("avv", true, &none), Reply::NoMatch);
    assert_eq!(node.expand_fully("", true, &none), Reply::NoMatch);
    assert_eq!(
        external(Source::MainBranch).expand_fully("", true, &none),
        Reply::Ask(Source::MainBranch)
    );
}

#[test]
fn end_of_line_tells_a_flag_from_a_longer_one() {
    let node = or([
        git_gud::tree::seq([eat("s"), end_of_line(), emit("--stat")]),
        git_gud::tree::seq([eat("s"), emit("--short")]),
    ]);
    let none = Answers::new();
    assert_eq!(node.expand_fully("s", true, &none), Reply::Expansion("--stat".to_owned()));
    assert_eq!(node.expand_fully("s", false, &none), Reply::Expansion("--short".to_owned()));
}

#[test]
fn a_copy_expands_like_the_node() {
    let node = git_gud::tree::seq([
        eat("a"),
        git_gud::tree::set([word("f", " --force"), word("v", " --verbose")]),
        or([number(), external(Source::MainBranch), end_of_line()]),
    ]);
    let copy = node.clone();
    for input in ["afv3", "av", "a", "x"] {
        assert_eq!(expand(&node, input, true), expand(&copy, input, true));
    }
}

#[test]
fn answers_keep_the_latest_record() {
    let mut answers = Answers::new();
    assert_eq!(answers.lookup(Source::CurrentBranch), None);
    answers.record(Source::CurrentBranch, None);
    assert_eq!(answers.lookup(Source::CurrentBranch), Some(None));
    assert_eq!(answers.lookup(Source::CurrentUpstream), None);
    answers.record(Source::CurrentBranch, Some("main".to_owned()));
    assert_eq!(answers.lookup(Source::CurrentBranch), Some(Some("main")));
    for source in [
        Source::CurrentUpstream,
        Source::MainBranch,
        Source::MainRemote,
        Source::MainRemoteHead,
        Source::CurrentRemote,
    ] {
        assert_eq!(answers.lookup(source), None);
        answers.record(source, Some(format!("{source:?}")));
        assert_eq!(answers.lookup(source).unwrap().unwrap(), format!("{source:?}"));
    }
    assert_eq!(answers.lookup(Source::CurrentBranch), Some(Some("main")));
}
