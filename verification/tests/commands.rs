use git_gud::cli::{run, Action, Cli, Sub};
use git_gud::grammar::ast;
use git_gud::model::Source;
use git_gud::tree::{Answers, Reply};

fn expanded(expr: &str) -> Reply {
    ast().expand_fully(expr, true, &Answers::new())
}

fn text(expansion: &str) -> Reply {
    Reply::Expansion(expansion.to_owned())
}

#[test]
fn a_key_alone_is_its_command() {
    for (expr, command) in [
        ("a", "add"),
        ("bl", "blame"),
        ("b", "branch"),
        ("c", "commit"),
        ("d", "diff"),
        ("e", "rebase"),
        ("f", "fetch"),
        ("g", "checkout"),
        ("i", "init"),
        ("k", "clone"),
        ("l", "log"),
        ("m", "merge "),
        ("p", "push"),
        ("q", "status"),
        ("r", "reset"),
        ("s", "switch"),
        ("t", "tag"),
        ("u", "restore"),
        ("v", "show"),
        ("x", "clean"),
        ("y", "pull"),
        ("z", "stash"),
    ] {
        assert_eq!(expanded(expr), text(command), "{expr}");
    }
}

#[test]
fn commands_that_need_a_subcommand() {
    assert_eq!(expanded("w"), Reply::NoMatch);
    assert_eq!(expanded("wa"), text("worktree add"));
    assert_eq!(expanded("wmf"), text("worktree move --force"));
    assert_eq!(expanded("rl"), Reply::NoMatch);
    assert_eq!(expanded("rll"), text("reflog list"));
    assert_eq!(expanded("rlxa"), text("reflog expire--all"));
}

#[test]
fn unknown_expressions_do_not_expand() {
    assert_eq!(expanded(""), Reply::NoMatch);
    assert_eq!(expanded("h"), Reply::NoMatch);
    assert_eq!(expanded("A"), Reply::NoMatch);
    assert_eq!(expanded("ca!"), Reply::NoMatch);
    assert_eq!(expanded("caa"), Reply::NoMatch);
}

#[test]
fn flags_follow_the_key() {
    assert_eq!(expanded("ca"), text("commit --amend"));
    assert_eq!(expanded("cad"), text("commit --amend --dry-run"));
    assert_eq!(expanded("cda"), text("commit --dry-run --amend"));
    assert_eq!(expanded("af"), text("add --force"));
    assert_eq!(expanded("a-a"), text("add --no-all"));
    assert_eq!(expanded("a."), text("add ."));
    assert_eq!(expanded("af,/"), text("add --force :/"));
    assert_eq!(expanded("pf"), text("push --force-with-lease"));
    assert_eq!(expanded("pff"), text("push --force"));
    assert_eq!(expanded("xxx"), text("clean -xX"));
    assert_eq!(expanded("rh"), text("reset --hard"));
    assert_eq!(expanded("ea"), text("rebase --abort"));
    assert_eq!(expanded("zpa"), text("stash push --all"));
    assert_eq!(expanded("bls"), text("blame -s"));
    assert_eq!(expanded("bll"), text("blame -L %"));
}

#[test]
fn parameters_take_values() {
    assert_eq!(expanded("du3"), text("diff --unified=3"));
    assert_eq!(expanded("du"), text("diff --unified=0"));
    assert_eq!(expanded("ln5"), text("log --max-count=5"));
    assert_eq!(expanded("ln"), text("log --max-count=%"));
    assert_eq!(expanded("ld"), text("log --decorate"));
    assert_eq!(expanded("lds"), text("log --decorate=short"));
    assert_eq!(expanded("ld_"), text("log --decorate=%"));
    assert_eq!(expanded("cm"), text("commit --message=\"%\""));
    assert_eq!(expanded("io1"), text("init --object-format=sha1"));
    assert_eq!(expanded("kd3"), text("clone --depth=3"));
    assert_eq!(expanded("kdd"), text("clone --depth=% --dissociate=%"));
    assert_eq!(expanded("ddah"), text("diff --diff-algorithm=histogram"));
    assert_eq!(expanded("lff"), text("log --pretty=full"));
    assert_eq!(expanded("lfff"), text("log --pretty=fuller"));
}

#[test]
fn revisions_by_distance() {
    assert_eq!(expanded("d-"), text("diff HEAD~"));
    assert_eq!(expanded("d-2"), text("diff HEAD~2"));
    assert_eq!(expanded("d@3"), text("diff HEAD@{3}"));
    assert_eq!(expanded("d@"), Reply::NoMatch);
    assert_eq!(expanded("dh-1"), text("diff HEAD HEAD~1"));
    assert_eq!(expanded("gh"), text("checkout HEAD"));
}

#[test]
fn targets_from_the_repository() {
    assert_eq!(expanded("gc"), Reply::Ask(Source::CurrentBranch));
    assert_eq!(expanded("gm"), text("checkout --merge"));
    assert_eq!(expanded("g,m"), Reply::Ask(Source::MainBranch));
    assert_eq!(expanded("go"), Reply::Ask(Source::MainRemoteHead));
    assert_eq!(expanded("gu"), Reply::Ask(Source::CurrentUpstream));
    assert_eq!(expanded("pc"), Reply::Ask(Source::CurrentRemote));
    assert_eq!(expanded("po"), Reply::Ask(Source::MainRemote));

    let mut answers = Answers::new();
    answers.record(Source::CurrentBranch, Some("topic".to_owned()));
    assert_eq!(ast().expand_fully("gc", true, &answers), text("checkout topic"));
    assert_eq!(ast().expand_fully("pc", true, &answers), Reply::Ask(Source::CurrentRemote));
    answers.record(Source::CurrentRemote, Some("fork".to_owned()));
    assert_eq!(ast().expand_fully("pc", true, &answers), text("push fork"));
    assert_eq!(ast().expand_fully("pcc", true, &answers), text("push fork topic"));
    answers.record(Source::MainRemote, None);
    assert_eq!(ast().expand_fully("po", true, &answers), Reply::NoMatch);
    answers.record(Source::CurrentBranch, None);
    assert_eq!(ast().expand_fully("gc", true, &answers), Reply::NoMatch);
}

fn expand_command(expr: &str) -> Cli {
    Cli { subcommand: Sub::Expand { expr: expr.to_owned() } }
}

#[test]
fn run_prints_the_trimmed_expansion() {
    let none = Answers::new();
    assert_eq!(run(&expand_command("ca"), &none), Action::Print("commit --amend".to_owned()));
    assert_eq!(run(&expand_command("m"), &none), Action::Print("merge".to_owned()));
}

#[test]
fn run_fails_without_an_expansion() {
    let none = Answers::new();
    assert_eq!(run(&expand_command("h"), &none), Action::Fail);
    assert_eq!(run(&expand_command(""), &none), Action::Fail);
    assert_eq!(run(&expand_command("caX"), &none), Action::Fail);
}

#[test]
fn run_asks_for_what_it_needs() {
    let mut answers = Answers::new();
    assert_eq!(run(&expand_command("g,m"), &answers), Action::Ask(Source::MainBranch));
    answers.record(Source::MainBranch, Some("main".to_owned()));
    assert_eq!(run(&expand_command("g,m"), &answers), Action::Print("checkout main".to_owned()));
}

#[test]
fn run_installs() {
    assert_eq!(run(&Cli { subcommand: Sub::Installer }, &Answers::new()), Action::Install);
}
