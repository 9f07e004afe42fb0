use git_gud::helpers::{
    branches, current_branch, current_remote, current_remote_head, current_upstream,
    default_remote, main_branch, main_remote, main_remote_head, remote_head, remotes, resolve,
    tracked_remote, upstream, Next,
};
use git_gud::model::Source;

fn words(args: &[&str]) -> Vec<String> {
    args.iter().map(|word| word.to_string()).collect()
}

fn said(replies: &[Option<&str>]) -> Vec<Option<String>> {
    replies.iter().map(|reply| reply.map(str::to_owned)).collect()
}

fn found(answer: &str) -> Next {
    Next::Done(Some(answer.to_owned()))
}

#[test]
fn queries_are_spelled_out() {
    assert_eq!(current_branch(), words(&["branch", "--show-current"]));
    assert_eq!(upstream("topic"), words(&["rev-parse", "--abbrev-ref", "topic@{upstream}"]));
    assert_eq!(
        tracked_remote("topic"),
        words(&["branch", "--list", "--format=%(upstream:remotename)", "topic"])
    );
    assert_eq!(default_remote(), words(&["config", "get", "checkout.defaultRemote"]));
    assert_eq!(remotes(), words(&["remote"]));
    assert_eq!(remote_head("fork"), words(&["symbolic-ref", "--short", "refs/remotes/fork/HEAD"]));
    assert_eq!(
        branches(),
        words(&["for-each-ref", "--format=%(refname:short) %(upstream:short)"])
    );
}

#[test]
fn main_branch_is_the_first_that_tracks_the_head() {
    let listing = "dev origin/dev\nmain origin/main\nother origin/main";
    assert_eq!(main_branch("origin/main", listing), Some("main".to_owned()));
    assert_eq!(main_branch("origin/dev", listing), Some("dev".to_owned()));
    assert_eq!(main_branch("origin/none", listing), None);
    assert_eq!(main_branch("origin/main", ""), None);
    assert_eq!(main_branch("origin/main", "main origin/main\n"), Some("main".to_owned()));
}

#[test]
fn main_branch_splits_at_the_first_blank() {
    assert_eq!(main_branch("origin/main", "orphan\nmain origin/main"), Some("main".to_owned()));
    assert_eq!(main_branch("b c", "a b c"), Some("a".to_owned()));
    assert_eq!(main_branch("c", "a b c"), None);
    assert_eq!(main_branch("", "local \nmain up"), Some("local".to_owned()));
    assert_eq!(main_branch("", "local"), None);
    assert_eq!(main_branch("up", " up"), Some("".to_owned()));
}

#[test]
fn main_branch_reads_both_line_endings() {
    assert_eq!(main_branch("up", "a x\r\nb up\r\nc up"), Some("b".to_owned()));
    assert_eq!(main_branch("up", "a up\r"), None);
    assert_eq!(main_branch("up\r", "a up\r"), Some("a".to_owned()));
    assert_eq!(main_branch("up", "\n\nb up"), Some("b".to_owned()));
}

#[test]
fn main_remote_prefers_origin() {
    assert_eq!(main_remote("fork\norigin\nupstream"), Some("origin".to_owned()));
    assert_eq!(main_remote("origin"), Some("origin".to_owned()));
    assert_eq!(main_remote("fork\r\norigin\r\n"), Some("origin".to_owned()));
}

#[test]
fn main_remote_falls_back_to_the_first() {
    assert_eq!(main_remote("fork\nupstream"), Some("fork".to_owned()));
    assert_eq!(main_remote("origins\nforigin"), Some("origins".to_owned()));
    assert_eq!(main_remote("fork\r\nupstream"), Some("fork".to_owned()));
    assert_eq!(main_remote("\nfork"), Some("".to_owned()));
    assert_eq!(main_remote(""), None);
}

#[test]
fn current_branch_takes_one_query() {
    assert_eq!(resolve(Source::CurrentBranch, &said(&[])), Next::Run(current_branch()));
    assert_eq!(resolve(Source::CurrentBranch, &said(&[Some("topic")])), found("topic"));
    assert_eq!(resolve(Source::CurrentBranch, &said(&[None])), Next::Done(None));
}

#[test]
fn current_upstream_asks_for_the_branch_first() {
    assert_eq!(current_upstream(&said(&[])), Next::Run(current_branch()));
    assert_eq!(current_upstream(&said(&[None])), Next::Done(None));
    assert_eq!(current_upstream(&said(&[Some("topic")])), Next::Run(upstream("topic")));
    assert_eq!(current_upstream(&said(&[Some("topic"), Some("fork/topic")])), found("fork/topic"));
    assert_eq!(current_upstream(&said(&[Some("topic"), None])), Next::Done(None));
    assert_eq!(
        resolve(Source::CurrentUpstream, &said(&[Some("topic")])),
        Next::Run(upstream("topic"))
    );
}

#[test]
fn current_remote_asks_for_the_branch_first() {
    assert_eq!(current_remote(&said(&[])), Next::Run(current_branch()));
    assert_eq!(current_remote(&said(&[None])), Next::Done(None));
    assert_eq!(current_remote(&said(&[Some("topic")])), Next::Run(tracked_remote("topic")));
    assert_eq!(current_remote(&said(&[Some("topic"), Some("fork")])), found("fork"));
    assert_eq!(
        resolve(Source::CurrentRemote, &said(&[Some("topic"), Some("fork")])),
        found("fork")
    );
}

#[test]
fn main_remote_is_the_default_or_the_preferred() {
    let source = Source::MainRemote;
    assert_eq!(resolve(source, &said(&[])), Next::Run(default_remote()));
    assert_eq!(resolve(source, &said(&[Some("mine")])), found("mine"));
    assert_eq!(resolve(source, &said(&[None])), Next::Run(remotes()));
    assert_eq!(resolve(source, &said(&[None, None])), Next::Done(None));
    assert_eq!(resolve(source, &said(&[None, Some("")])), Next::Done(None));
    assert_eq!(resolve(source, &said(&[None, Some("fork\norigin")])), found("origin"));
    assert_eq!(resolve(source, &said(&[None, Some("fork\nother")])), found("fork"));
}

#[test]
fn main_remote_head_follows_the_main_remote() {
    assert_eq!(main_remote_head(&said(&[])), Next::Run(default_remote()));
    assert_eq!(main_remote_head(&said(&[None])), Next::Run(remotes()));
    assert_eq!(main_remote_head(&said(&[None, None])), Next::Done(None));
    assert_eq!(main_remote_head(&said(&[Some("mine")])), Next::Run(remote_head("mine")));
    assert_eq!(main_remote_head(&said(&[None, Some("a\nb")])), Next::Run(remote_head("a")));
    assert_eq!(main_remote_head(&said(&[Some("mine"), Some("mine/main")])), found("mine/main"));
    assert_eq!(main_remote_head(&said(&[None, Some("a"), None])), Next::Done(None));
    assert_eq!(
        current_remote_head(&said(&[Some("mine")])),
        main_remote_head(&said(&[Some("mine")]))
    );
    assert_eq!(
        resolve(Source::MainRemoteHead, &said(&[Some("mine")])),
        Next::Run(remote_head("mine"))
    );
}

#[test]
fn main_branch_follows_the_head_of_the_main_remote() {
    let source = Source::MainBranch;
    assert_eq!(resolve(source, &said(&[])), Next::Run(default_remote()));
    assert_eq!(resolve(source, &said(&[Some("origin")])), Next::Run(remote_head("origin")));
    assert_eq!(resolve(source, &said(&[Some("origin"), None])), Next::Done(None));
    assert_eq!(resolve(source, &said(&[Some("origin"), Some("origin/main")])), Next::Run(branches()));
    assert_eq!(
        resolve(source, &said(&[Some("origin"), Some("origin/main"), None])),
        Next::Done(None)
    );
    let listing = "dev origin/dev\ntrunk origin/main";
    assert_eq!(
        resolve(source, &said(&[Some("origin"), Some("origin/main"), Some(listing)])),
        found("trunk")
    );
    assert_eq!(
        resolve(source, &said(&[None, Some("origin"), Some("origin/main"), Some(listing)])),
        found("trunk")
    );
    assert_eq!(
        resolve(source, &said(&[Some("origin"), Some("origin/next"), Some(listing)])),
        Next::Done(None)
    );
}
