//! The values that a grammar takes from the repository it is used in.
//!
//! Each value is found by a short dialogue with the version-control tool. The
//! library decides which query comes next and what the replies mean; running
//! a query is left to the program around it, which hands back what the tool
//! printed, trimmed, or `None` when the tool failed.

use crate::model::Source;
use crate::text::chars_of;
use vstd::prelude::*;
use vstd::string::*;

verus! {

/// Index of the first line feed of `text` at or behind `from`, or the length
/// of `text` when there is none.
pub open spec fn line_end(text: Seq<char>, from: int) -> int
    decreases text.len() - from,
{
    if from >= text.len() {
        text.len() as int
    } else if text[from] == '\n' {
        from
    } else {
        line_end(text, from + 1)
    }
}

/// The end of a line lies between its start and the end of the text, and no
/// line feed stands in front of it.
pub proof fn lemma_line_end(text: Seq<char>, from: int)
    requires
        0 <= from <= text.len(),
    ensures
        from <= line_end(text, from) <= text.len(),
        forall|i: int| from <= i < line_end(text, from) ==> text[i] != '\n',
        line_end(text, from) < text.len() ==> text[line_end(text, from)] == '\n',
    decreases text.len() - from,
{
    if from < text.len() && text[from] != '\n' {
        lemma_line_end(text, from + 1);
    }
}

/// Where the content of the line from `from` to `end` stops: in front of a
/// carriage return that a line feed follows, else at `end`.
pub open spec fn content_end(text: Seq<char>, from: int, end: int) -> int {
    if end < text.len() && from < end && text[end - 1] == '\r' {
        end - 1
    } else {
        end
    }
}

/// Index of the first blank of `text` in `from..to`, or `to` when there is
/// none.
pub open spec fn first_blank(text: Seq<char>, from: int, to: int) -> int
    decreases to - from,
{
    if from >= to {
        to
    } else if text[from] == ' ' {
        from
    } else {
        first_blank(text, from + 1, to)
    }
}

/// The branch whose upstream is `head`, in a listing that holds one branch
/// and its upstream per line with a blank between them: the branch of the
/// first such line at or behind `from`. Lines without a blank are passed
/// over.
pub open spec fn tracking_branch_from(listing: Seq<char>, head: Seq<char>, from: int) -> Option<
    Seq<char>,
>
    decreases listing.len() - from,
{
    if from < 0 || from >= listing.len() {
        None
    } else {
        let end = line_end(listing, from);
        let stop = content_end(listing, from, end);
        let blank = first_blank(listing, from, stop);
        if blank < stop && listing.subrange(blank + 1, stop) == head {
            Some(listing.subrange(from, blank))
        } else if end >= listing.len() {
            None
        } else {
            proof {
                lemma_line_end(listing, from);
            }
            tracking_branch_from(listing, head, end + 1)
        }
    }
}

/// The first branch of `listing` whose upstream is `head`.
pub open spec fn tracking_branch(listing: Seq<char>, head: Seq<char>) -> Option<Seq<char>> {
    tracking_branch_from(listing, head, 0)
}

/// Tells whether `chars[from..to]` spells `word`.
fn spells(chars: &Vec<char>, from: usize, to: usize, word: &Vec<char>) -> (same: bool)
    requires
        from <= to <= chars.len(),
    ensures
        same == (chars@.subrange(from as int, to as int) == word@),
{
    if to - from != word.len() {
        return false;
    }
    let mut at: usize = 0;
    while at < word.len()
        invariant
            from <= to <= chars.len(),
            to - from == word.len(),
            at <= word.len(),
            forall|i: int| 0 <= i < at ==> chars[from + i] == word[i],
        decreases word.len() - at,
    {
        if chars[from + at] != word[at] {
            assert(chars@.subrange(from as int, to as int)[at as int] != word@[at as int]);
            return false;
        }
        at = at + 1;
    }
    assert(chars@.subrange(from as int, to as int) =~= word@);
    true
}

/// Index of the first `mark` in `chars[from..to]`, or `to`.
fn find(chars: &Vec<char>, from: usize, to: usize, mark: char) -> (at: usize)
    requires
        from <= to <= chars.len(),
    ensures
        from <= at <= to,
        forall|i: int| from <= i < at ==> chars[i] != mark,
        at < to ==> chars[at as int] == mark,
{
    let mut at: usize = from;
    while at < to && chars[at] != mark
        invariant
            from <= at <= to <= chars.len(),
            forall|i: int| from <= i < at ==> chars[i] != mark,
        decreases to - at,
    {
        at = at + 1;
    }
    at
}

/// A first index with these properties is the end of the line.
proof fn lemma_line_end_is(text: Seq<char>, from: int, end: int)
    requires
        0 <= from <= end <= text.len(),
        forall|i: int| from <= i < end ==> text[i] != '\n',
        end < text.len() ==> text[end] == '\n',
    ensures
        line_end(text, from) == end,
    decreases end - from,
{
    if from < end {
        lemma_line_end_is(text, from + 1, end);
    }
}

/// A first index with these properties is the first blank.
proof fn lemma_first_blank_is(text: Seq<char>, from: int, to: int, blank: int)
    requires
        0 <= from <= blank <= to,
        forall|i: int| from <= i < blank ==> text[i] != ' ',
        blank < to ==> text[blank] == ' ',
    ensures
        first_blank(text, from, to) == blank,
    decreases blank - from,
{
    if from < blank {
        lemma_first_blank_is(text, from + 1, to, blank);
    }
}

/// Get the (first) branch tracking the HEAD of the main remote.
/// This can commonly be interpreted as your "main" branch of the local repository.
///
/// `listing` holds a branch and its upstream per line, `main_remote_head` is
/// the upstream that is looked for.
pub fn main_branch(main_remote_head: &str, listing: &str) -> (branch: Option<String>)
    ensures
        match branch {
            Some(name) => tracking_branch(listing@, main_remote_head@) == Some(name@),
            None => tracking_branch(listing@, main_remote_head@) is None,
        },
{
    let chars = chars_of(listing);
    let head = chars_of(main_remote_head);
    let len = chars.len();
    let mut from: usize = 0;
    while from < len
        invariant
            len == chars.len(),
            chars@ == listing@,
            head@ == main_remote_head@,
            from <= len,
            tracking_branch(listing@, main_remote_head@) == tracking_branch_from(
                listing@,
                main_remote_head@,
                from as int,
            ),
        decreases len - from,
    {
        let end = find(&chars, from, len, '\n');
        let stop = if end < len && from < end && chars[end - 1] == '\r' {
            end - 1
        } else {
            end
        };
        let blank = find(&chars, from, stop, ' ');
        proof {
            lemma_line_end_is(chars@, from as int, end as int);
            lemma_first_blank_is(chars@, from as int, stop as int, blank as int);
        }
        if blank < stop && spells(&chars, blank + 1, stop, &head) {
            let name = listing.substring_char(from, blank);
            return Some(String::from_str(name));
        }
        if end == len {
            return None;
        }
        from = end + 1;
    }
    None
}

/// True when a line of `text` at or behind `from` is `word`.
pub open spec fn has_line(text: Seq<char>, word: Seq<char>, from: int) -> bool
    decreases text.len() - from,
{
    if from < 0 || from >= text.len() {
        false
    } else {
        let end = line_end(text, from);
        let stop = content_end(text, from, end);
        if text.subrange(from, stop) == word {
            true
        } else if end >= text.len() {
            false
        } else {
            proof {
                lemma_line_end(text, from);
            }
            has_line(text, word, end + 1)
        }
    }
}

/// The main remote among those that `listing` names, one per line: `origin`
/// when it is among them, else the first, and none when there is none.
pub open spec fn preferred_remote(listing: Seq<char>) -> Option<Seq<char>> {
    if listing.len() == 0 {
        None
    } else if has_line(listing, "origin"@, 0) {
        Some("origin"@)
    } else {
        Some(listing.subrange(0, content_end(listing, 0, line_end(listing, 0))))
    }
}

/// Get the "main" remote of the repository among the remotes in `listing`,
/// first of the following priorities:
/// 1. `origin` if such a named remote exists.
/// 2. The first remote of the listing.
pub fn main_remote(listing: &str) -> (remote: Option<String>)
    ensures
        match remote {
            Some(name) => preferred_remote(listing@) == Some(name@),
            None => preferred_remote(listing@) is None,
        },
{
    let chars = chars_of(listing);
    let origin = chars_of("origin");
    let len = chars.len();
    if len == 0 {
        return None;
    }
    let mut from: usize = 0;
    while from < len
        invariant
            len == chars.len(),
            chars@ == listing@,
            origin@ == "origin"@,
            from <= len,
            has_line(listing@, "origin"@, 0) == has_line(listing@, "origin"@, from as int),
        decreases len - from,
    {
        let end = find(&chars, from, len, '\n');
        let stop = if end < len && from < end && chars[end - 1] == '\r' {
            end - 1
        } else {
            end
        };
        proof {
            lemma_line_end_is(chars@, from as int, end as int);
        }
        if spells(&chars, from, stop, &origin) {
            return Some(String::from_str("origin"));
        }
        if end == len {
            from = len;
        } else {
            from = end + 1;
        }
    }
    let end = find(&chars, 0, len, '\n');
    let stop = if end < len && 0 < end && chars[end - 1] == '\r' {
        end - 1
    } else {
        end
    };
    proof {
        lemma_line_end_is(chars@, 0, end as int);
    }
    Some(String::from_str(listing.substring_char(0, stop)))
}

/// The texts of a list of strings.
pub open spec fn texts(words: Seq<String>) -> Seq<Seq<char>> {
    Seq::new(words.len(), |i: int| words[i]@)
}

/// The arguments that ask for the branch that is checked out.
pub open spec fn current_branch_query() -> Seq<Seq<char>> {
    seq!["branch"@, "--show-current"@]
}

/// The arguments that ask for the branch that `branch` tracks.
pub open spec fn upstream_query(branch: Seq<char>) -> Seq<Seq<char>> {
    seq!["rev-parse"@, "--abbrev-ref"@, branch + "@{upstream}"@]
}

/// The arguments that ask for the remote that `branch` tracks.
pub open spec fn tracked_remote_query(branch: Seq<char>) -> Seq<Seq<char>> {
    seq!["branch"@, "--list"@, "--format=%(upstream:remotename)"@, branch]
}

/// The arguments that ask for the remote that is configured as the default.
pub open spec fn default_remote_query() -> Seq<Seq<char>> {
    seq!["config"@, "get"@, "checkout.defaultRemote"@]
}

/// The arguments that ask for the remotes of the repository.
pub open spec fn remotes_query() -> Seq<Seq<char>> {
    seq!["remote"@]
}

/// The arguments that ask for the head branch of `remote`.
pub open spec fn remote_head_query(remote: Seq<char>) -> Seq<Seq<char>> {
    seq!["symbolic-ref"@, "--short"@, "refs/remotes/"@ + remote + "/HEAD"@]
}

/// The arguments that ask for every branch with its upstream.
pub open spec fn branches_query() -> Seq<Seq<char>> {
    seq!["for-each-ref"@, "--format=%(refname:short) %(upstream:short)"@]
}

/// Get the currently checked out branch: the query for it.
pub fn current_branch() -> (args: Vec<String>)
    ensures
        texts(args@) == current_branch_query(),
{
    let args = vec![String::from_str("branch"), String::from_str("--show-current")];
    assert(texts(args@) =~= current_branch_query());
    args
}

/// Get the upstream tracked branch of `branch`: the query for it.
pub fn upstream(branch: &str) -> (args: Vec<String>)
    ensures
        texts(args@) == upstream_query(branch@),
{
    let args = vec![
        String::from_str("rev-parse"),
        String::from_str("--abbrev-ref"),
        String::from_str(branch).concat("@{upstream}"),
    ];
    assert(texts(args@) =~= upstream_query(branch@));
    args
}

/// Get the tracked remote of a branch: the query for it.
pub fn tracked_remote(branch: &str) -> (args: Vec<String>)
    ensures
        texts(args@) == tracked_remote_query(branch@),
{
    let args = vec![
        String::from_str("branch"),
        String::from_str("--list"),
        String::from_str("--format=%(upstream:remotename)"),
        String::from_str(branch),
    ];
    assert(texts(args@) =~= tracked_remote_query(branch@));
    args
}

/// The query for the remote that is configured as the default.
pub fn default_remote() -> (args: Vec<String>)
    ensures
        texts(args@) == default_remote_query(),
{
    let args = vec![
        String::from_str("config"),
        String::from_str("get"),
        String::from_str("checkout.defaultRemote"),
    ];
    assert(texts(args@) =~= default_remote_query());
    args
}

/// Get the remotes of the repository: the query for them.
pub fn remotes() -> (args: Vec<String>)
    ensures
        texts(args@) == remotes_query(),
{
    let args = vec![String::from_str("remote")];
    assert(texts(args@) =~= remotes_query());
    args
}

/// Get the main branch (HEAD) of `remote`: the query for it.
pub fn remote_head(remote: &str) -> (args: Vec<String>)
    ensures
        texts(args@) == remote_head_query(remote@),
{
    let args = vec![
        String::from_str("symbolic-ref"),
        String::from_str("--short"),
        String::from_str("refs/remotes/").concat(remote).concat("/HEAD"),
    ];
    assert(texts(args@) =~= remote_head_query(remote@));
    args
}

/// The query for every branch with its upstream.
pub fn branches() -> (args: Vec<String>)
    ensures
        texts(args@) == branches_query(),
{
    let args = vec![
        String::from_str("for-each-ref"),
        String::from_str("--format=%(refname:short) %(upstream:short)"),
    ];
    assert(texts(args@) =~= branches_query());
    args
}

/// Where the dialogue about a value stands, as a mathematical value.
pub enum Stage {
    /// The query with these arguments is to be run next.
    Ask { args: Seq<Seq<char>> },
    /// The value is known, after `used` replies.
    Known { answer: Option<Seq<char>>, used: nat },
}

/// What the program around the library is to do next.
#[derive(Debug, PartialEq, Eq)]
pub enum Next {
    /// Run the tool with these arguments and hand back its reply.
    Run(Vec<String>),
    /// The dialogue is over; the value that was asked for.
    Done(Option<String>),
}

/// A stage in executable form.
enum Progress {
    Ask(Vec<String>),
    Known(Option<String>, usize),
}

impl View for Progress {
    type V = Stage;

    closed spec fn view(&self) -> Stage {
        match self {
            Progress::Ask(args) => Stage::Ask { args: texts(args@) },
            Progress::Known(answer, used) => Stage::Known {
                answer: reply_text(*answer),
                used: *used as nat,
            },
        }
    }
}

/// The text of a reply.
pub open spec fn reply_text(reply: Option<String>) -> Option<Seq<char>> {
    match reply {
        Some(text) => Some(text@),
        None => None,
    }
}

/// The texts of the replies.
pub open spec fn reply_texts(replies: Seq<Option<String>>) -> Seq<Option<Seq<char>>> {
    Seq::new(replies.len(), |i: int| reply_text(replies[i]))
}

/// `stage`, followed by a query that depends on its answer: when the answer
/// is known and there is one, the query in `args` is asked, and its reply is
/// the answer.
pub open spec fn then_ask(
    stage: Stage,
    args: spec_fn(Seq<char>) -> Seq<Seq<char>>,
    replies: Seq<Option<Seq<char>>>,
) -> Stage {
    match stage {
        Stage::Known { answer: Some(text), used } => if replies.len() <= used {
            Stage::Ask { args: args(text) }
        } else {
            Stage::Known { answer: replies[used as int], used: used + 1 }
        },
        other => other,
    }
}

/// The stage of the dialogue about the branch that is checked out.
pub open spec fn current_branch_stage(replies: Seq<Option<Seq<char>>>) -> Stage {
    if replies.len() == 0 {
        Stage::Ask { args: current_branch_query() }
    } else {
        Stage::Known { answer: replies[0], used: 1 }
    }
}

/// The stage of the dialogue about the branch that the current branch
/// tracks.
pub open spec fn current_upstream_stage(replies: Seq<Option<Seq<char>>>) -> Stage {
    then_ask(current_branch_stage(replies), |branch: Seq<char>| upstream_query(branch), replies)
}

/// The stage of the dialogue about the remote that the current branch
/// tracks.
pub open spec fn current_remote_stage(replies: Seq<Option<Seq<char>>>) -> Stage {
    then_ask(
        current_branch_stage(replies),
        |branch: Seq<char>| tracked_remote_query(branch),
        replies,
    )
}

/// The stage of the dialogue about the main remote: the configured default,
/// and without one the preferred remote of the repository.
pub open spec fn main_remote_stage(replies: Seq<Option<Seq<char>>>) -> Stage {
    if replies.len() == 0 {
        Stage::Ask { args: default_remote_query() }
    } else if replies[0] is Some {
        Stage::Known { answer: replies[0], used: 1 }
    } else if replies.len() == 1 {
        Stage::Ask { args: remotes_query() }
    } else {
        match replies[1] {
            Some(listing) => Stage::Known { answer: preferred_remote(listing), used: 2 },
            None => Stage::Known { answer: None, used: 2 },
        }
    }
}

/// The stage of the dialogue about the head branch of the main remote.
pub open spec fn main_remote_head_stage(replies: Seq<Option<Seq<char>>>) -> Stage {
    then_ask(main_remote_stage(replies), |remote: Seq<char>| remote_head_query(remote), replies)
}

/// The stage of the dialogue about the local branch that tracks the head of
/// the main remote.
pub open spec fn main_branch_stage(replies: Seq<Option<Seq<char>>>) -> Stage {
    match main_remote_head_stage(replies) {
        Stage::Known { answer: Some(head), used } => if replies.len() <= used {
            Stage::Ask { args: branches_query() }
        } else {
            match replies[used as int] {
                Some(listing) => Stage::Known {
                    answer: tracking_branch(listing, head),
                    used: used + 1,
                },
                None => Stage::Known { answer: None, used: used + 1 },
            }
        },
        other => other,
    }
}

/// The stage of the dialogue about `source`.
pub open spec fn stage_of(source: Source, replies: Seq<Option<Seq<char>>>) -> Stage {
    match source {
        Source::CurrentBranch => current_branch_stage(replies),
        Source::CurrentUpstream => current_upstream_stage(replies),
        Source::MainBranch => main_branch_stage(replies),
        Source::MainRemote => main_remote_stage(replies),
        Source::MainRemoteHead => main_remote_head_stage(replies),
        Source::CurrentRemote => current_remote_stage(replies),
    }
}

/// What is to be done at `stage`.
pub open spec fn step_of(stage: Stage) -> Step {
    match stage {
        Stage::Ask { args } => Step::Run { args },
        Stage::Known { answer, used } => Step::Done { answer },
    }
}

/// What is to be done next, as a mathematical value.
pub enum Step {
    /// Run the tool with these arguments.
    Run { args: Seq<Seq<char>> },
    /// The value that was asked for.
    Done { answer: Option<Seq<char>> },
}

impl View for Next {
    type V = Step;

    open spec fn view(&self) -> Step {
        match self {
            Next::Run(args) => Step::Run { args: texts(args@) },
            Next::Done(answer) => Step::Done { answer: reply_text(*answer) },
        }
    }
}

/// A copy of a reply.
fn copy_reply(reply: &Option<String>) -> (copy: Option<String>)
    ensures
        reply_text(copy) == reply_text(*reply),
{
    match reply {
        Some(text) => Some(text.clone()),
        None => None,
    }
}

fn current_branch_progress(replies: &Vec<Option<String>>) -> (progress: Progress)
    ensures
        progress@ == current_branch_stage(reply_texts(replies@)),
        progress matches Progress::Known(_, used) ==> used <= replies.len(),
{
    if replies.len() == 0 {
        Progress::Ask(current_branch())
    } else {
        Progress::Known(copy_reply(&replies[0]), 1)
    }
}

fn main_remote_progress(replies: &Vec<Option<String>>) -> (progress: Progress)
    ensures
        progress@ == main_remote_stage(reply_texts(replies@)),
        progress matches Progress::Known(_, used) ==> used <= replies.len(),
{
    if replies.len() == 0 {
        return Progress::Ask(default_remote());
    }
    if replies[0].is_some() {
        return Progress::Known(copy_reply(&replies[0]), 1);
    }
    if replies.len() == 1 {
        return Progress::Ask(remotes());
    }
    match &replies[1] {
        Some(listing) => Progress::Known(main_remote(listing.as_str()), 2),
        None => Progress::Known(None, 2),
    }
}

fn main_remote_head_progress(replies: &Vec<Option<String>>) -> (progress: Progress)
    ensures
        progress@ == main_remote_head_stage(reply_texts(replies@)),
        progress matches Progress::Known(_, used) ==> used <= replies.len(),
{
    match main_remote_progress(replies) {
        Progress::Known(Some(remote), used) => {
            if replies.len() <= used {
                Progress::Ask(remote_head(remote.as_str()))
            } else {
                Progress::Known(copy_reply(&replies[used]), used + 1)
            }
        },
        other => other,
    }
}

fn finish(progress: Progress) -> (next: Next)
    ensures
        next@ == step_of(progress@),
{
    match progress {
        Progress::Ask(args) => Next::Run(args),
        Progress::Known(answer, _) => Next::Done(answer),
    }
}

/// Get the tracked branch of the current branch.
pub fn current_upstream(replies: &Vec<Option<String>>) -> (next: Next)
    ensures
        next@ == step_of(current_upstream_stage(reply_texts(replies@))),
{
    match current_branch_progress(replies) {
        Progress::Known(Some(branch), used) => {
            if replies.len() <= used {
                Next::Run(upstream(branch.as_str()))
            } else {
                Next::Done(copy_reply(&replies[used]))
            }
        },
        other => finish(other),
    }
}

/// Get the upstream remote of the current branch.
pub fn current_remote(replies: &Vec<Option<String>>) -> (next: Next)
    ensures
        next@ == step_of(current_remote_stage(reply_texts(replies@))),
{
    match current_branch_progress(replies) {
        Progress::Known(Some(branch), used) => {
            if replies.len() <= used {
                Next::Run(tracked_remote(branch.as_str()))
            } else {
                Next::Done(copy_reply(&replies[used]))
            }
        },
        other => finish(other),
    }
}

/// Get the main branch (HEAD) of the main remote.
pub fn main_remote_head(replies: &Vec<Option<String>>) -> (next: Next)
    ensures
        next@ == step_of(main_remote_head_stage(reply_texts(replies@))),
{
    finish(main_remote_head_progress(replies))
}

/// Get the main branch (HEAD) of the upstream remote of the current branch,
/// which is looked up as the head of the main remote.
pub fn current_remote_head(replies: &Vec<Option<String>>) -> (next: Next)
    ensures
        next@ == step_of(main_remote_head_stage(reply_texts(replies@))),
{
    main_remote_head(replies)
}

/// What is to be done next to learn the value of `source`, given the replies
/// to the queries that were run for it so far, in their order.
pub fn resolve(source: Source, replies: &Vec<Option<String>>) -> (next: Next)
    ensures
        next@ == step_of(stage_of(source, reply_texts(replies@))),
{
    match source {
        Source::CurrentBranch => finish(current_branch_progress(replies)),
        Source::CurrentUpstream => current_upstream(replies),
        Source::CurrentRemote => current_remote(replies),
        Source::MainRemote => finish(main_remote_progress(replies)),
        Source::MainRemoteHead => main_remote_head(replies),
        Source::MainBranch => {
            match main_remote_head_progress(replies) {
                Progress::Known(Some(head), used) => {
                    if replies.len() <= used {
                        Next::Run(branches())
                    } else {
                        match &replies[used] {
                            Some(listing) => Next::Done(
                                main_branch(head.as_str(), listing.as_str()),
                            ),
                            None => Next::Done(None),
                        }
                    }
                },
                other => finish(other),
            }
        },
    }
}

} // verus!
