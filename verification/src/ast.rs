//! The grammar of the shorthand language in the term vocabulary.

use crate::model::Grammar;
use crate::nodes::{
    each_once, flag, flag_grammar, lemma_views_of_array, lemma_views_of_none, lemma_views_of_one,
    noneat, noneat_grammar, number, number_grammar, opt, or, param, param_grammar, param_variant,
    param_variant_grammar, shortflag, shortflag_grammar, subcmd, subcmd_grammar, term,
    term_grammar, Node,
};
use vstd::prelude::*;

verus! {

broadcast use {lemma_views_of_array, lemma_views_of_none, lemma_views_of_one};

/// The grammar of the whole shorthand language: the key of a command, then what the command
/// takes.
#[verifier::opaque]
pub open spec fn ast_grammar() -> Grammar {
    Grammar::Alternation(seq![
        subcmd_grammar(
            "a"@,
            "add"@,
            Grammar::Sequence(seq![
                each_once(seq![
                    flag_grammar("na"@, "no-all"@),
                    flag_grammar("a"@, "all"@),
                    flag_grammar("v"@, "verbose"@),
                    flag_grammar("d"@, "dry-run"@),
                    flag_grammar("f"@, "force"@),
                    flag_grammar("s"@, "sparse"@),
                    flag_grammar("i"@, "interactive"@),
                    flag_grammar("N"@, "intent-to-add"@),
                    flag_grammar("r"@, "refresh"@),
                    flag_grammar("u"@, "update"@),
                    flag_grammar("p"@, "patch"@),
                ]),
                Grammar::opt(Grammar::Alternation(seq![
                    term_grammar("."@, " "@, "."@, None),
                    term_grammar("-"@, " "@, "--"@, None),
                ])),
            ]),
        ),
        subcmd_grammar(
            "bl"@,
            "blame"@,
            each_once(seq![
                shortflag_grammar("t"@, "t"@),
                shortflag_grammar("w"@, "w"@),
                shortflag_grammar("s"@, "s"@),
                flag_grammar("1"@, "first-parent"@),
                term_grammar("l"@, " -"@, "L"@, Some(noneat_grammar(" "@, "%"@))),
                flag_grammar("n"@, "show-number"@),
            ]),
        ),
        subcmd_grammar(
            "b"@,
            "branch"@,
            each_once(seq![
                flag_grammar("f"@, "force"@),
                flag_grammar("d"@, "delete"@),
                flag_grammar("m"@, "move"@),
                flag_grammar("c"@, "copy"@),
                flag_grammar("r"@, "remotes"@),
                flag_grammar("a"@, "all"@),
                flag_grammar("vv"@, "vv"@),
                flag_grammar("v"@, "verbose"@),
                flag_grammar("q"@, "quiet"@),
                flag_grammar("nt"@, "no-track"@),
                param_grammar(
                    "t"@,
                    "track"@,
                    Grammar::opt(Grammar::Alternation(seq![
                        param_variant_grammar("d"@, "direct"@),
                        param_variant_grammar("i"@, "indirect"@),
                    ])),
                ),
            ]),
        ),
        subcmd_grammar(
            "c"@,
            "commit"@,
            Grammar::Sequence(seq![
                each_once(seq![
                    flag_grammar("a"@, "amend"@),
                    flag_grammar("A"@, "all"@),
                    flag_grammar("p"@, "patch"@),
                    flag_grammar("d"@, "dry-run"@),
                    flag_grammar("ne"@, "no-edit"@),
                    flag_grammar("e"@, "edit"@),
                    flag_grammar("nv"@, "no-verify"@),
                    flag_grammar("V"@, "verify"@),
                    flag_grammar("i"@, "include"@),
                    flag_grammar("o"@, "only"@),
                    flag_grammar("s"@, "status"@),
                    param_grammar("m"@, "message"@, noneat_grammar("="@, "%"@)),
                ]),
                Grammar::opt(term_grammar("-"@, " "@, "--"@, None)),
            ]),
        ),
        subcmd_grammar(
            "d"@,
            "diff"@,
            Grammar::Sequence(seq![
                each_once(seq![
                    flag_grammar("r"@, "raw"@),
                    flag_grammar("m"@, "minimal"@),
                    flag_grammar("h"@, "histogram"@),
                    flag_grammar("p"@, "patience"@),
                    flag_grammar("ss"@, "shortstat"@),
                    flag_grammar("s"@, "stat"@),
                    flag_grammar("ni"@, "no-indent-heuristic"@),
                    flag_grammar("i"@, "indent-heuristic"@),
                    flag_grammar("b"@, "ignore-space-change"@),
                    flag_grammar("w"@, "ignore-all-space"@),
                    param_grammar("u"@, "unified"@, number_grammar("="@)),
                ]),
                Grammar::opt(local_target_grammar()),
            ]),
        ),
        subcmd_grammar(
            "e"@,
            "rebase"@,
            Grammar::Alternation(seq![
                flag_grammar("a"@, "abort"@),
                flag_grammar("c"@, "continue"@),
                flag_grammar("e"@, "edit-todo"@),
                flag_grammar("h"@, "show"@),
                flag_grammar("q"@, "quit"@),
                flag_grammar("s"@, "skip"@),
                Grammar::Sequence(seq![
                    each_once(seq![
                        flag_grammar("i"@, "interactive"@),
                        flag_grammar("nf"@, "no-ff"@),
                        flag_grammar("r"@, "root"@),
                        flag_grammar("q"@, "quiet"@),
                        flag_grammar("ns"@, "no-stat"@),
                        flag_grammar("s"@, "stat"@),
                        flag_grammar("nu"@, "no-update-refs"@),
                        flag_grammar("u"@, "update-refs"@),
                        flag_grammar("nV"@, "no-verify"@),
                        flag_grammar("V"@, "verify"@),
                        flag_grammar("v"@, "verbose"@),
                    ]),
                    Grammar::opt(local_target_grammar()),
                ]),
            ]),
        ),
        subcmd_grammar(
            "f"@,
            "fetch"@,
            each_once(seq![
                flag_grammar("4"@, "ipv4"@),
                flag_grammar("6"@, "ipv6"@),
                flag_grammar("na"@, "no-all"@),
                flag_grammar("a"@, "all"@),
                flag_grammar("A"@, "append"@),
                flag_grammar("d"@, "dry-run"@),
                flag_grammar("f"@, "force"@),
                flag_grammar("k"@, "keep"@),
                flag_grammar("m"@, "multiple"@),
                flag_grammar("p"@, "prune"@),
                flag_grammar("nt"@, "no-tags"@),
                flag_grammar("t"@, "tags"@),
            ]),
        ),
        subcmd_grammar(
            "g"@,
            "checkout"@,
            each_once(seq![
                flag_grammar("q"@, "quiet"@),
                flag_grammar("f"@, "force"@),
                flag_grammar("g"@, "guess"@),
                flag_grammar("d"@, "detach"@),
                flag_grammar("m"@, "merge"@),
                flag_grammar("p"@, "patch"@),
                flag_grammar("no"@, "no-overlay"@),
                flag_grammar("o"@, "overlay"@),
            ]),
        ),
        subcmd_grammar(
            "h"@,
            "show"@,
            each_once(seq![flag_grammar("o"@, "oneline"@), flag_grammar("nn"@, "no-notes"@)]),
        ),
        subcmd_grammar("i"@, "init"@, each_once(seq![flag_grammar("b"@, "bare"@)])),
        subcmd_grammar(
            "k"@,
            "clone"@,
            each_once(seq![
                flag_grammar("l"@, "local"@),
                flag_grammar("h"@, "shared"@),
                flag_grammar("b"@, "bare"@),
                flag_grammar("s"@, "sparse"@),
                flag_grammar("nt"@, "no-tags"@),
                flag_grammar("t"@, "tags"@),
                param_grammar("d"@, "depth"@, number_grammar("="@)),
                param_grammar("j"@, "jobs"@, number_grammar("="@)),
            ]),
        ),
        subcmd_grammar(
            "l"@,
            "log"@,
            each_once(seq![
                flag_grammar("1"@, "first-parent"@),
                flag_grammar("o"@, "oneline"@),
                flag_grammar("nd"@, "decorate"@),
                flag_grammar("d"@, "decorate"@),
                flag_grammar("f"@, "follow"@),
                flag_grammar("m"@, "merges"@),
                flag_grammar("a"@, "all"@),
                flag_grammar("g"@, "graph"@),
                flag_grammar("n"@, "no-patch"@),
                flag_grammar("p"@, "patch"@),
                flag_grammar("b"@, "ignore-space-change"@),
                flag_grammar("w"@, "ignore-all-space"@),
                param_grammar("d"@, "depth"@, number_grammar("="@)),
            ]),
        ),
        subcmd_grammar("m"@, "merge"@, each_once(seq![])),
        subcmd_grammar("p"@, "push"@, each_once(seq![])),
        subcmd_grammar("q"@, "pull"@, each_once(seq![])),
        subcmd_grammar("rl"@, "reflog"@, each_once(seq![])),
        subcmd_grammar("r"@, "reset"@, each_once(seq![])),
        subcmd_grammar("s"@, "switch"@, each_once(seq![])),
        subcmd_grammar("t"@, "tag"@, each_once(seq![])),
        subcmd_grammar("u"@, "restore"@, each_once(seq![])),
        subcmd_grammar("v"@, "status"@, each_once(seq![])),
        subcmd_grammar("w"@, "worktree"@, each_once(seq![])),
        subcmd_grammar("x"@, "clean"@, each_once(seq![])),
        subcmd_grammar("z"@, "stash"@, each_once(seq![])),
    ])
}

/// Generate the grammar for all commands.
#[verifier::rlimit(100)]
pub fn ast() -> (node: Node)
    ensures
        node@ == ast_grammar(),
{
    proof {
        reveal(ast_grammar);
    }
    or(&[
        &subcmd(
            "a",
            "add",
            crate::nodes::seq(&[
                &crate::nodes::set(&[
                    &flag("na", "no-all"),
                    &flag("a", "all"),
                    &flag("v", "verbose"),
                    &flag("d", "dry-run"),
                    &flag("f", "force"),
                    &flag("s", "sparse"),
                    &flag("i", "interactive"),
                    &flag("N", "intent-to-add"),
                    &flag("r", "refresh"),
                    &flag("u", "update"),
                    &flag("p", "patch"),
                ]),
                &opt(or(&[
                    &term(".", " ", ".", None),
                    &term("-", " ", "--", None),
                ])),
            ]),
        ),
        &subcmd(
            "bl",
            "blame",
            crate::nodes::set(&[
                &shortflag("t", "t"),
                &shortflag("w", "w"),
                &shortflag("s", "s"),
                &flag("1", "first-parent"),
                &term("l", " -", "L", Some(noneat(" ", "%"))),
                &flag("n", "show-number"),
            ]),
        ),
        &subcmd(
            "b",
            "branch",
            crate::nodes::set(&[
                &flag("f", "force"),
                &flag("d", "delete"),
                &flag("m", "move"),
                &flag("c", "copy"),
                &flag("r", "remotes"),
                &flag("a", "all"),
                &flag("vv", "vv"),
                &flag("v", "verbose"),
                &flag("q", "quiet"),
                &flag("nt", "no-track"),
                &param(
                    "t",
                    "track",
                    opt(or(&[
                        &param_variant("d", "direct"),
                        &param_variant("i", "indirect"),
                    ])),
                ),
            ]),
        ),
        &subcmd(
            "c",
            "commit",
            crate::nodes::seq(&[
                &crate::nodes::set(&[
                    &flag("a", "amend"),
                    &flag("A", "all"),
                    &flag("p", "patch"),
                    &flag("d", "dry-run"),
                    &flag("ne", "no-edit"),
                    &flag("e", "edit"),
                    &flag("nv", "no-verify"),
                    &flag("V", "verify"),
                    &flag("i", "include"),
                    &flag("o", "only"),
                    &flag("s", "status"),
                    &param("m", "message", noneat("=", "%")),
                ]),
                &opt(term("-", " ", "--", None)),
            ]),
        ),
        &subcmd(
            "d",
            "diff",
            crate::nodes::seq(&[
                &crate::nodes::set(&[
                    &flag("r", "raw"),
                    &flag("m", "minimal"),
                    &flag("h", "histogram"),
                    &flag("p", "patience"),
                    &flag("ss", "shortstat"),
                    &flag("s", "stat"),
                    &flag("ni", "no-indent-heuristic"),
                    &flag("i", "indent-heuristic"),
                    &flag("b", "ignore-space-change"),
                    &flag("w", "ignore-all-space"),
                    &param("u", "unified", number("=")),
                ]),
                &opt(local_target()),
            ]),
        ),
        &subcmd(
            "e",
            "rebase",
            or(&[
                &flag("a", "abort"),
                &flag("c", "continue"),
                &flag("e", "edit-todo"),
                &flag("h", "show"),
                &flag("q", "quit"),
                &flag("s", "skip"),
                &crate::nodes::seq(&[
                    &crate::nodes::set(&[
                        &flag("i", "interactive"),
                        &flag("nf", "no-ff"),
                        &flag("r", "root"),
                        &flag("q", "quiet"),
                        &flag("ns", "no-stat"),
                        &flag("s", "stat"),
                        &flag("nu", "no-update-refs"),
                        &flag("u", "update-refs"),
                        &flag("nV", "no-verify"),
                        &flag("V", "verify"),
                        &flag("v", "verbose"),
                    ]),
                    &opt(local_target()),
                ]),
            ]),
        ),
        &subcmd(
            "f",
            "fetch",
            crate::nodes::set(&[
                &flag("4", "ipv4"),
                &flag("6", "ipv6"),
                &flag("na", "no-all"),
                &flag("a", "all"),
                &flag("A", "append"),
                &flag("d", "dry-run"),
                &flag("f", "force"),
                &flag("k", "keep"),
                &flag("m", "multiple"),
                &flag("p", "prune"),
                &flag("nt", "no-tags"),
                &flag("t", "tags"),
            ]),
        ),
        &subcmd(
            "g",
            "checkout",
            crate::nodes::set(&[
                &flag("q", "quiet"),
                &flag("f", "force"),
                &flag("g", "guess"),
                &flag("d", "detach"),
                &flag("m", "merge"),
                &flag("p", "patch"),
                &flag("no", "no-overlay"),
                &flag("o", "overlay"),
            ]),
        ),
        &subcmd(
            "h",
            "show",
            crate::nodes::set(&[&flag("o", "oneline"), &flag("nn", "no-notes")]),
        ),
        &subcmd("i", "init", crate::nodes::set(&[&flag("b", "bare")])),
        &subcmd(
            "k",
            "clone",
            crate::nodes::set(&[
                &flag("l", "local"),
                &flag("h", "shared"),
                &flag("b", "bare"),
                &flag("s", "sparse"),
                &flag("nt", "no-tags"),
                &flag("t", "tags"),
                &param("d", "depth", number("=")),
                &param("j", "jobs", number("=")),
            ]),
        ),
        &subcmd(
            "l",
            "log",
            crate::nodes::set(&[
                &flag("1", "first-parent"),
                &flag("o", "oneline"),
                &flag("nd", "decorate"),
                &flag("d", "decorate"),
                &flag("f", "follow"),
                &flag("m", "merges"),
                &flag("a", "all"),
                &flag("g", "graph"),
                &flag("n", "no-patch"),
                &flag("p", "patch"),
                &flag("b", "ignore-space-change"),
                &flag("w", "ignore-all-space"),
                &param("d", "depth", number("=")),
            ]),
        ),
        &subcmd("m", "merge", crate::nodes::set(&[])),
        &subcmd("p", "push", crate::nodes::set(&[])),
        // visually reversed 'p', on the opposite end of keyboard
        &subcmd("q", "pull", crate::nodes::set(&[])),
        &subcmd("rl", "reflog", crate::nodes::set(&[])), // __r__ef__l__og
        &subcmd("r", "reset", crate::nodes::set(&[])),
        &subcmd("s", "switch", crate::nodes::set(&[])),
        &subcmd("t", "tag", crate::nodes::set(&[])),
        &subcmd("u", "restore", crate::nodes::set(&[])), // undo
        &subcmd("v", "status", crate::nodes::set(&[])),  // View the status
        &subcmd("w", "worktree", crate::nodes::set(&[])),
        &subcmd("x", "clean", crate::nodes::set(&[])),
        //("y", _),
        &subcmd("z", "stash", crate::nodes::set(&[])), // ztash, similar to marks in modal editors
    ])
}

/// The grammar of a revision some commits behind the head.
#[verifier::opaque]
pub open spec fn local_target_grammar() -> Grammar {
    Grammar::Alternation(seq![
        term_grammar("-"@, " "@, "HEAD~"@, Some(Grammar::opt(number_grammar(""@)))),
    ])
}

/// A revision some commits behind the head.
pub fn local_target() -> (node: Node)
    ensures
        node@ == local_target_grammar(),
{
    proof {
        reveal(local_target_grammar);
    }
    or(&[&term("-", " ", "HEAD~", Some(opt(number(""))))])
}

} // verus!
