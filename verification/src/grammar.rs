//! The grammar of the shorthand language, one alternative per command.
//!
//! Every function that builds a part of the grammar stands beside the
//! mathematical value that it builds.

use crate::model::{Grammar, Source};
use crate::tree::{
    arg, argset, eat, emit, f, fail, flag, lemma_views_of_array, lemma_views_of_none,
    lemma_views_of_one, map_custom, number, number_or_zero, opt, or, param, param_opt, word, Node,
    CURSOR,
};
use vstd::prelude::*;

verus! {

broadcast use {lemma_views_of_array, lemma_views_of_none, lemma_views_of_one};

/// The grammar of the whole shorthand language: the key of a command, then what the command
/// takes.
#[verifier::opaque]
pub open spec fn ast_grammar() -> Grammar {
    Grammar::Alternation(seq![
        Grammar::map("a"@, add_grammar()),
        Grammar::map("bl"@, blame_grammar()),
        Grammar::map("b"@, branch_grammar()),
        Grammar::map("c"@, commit_grammar()),
        Grammar::map("d"@, diff_grammar()),
        Grammar::map("e"@, rebase_grammar()),
        Grammar::map("f"@, fetch_grammar()),
        Grammar::map("g"@, checkout_grammar()),
        Grammar::map("i"@, init_grammar()),
        Grammar::map("k"@, clone_grammar()),
        Grammar::map("l"@, log_grammar()),
        Grammar::map("m"@, merge_grammar()),
        Grammar::map("p"@, push_grammar()),
        Grammar::map("q"@, status_grammar()),
        Grammar::map("rl"@, reflog_grammar()),
        Grammar::map("r"@, reset_grammar()),
        Grammar::map("s"@, switch_grammar()),
        Grammar::map("t"@, tag_grammar()),
        Grammar::map("u"@, restore_grammar()),
        Grammar::map("v"@, show_grammar()),
        Grammar::map("w"@, worktree_grammar()),
        Grammar::map("x"@, clean_grammar()),
        Grammar::map("y"@, pull_grammar()),
        Grammar::map("z"@, stash_grammar()),
    ])
}

/// Generate the grammar for all commands.
pub fn ast() -> (node: Node)
    ensures
        node@ == ast_grammar(),
{
    proof {
        reveal(ast_grammar);
    }
    // two-letter shortcuts we cannot use:
    // gh: github cli
    // go: golang compiler
    or([
        crate::tree::map("a", self::add()),
        crate::tree::map("bl", blame()),
        crate::tree::map("b", branch()),
        crate::tree::map("c", commit()),
        crate::tree::map("d", diff()),
        crate::tree::map("e", rebase()),
        crate::tree::map("f", fetch()),
        crate::tree::map("g", checkout()),
        // h
        crate::tree::map("i", init()),
        // j
        crate::tree::map("k", clone()),
        crate::tree::map("l", log()),
        crate::tree::map("m", merge()),
        // n
        // o
        crate::tree::map("p", push()),
        crate::tree::map("q", status()), // query
        crate::tree::map("rl", reflog()),
        crate::tree::map("r", reset()),
        crate::tree::map("s", switch()),
        crate::tree::map("t", tag()),
        crate::tree::map("u", restore()), // undo
        crate::tree::map("v", show()),
        crate::tree::map("w", worktree()),
        crate::tree::map("x", clean()),
        crate::tree::map("y", pull()),  // yank
        crate::tree::map("z", stash()), // marks
    ])
}

/// The grammar of the `add` command.
#[verifier::opaque]
pub open spec fn add_grammar() -> Grammar {
    Grammar::Sequence(seq![
        Grammar::EmitLiteral("add"@),
        Grammar::argset(seq![
            Grammar::flag("a"@, "all"@),
            Grammar::flag("-a"@, "no-all"@),
            Grammar::flag("d"@, "dry-run"@),
            Grammar::flag("f"@, "force"@),
            Grammar::flag("i"@, "interactive"@),
            Grammar::flag("s"@, "sparse"@),
            Grammar::flag("N"@, "intent-to-add"@),
            Grammar::flag("r"@, "refresh"@),
            Grammar::flag("u"@, "update"@),
            Grammar::flag("p"@, "patch"@),
        ]),
        separator_grammar(),
        Grammar::opt(Grammar::arg(Grammar::Alternation(seq![
            Grammar::word("."@, "."@),
            Grammar::word("/"@, ":/"@),
        ]))),
    ])
}

/// Builds the grammar of the `add` command.
fn add() -> (node: Node)
    ensures
        node@ == add_grammar(),
{
    proof {
        reveal(add_grammar);
    }
    crate::tree::seq([
        emit("add"),
        argset([
            flag("a", "all"),
            flag("-a", "no-all"),
            flag("d", "dry-run"),
            flag("f", "force"),
            flag("i", "interactive"),
            flag("s", "sparse"),
            flag("N", "intent-to-add"),
            flag("r", "refresh"),
            flag("u", "update"),
            flag("p", "patch"),
        ]),
        separator(),
        opt(arg(or([word(".", "."), word("/", ":/")]))),
    ])
}

/// The grammar of the `blame` command.
#[verifier::opaque]
pub open spec fn blame_grammar() -> Grammar {
    Grammar::Sequence(seq![
        Grammar::EmitLiteral("blame"@),
        Grammar::argset(seq![
            Grammar::flag("1"@, "first-parent"@),
            Grammar::Sequence(seq![
                Grammar::f("l"@, "L"@),
                Grammar::EmitLiteral(" "@),
                Grammar::EmitLiteral(CURSOR@),
            ]),
            Grammar::flag("n"@, "show-number"@),
            Grammar::f("s"@, "s"@),
            Grammar::f("t"@, "t"@),
            Grammar::f("w"@, "w"@),
        ]),
    ])
}

/// Builds the grammar of the `blame` command.
fn blame() -> (node: Node)
    ensures
        node@ == blame_grammar(),
{
    proof {
        reveal(blame_grammar);
    }
    crate::tree::seq([
        emit("blame"),
        argset([
            flag("1", "first-parent"),
            crate::tree::seq([f("l", "L"), emit(" "), emit(CURSOR)]),
            flag("n", "show-number"),
            f("s", "s"),
            f("t", "t"),
            f("w", "w"),
        ]),
    ])
}

/// The grammar of the `branch` command.
#[verifier::opaque]
pub open spec fn branch_grammar() -> Grammar {
    Grammar::Sequence(seq![
        Grammar::EmitLiteral("branch"@),
        Grammar::argset(seq![
            Grammar::flag("a"@, "all"@),
            Grammar::flag("c"@, "copy"@),
            Grammar::flag("d"@, "delete"@),
            Grammar::flag("f"@, "force"@),
            Grammar::param_opt("mg"@, "merged"@, c_h_m_o_u_target_rev_grammar()),
            Grammar::param_opt("-m"@, "no-merged"@, c_h_m_o_u_target_rev_grammar()),
            Grammar::flag("m"@, "move"@),
            Grammar::flag("r"@, "remotes"@),
            t_track_grammar(),
            Grammar::param("u"@, "set-upstream-to"@, c_h_m_o_u_target_rev_grammar()),
            Grammar::flag("v"@, "verbose"@),
            Grammar::flag("v"@, "verbose"@),
        ]),
    ])
}

/// Builds the grammar of the `branch` command.
fn branch() -> (node: Node)
    ensures
        node@ == branch_grammar(),
{
    proof {
        reveal(branch_grammar);
    }
    crate::tree::seq([
        emit("branch"),
        argset([
            flag("a", "all"),
            flag("c", "copy"),
            flag("d", "delete"),
            flag("f", "force"),
            param_opt("mg", "merged", c_h_m_o_u_target_rev()),
            param_opt("-m", "no-merged", c_h_m_o_u_target_rev()),
            flag("m", "move"),
            flag("r", "remotes"),
            t_track(),
            param("u", "set-upstream-to", c_h_m_o_u_target_rev()),
            flag("v", "verbose"),
            flag("v", "verbose"),
        ]),
    ])
}

/// The grammar of the `commit` command.
#[verifier::opaque]
pub open spec fn commit_grammar() -> Grammar {
    Grammar::Sequence(seq![
        Grammar::EmitLiteral("commit"@),
        Grammar::argset(seq![
            Grammar::flag("a"@, "amend"@),
            Grammar::param("C"@, "reuse-message"@, c_h_m_o_u_target_rev_grammar()),
            Grammar::param("c"@, "reedit-message"@, c_h_m_o_u_target_rev_grammar()),
            Grammar::flag("d"@, "dry-run"@),
            Grammar::flag("e"@, "edit"@),
            Grammar::flag("-e"@, "no-edit"@),
            Grammar::param(
                "f"@,
                "fixup"@,
                Grammar::Sequence(seq![
                    Grammar::opt(Grammar::set(seq![
                        Grammar::word("a"@, "amend:"@),
                        Grammar::word("r"@, "reword:"@),
                    ])),
                    Grammar::Alternation(seq![
                        c_h_m_o_u_target_rev_grammar(),
                        Grammar::EmitLiteral(CURSOR@),
                    ]),
                ]),
            ),
            Grammar::param_opt("g"@, "gpg-sign"@, Grammar::fail()),
            Grammar::flag("-g"@, "no-gpg-sign"@),
            Grammar::flag("i"@, "include"@),
            m_message_grammar(),
            Grammar::flag("o"@, "only"@),
            Grammar::param("sq"@, "squash"@, c_h_m_o_u_target_rev_grammar()),
            Grammar::flag("q"@, "status"@),
            Grammar::flag("-q"@, "no-status"@),
            Grammar::flag("s"@, "signoff"@),
            Grammar::flag("v"@, "verify"@),
            Grammar::flag("-v"@, "no-verify"@),
        ]),
    ])
}

/// Builds the grammar of the `commit` command.
fn commit() -> (node: Node)
    ensures
        node@ == commit_grammar(),
{
    proof {
        reveal(commit_grammar);
    }
    crate::tree::seq([
        emit("commit"),
        argset([
            flag("a", "amend"),
            param("C", "reuse-message", c_h_m_o_u_target_rev()),
            param("c", "reedit-message", c_h_m_o_u_target_rev()),
            flag("d", "dry-run"),
            flag("e", "edit"),
            flag("-e", "no-edit"),
            param(
                "f",
                "fixup",
                crate::tree::seq([
                    opt(crate::tree::set([word("a", "amend:"), word("r", "reword:")])),
                    or([c_h_m_o_u_target_rev(), emit(CURSOR)]),
                ]),
            ),
            param_opt("g", "gpg-sign", fail()),
            flag("-g", "no-gpg-sign"),
            flag("i", "include"),
            m_message(),
            flag("o", "only"),
            param("sq", "squash", c_h_m_o_u_target_rev()),
            flag("q", "status"),
            flag("-q", "no-status"),
            flag("s", "signoff"),
            flag("v", "verify"),
            flag("-v", "no-verify"),
        ]),
    ])
}

/// The grammar of the `diff` command.
#[verifier::opaque]
pub open spec fn diff_grammar() -> Grammar {
    Grammar::Sequence(seq![
        Grammar::EmitLiteral("diff"@),
        Grammar::argset(seq![
            da_diff_algorithm_grammar(),
            Grammar::flag("ih"@, "indent-heuristic"@),
            Grammar::flag("-ih"@, "no-indent-heuristic"@),
            Grammar::flag("-i"@, "no-index"@),
            Grammar::flag("p"@, "patience"@),
            Grammar::flag("r"@, "raw"@),
            Grammar::flag("ss"@, "shortstat"@),
            Grammar::flag("s"@, "stat"@),
            Grammar::param("u"@, "unified"@, Grammar::number_or_zero()),
            Grammar::flag("ww"@, "ignore-all-space"@),
            Grammar::flag("w"@, "ignore-space-change"@),
        ]),
        separator_grammar(),
        Grammar::opt(Grammar::arg(c_h_m_o_u_target_rev_grammar())),
        Grammar::opt(Grammar::arg(c_h_m_o_u_target_rev_grammar())),
    ])
}

/// Builds the grammar of the `diff` command.
fn diff() -> (node: Node)
    ensures
        node@ == diff_grammar(),
{
    proof {
        reveal(diff_grammar);
    }
    crate::tree::seq([
        emit("diff"),
        argset([
            da_diff_algorithm(),
            flag("ih", "indent-heuristic"),
            flag("-ih", "no-indent-heuristic"),
            flag("-i", "no-index"),
            flag("p", "patience"),
            flag("r", "raw"),
            flag("ss", "shortstat"),
            flag("s", "stat"),
            param("u", "unified", number_or_zero()),
            flag("ww", "ignore-all-space"),
            flag("w", "ignore-space-change"),
        ]),
        separator(),
        opt(arg(c_h_m_o_u_target_rev())),
        opt(arg(c_h_m_o_u_target_rev())),
    ])
}

/// The grammar of the `rebase` command.
#[verifier::opaque]
pub open spec fn rebase_grammar() -> Grammar {
    Grammar::Sequence(seq![
        Grammar::EmitLiteral("rebase"@),
        Grammar::Alternation(seq![
            Grammar::arg(Grammar::flag("a"@, "abort"@)),
            Grammar::arg(Grammar::flag("c"@, "continue"@)),
            Grammar::arg(Grammar::flag("e"@, "edit-todo"@)),
            Grammar::arg(Grammar::flag("h"@, "show-current-patch"@)),
            Grammar::arg(Grammar::flag("q"@, "quit"@)),
            Grammar::arg(Grammar::flag("s"@, "skip"@)),
            Grammar::Sequence(seq![
                Grammar::argset(seq![
                    da_diff_algorithm_grammar(),
                    Grammar::flag("i"@, "interactive"@),
                    Grammar::flag("r"@, "root"@),
                    Grammar::flag("-f"@, "no-ff"@),
                    Grammar::flag("s"@, "stat"@),
                    Grammar::flag("-s"@, "no-stat"@),
                    Grammar::flag("u"@, "update-refs"@),
                    Grammar::flag("-u"@, "no-update-refs"@),
                    Grammar::flag("v"@, "verify"@),
                    Grammar::flag("-v"@, "no-verify"@),
                ]),
                separator_grammar(),
                Grammar::opt(Grammar::arg(c_h_m_o_u_target_rev_grammar())),
            ]),
        ]),
    ])
}

/// Builds the grammar of the `rebase` command.
fn rebase() -> (node: Node)
    ensures
        node@ == rebase_grammar(),
{
    proof {
        reveal(rebase_grammar);
    }
    crate::tree::seq([
        emit("rebase"),
        or([
            arg(flag("a", "abort")),
            arg(flag("c", "continue")),
            arg(flag("e", "edit-todo")),
            arg(flag("h", "show-current-patch")),
            arg(flag("q", "quit")),
            arg(flag("s", "skip")),
            crate::tree::seq([
                argset([
                    da_diff_algorithm(),
                    flag("i", "interactive"),
                    flag("r", "root"),
                    flag("-f", "no-ff"),
                    flag("s", "stat"),
                    flag("-s", "no-stat"),
                    flag("u", "update-refs"),
                    flag("-u", "no-update-refs"),
                    flag("v", "verify"),
                    flag("-v", "no-verify"),
                ]),
                separator(),
                opt(arg(c_h_m_o_u_target_rev())),
            ]),
        ]),
    ])
}

/// The grammar of the `fetch` command.
#[verifier::opaque]
pub open spec fn fetch_grammar() -> Grammar {
    Grammar::Sequence(seq![
        Grammar::EmitLiteral("fetch"@),
        Grammar::argset(seq![
            Grammar::flag("4"@, "ipv4"@),
            Grammar::flag("6"@, "ipv6"@),
            Grammar::flag("A"@, "append"@),
            Grammar::flag("a"@, "all"@),
            Grammar::flag("-a"@, "no-all"@),
            Grammar::flag("d"@, "dry-run"@),
            Grammar::flag("f"@, "force"@),
            Grammar::flag("k"@, "keep"@),
            Grammar::flag("m"@, "multiple"@),
            Grammar::flag("p"@, "prune"@),
            Grammar::flag("t"@, "tags"@),
            Grammar::flag("-t"@, "no-tags"@),
        ]),
        separator_grammar(),
        Grammar::opt(Grammar::Sequence(seq![
            c_o_target_remote_grammar(),
            Grammar::opt(c_h_m_o_u_target_branch_grammar()),
        ])),
    ])
}

/// Builds the grammar of the `fetch` command.
fn fetch() -> (node: Node)
    ensures
        node@ == fetch_grammar(),
{
    proof {
        reveal(fetch_grammar);
    }
    crate::tree::seq([
        emit("fetch"),
        argset([
            flag("4", "ipv4"),
            flag("6", "ipv6"),
            flag("A", "append"),
            flag("a", "all"),
            flag("-a", "no-all"),
            flag("d", "dry-run"),
            flag("f", "force"),
            flag("k", "keep"),
            flag("m", "multiple"),
            flag("p", "prune"),
            flag("t", "tags"),
            flag("-t", "no-tags"),
        ]),
        separator(),
        opt(crate::tree::seq([c_o_target_remote(), opt(c_h_m_o_u_target_branch())])),
    ])
}

/// The grammar of the `checkout` command.
#[verifier::opaque]
pub open spec fn checkout_grammar() -> Grammar {
    Grammar::Sequence(seq![
        Grammar::EmitLiteral("checkout"@),
        Grammar::argset(seq![
            Grammar::f("B"@, "B"@),
            Grammar::f("bb"@, "B"@),
            Grammar::f("b"@, "b"@),
            Grammar::f("l"@, "l"@),
            Grammar::flag("d"@, "detach"@),
            Grammar::flag("f"@, "force"@),
            Grammar::flag("g"@, "guess"@),
            Grammar::flag("-g"@, "no-guess"@),
            Grammar::flag("m"@, "merge"@),
            Grammar::flag("-o"@, "no-overlay"@),
            os_ts_ours_theirs_grammar(),
            Grammar::flag("p"@, "patch"@),
            t_track_grammar(),
        ]),
        Grammar::opt(Grammar::EatLiteral(","@)),
        Grammar::opt(Grammar::arg(c_h_m_o_u_target_rev_grammar())),
    ])
}

/// Builds the grammar of the `checkout` command.
fn checkout() -> (node: Node)
    ensures
        node@ == checkout_grammar(),
{
    proof {
        reveal(checkout_grammar);
    }
    crate::tree::seq([
        emit("checkout"),
        argset([
            f("B", "B"),
            f("bb", "B"),
            f("b", "b"),
            f("l", "l"),
            flag("d", "detach"),
            flag("f", "force"),
            flag("g", "guess"),
            flag("-g", "no-guess"),
            flag("m", "merge"),
            flag("-o", "no-overlay"),
            os_ts_ours_theirs(),
            flag("p", "patch"),
            t_track(),
        ]),
        opt(eat(",")),
        opt(arg(c_h_m_o_u_target_rev())),
    ])
}

/// The grammar of the `show` command.
#[verifier::opaque]
pub open spec fn show_grammar() -> Grammar {
    Grammar::Sequence(seq![
        Grammar::EmitLiteral("show"@),
        Grammar::argset(seq![
            Grammar::flag("a"@, "abbrev-commit"@),
            Grammar::flag("w"@, "ignore-space-change"@),
            f_pretty_grammar(),
            Grammar::f("m"@, "m"@),
            Grammar::flag("-n"@, "no-notes"@),
            Grammar::flag("-p"@, "no-patch"@),
            Grammar::flag("o"@, "oneline"@),
            Grammar::flag("s"@, "stat"@),
        ]),
        separator_grammar(),
        Grammar::opt(Grammar::arg(c_h_m_o_u_target_rev_grammar())),
    ])
}

/// Builds the grammar of the `show` command.
fn show() -> (node: Node)
    ensures
        node@ == show_grammar(),
{
    proof {
        reveal(show_grammar);
    }
    crate::tree::seq([
        emit("show"),
        argset([
            flag("a", "abbrev-commit"),
            flag("w", "ignore-space-change"),
            f_pretty(),
            f("m", "m"),
            flag("-n", "no-notes"),
            flag("-p", "no-patch"),
            flag("o", "oneline"),
            flag("s", "stat"),
        ]),
        separator(),
        opt(arg(c_h_m_o_u_target_rev())),
    ])
}

/// The grammar of the `init` command.
#[verifier::opaque]
pub open spec fn init_grammar() -> Grammar {
    Grammar::Sequence(seq![
        Grammar::EmitLiteral("init"@),
        Grammar::argset(seq![
            Grammar::flag("b"@, "bare"@),
            Grammar::param(
                "o"@,
                "object-format"@,
                Grammar::Alternation(seq![
                    Grammar::word("1"@, "sha1"@),
                    Grammar::word("2"@, "sha256"@),
                ]),
            ),
            Grammar::param(
                "r"@,
                "ref-format"@,
                Grammar::Alternation(seq![
                    Grammar::word("f"@, "files"@),
                    Grammar::word("t"@, "reftable"@),
                ]),
            ),
            Grammar::param("ib"@, "initial-branch"@, Grammar::EmitLiteral(CURSOR@)),
            Grammar::param("t"@, "template"@, Grammar::EmitLiteral(CURSOR@)),
        ]),
    ])
}

/// Builds the grammar of the `init` command.
fn init() -> (node: Node)
    ensures
        node@ == init_grammar(),
{
    proof {
        reveal(init_grammar);
    }
    crate::tree::seq([
        emit("init"),
        argset([
            flag("b", "bare"),
            param(
                "o",
                "object-format",
                or([word("1", "sha1"), word("2", "sha256")]),
            ),
            param(
                "r",
                "ref-format",
                or([word("f", "files"), word("t", "reftable")]),
            ),
            param("ib", "initial-branch", emit(CURSOR)),
            param("t", "template", emit(CURSOR)),
        ]),
    ])
}

/// The grammar of the `clone` command.
#[verifier::opaque]
pub open spec fn clone_grammar() -> Grammar {
    Grammar::Sequence(seq![
        Grammar::EmitLiteral("clone"@),
        Grammar::argset(seq![
            Grammar::flag("0"@, "bare"@),
            Grammar::flag("1"@, "single-branch"@),
            Grammar::param("b"@, "branch"@, Grammar::EmitLiteral(CURSOR@)),
            Grammar::param("d"@, "depth"@, Grammar::Number),
            Grammar::param("d"@, "dissociate"@, Grammar::EmitLiteral(CURSOR@)),
            Grammar::flag("h"@, "shared"@),
            Grammar::param("j"@, "jobs"@, Grammar::Number),
            Grammar::flag("l"@, "local"@),
            Grammar::flag("m"@, "mirror"@),
            Grammar::flag("-g"@, "no-checkout"@),
            Grammar::flag("-hl"@, "no-hardlinks"@),
            Grammar::param("o"@, "origin"@, Grammar::EmitLiteral(CURSOR@)),
            Grammar::flag("s"@, "sparse"@),
            Grammar::flag("t"@, "tags"@),
            Grammar::flag("-t"@, "no-tags"@),
            Grammar::param("rf"@, "reference"@, Grammar::EmitLiteral(CURSOR@)),
            Grammar::param("rv"@, "revision"@, Grammar::EmitLiteral(CURSOR@)),
        ]),
        separator_grammar(),
        Grammar::opt(Grammar::arg(c_h_m_o_u_target_rev_grammar())),
    ])
}

/// Builds the grammar of the `clone` command.
fn clone() -> (node: Node)
    ensures
        node@ == clone_grammar(),
{
    proof {
        reveal(clone_grammar);
    }
    crate::tree::seq([
        emit("clone"),
        argset([
            flag("0", "bare"),
            flag("1", "single-branch"),
            param("b", "branch", emit(CURSOR)),
            param("d", "depth", number()),
            param("d", "dissociate", emit(CURSOR)),
            flag("h", "shared"),
            param("j", "jobs", number()),
            flag("l", "local"),
            flag("m", "mirror"),
            flag("-g", "no-checkout"),
            flag("-hl", "no-hardlinks"),
            param("o", "origin", emit(CURSOR)),
            flag("s", "sparse"),
            flag("t", "tags"),
            flag("-t", "no-tags"),
            param("rf", "reference", emit(CURSOR)),
            param("rv", "revision", emit(CURSOR)),
        ]),
        separator(),
        opt(arg(c_h_m_o_u_target_rev())),
    ])
}

/// The grammar of the `log` command.
#[verifier::opaque]
pub open spec fn log_grammar() -> Grammar {
    Grammar::Sequence(seq![
        Grammar::EmitLiteral("log"@),
        Grammar::argset(seq![
            Grammar::flag("1"@, "first-parent"@),
            Grammar::flag("ac"@, "abbrev-commit"@),
            Grammar::flag("-ac"@, "no-abbrev-commit"@),
            Grammar::flag("a"@, "all"@),
            Grammar::param_opt(
                "d"@,
                "decorate"@,
                Grammar::Alternation(seq![
                    Grammar::word("s"@, "short"@),
                    Grammar::word("f"@, "full"@),
                    Grammar::word("a"@, "auto"@),
                    Grammar::word("n"@, "no"@),
                ]),
            ),
            Grammar::flag("-d"@, "no-decorate"@),
            Grammar::flag("F"@, "follow"@),
            f_pretty_grammar(),
            Grammar::flag("g"@, "graph"@),
            Grammar::flag("m"@, "merges"@),
            Grammar::param("n"@, "max-count"@, Grammar::Number),
            Grammar::flag("o"@, "oneline"@),
            Grammar::flag("p"@, "patch"@),
            Grammar::flag("s"@, "stat"@),
            Grammar::flag("ww"@, "ignore-all-space"@),
            Grammar::flag("w"@, "ignore-space-change"@),
        ]),
        separator_grammar(),
        Grammar::opt(Grammar::arg(c_h_m_o_u_target_rev_grammar())),
    ])
}

/// Builds the grammar of the `log` command.
fn log() -> (node: Node)
    ensures
        node@ == log_grammar(),
{
    proof {
        reveal(log_grammar);
    }
    crate::tree::seq([
        emit("log"),
        argset([
            flag("1", "first-parent"),
            flag("ac", "abbrev-commit"),
            flag("-ac", "no-abbrev-commit"),
            flag("a", "all"),
            param_opt(
                "d",
                "decorate",
                or([
                    word("s", "short"),
                    word("f", "full"),
                    word("a", "auto"),
                    word("n", "no"),
                ]),
            ),
            flag("-d", "no-decorate"),
            flag("F", "follow"),
            f_pretty(),
            flag("g", "graph"),
            flag("m", "merges"),
            param("n", "max-count", number()),
            flag("o", "oneline"),
            flag("p", "patch"),
            flag("s", "stat"),
            flag("ww", "ignore-all-space"),
            flag("w", "ignore-space-change"),
        ]),
        separator(),
        opt(arg(c_h_m_o_u_target_rev())),
    ])
}

/// The grammar of the `merge` command.
#[verifier::opaque]
pub open spec fn merge_grammar() -> Grammar {
    Grammar::Sequence(seq![
        Grammar::EmitLiteral("merge"@),
        Grammar::arg(Grammar::Alternation(seq![
            Grammar::flag("a"@, "abort"@),
            Grammar::flag("c"@, "continue"@),
            Grammar::flag("q"@, "quit"@),
            Grammar::Sequence(seq![
                Grammar::argset(seq![]),
                separator_grammar(),
                Grammar::opt(c_h_m_o_u_target_rev_grammar()),
            ]),
        ])),
    ])
}

/// Builds the grammar of the `merge` command.
fn merge() -> (node: Node)
    ensures
        node@ == merge_grammar(),
{
    proof {
        reveal(merge_grammar);
    }
    crate::tree::seq([
        emit("merge"),
        arg(or([
            flag("a", "abort"),
            flag("c", "continue"),
            flag("q", "quit"),
            crate::tree::seq([argset([]), separator(), opt(c_h_m_o_u_target_rev())]),
        ])),
    ])
}

/// The grammar of the `push` command.
#[verifier::opaque]
pub open spec fn push_grammar() -> Grammar {
    Grammar::Sequence(seq![
        Grammar::EmitLiteral("push"@),
        Grammar::argset(seq![
            Grammar::flag("4"@, "ipv4"@),
            Grammar::flag("6"@, "ipv6"@),
            Grammar::flag("d"@, "dry-run"@),
            Grammar::flag("ff"@, "force"@),
            Grammar::flag("f"@, "force-with-lease"@),
            Grammar::flag("th"@, "thin"@),
            Grammar::flag("-th"@, "no-thin"@),
            Grammar::flag("t"@, "tags"@),
            Grammar::flag("-t"@, "no-tags"@),
            Grammar::flag("u"@, "set-upstream"@),
            Grammar::flag("v"@, "verify"@),
            Grammar::flag("-v"@, "no-verify"@),
        ]),
        separator_grammar(),
        Grammar::opt(Grammar::arg(Grammar::Sequence(seq![
            c_o_target_remote_grammar(),
            Grammar::opt(Grammar::arg(c_h_m_o_u_target_branch_grammar())),
        ]))),
    ])
}

/// Builds the grammar of the `push` command.
fn push() -> (node: Node)
    ensures
        node@ == push_grammar(),
{
    proof {
        reveal(push_grammar);
    }
    crate::tree::seq([
        emit("push"),
        argset([
            flag("4", "ipv4"),
            flag("6", "ipv6"),
            flag("d", "dry-run"),
            flag("ff", "force"),
            flag("f", "force-with-lease"),
            flag("th", "thin"),
            flag("-th", "no-thin"),
            flag("t", "tags"),
            flag("-t", "no-tags"),
            flag("u", "set-upstream"),
            flag("v", "verify"),
            flag("-v", "no-verify"),
        ]),
        separator(),
        opt(arg(crate::tree::seq([
            c_o_target_remote(),
            opt(arg(c_h_m_o_u_target_branch())),
        ]))),
    ])
}

/// The grammar of the `pull` command.
#[verifier::opaque]
pub open spec fn pull_grammar() -> Grammar {
    Grammar::Sequence(seq![
        Grammar::EmitLiteral("pull"@),
        Grammar::argset(seq![
            Grammar::flag("4"@, "ipv4"@),
            Grammar::flag("6"@, "ipv6"@),
            Grammar::flag("a"@, "all"@),
            Grammar::flag("d"@, "dry-run"@),
            Grammar::flag("ffo"@, "ff-only"@),
            Grammar::flag("ff"@, "ff"@),
            Grammar::flag("-ff"@, "no-ff"@),
            Grammar::flag("f"@, "force"@),
            Grammar::flag("p"@, "prune"@),
            Grammar::flag("r"@, "rebase"@),
            Grammar::flag("-r"@, "no-rebase"@),
            Grammar::flag("t"@, "tags"@),
            Grammar::flag("-t"@, "no-tags"@),
            Grammar::flag("v"@, "verify"@),
            Grammar::flag("-v"@, "no-verify"@),
        ]),
    ])
}

/// Builds the grammar of the `pull` command.
fn pull() -> (node: Node)
    ensures
        node@ == pull_grammar(),
{
    proof {
        reveal(pull_grammar);
    }
    crate::tree::seq([
        emit("pull"),
        argset([
            flag("4", "ipv4"),
            flag("6", "ipv6"),
            flag("a", "all"),
            flag("d", "dry-run"),
            flag("ffo", "ff-only"),
            flag("ff", "ff"),
            flag("-ff", "no-ff"),
            flag("f", "force"),
            flag("p", "prune"),
            flag("r", "rebase"),
            flag("-r", "no-rebase"),
            flag("t", "tags"),
            flag("-t", "no-tags"),
            flag("v", "verify"),
            flag("-v", "no-verify"),
        ]),
    ])
}

/// The grammar of the `reflog` command.
#[verifier::opaque]
pub open spec fn reflog_grammar() -> Grammar {
    Grammar::Sequence(seq![
        Grammar::EmitLiteral("reflog"@),
        Grammar::arg(Grammar::Alternation(seq![
            Grammar::Sequence(seq![Grammar::word("s"@, "show"@), Grammar::argset(seq![])]),
            Grammar::word("l"@, "list"@),
            Grammar::word("e"@, "exists"@),
            Grammar::Sequence(seq![
                Grammar::word("x"@, "expire"@),
                Grammar::set(seq![
                    Grammar::flag("a"@, "all"@),
                    Grammar::flag("d"@, "dry-run"@),
                    Grammar::param("ee"@, "expire"@, a_n_reflog_expire_param_grammar()),
                    Grammar::param("e"@, "expire-unreachable"@, a_n_reflog_expire_param_grammar()),
                    Grammar::flag("r"@, "rewrite"@),
                    Grammar::flag("sf"@, "stale-fix"@),
                    Grammar::flag("sw"@, "single-worktree"@),
                    Grammar::flag("u"@, "updateref"@),
                ]),
            ]),
            Grammar::Sequence(seq![
                Grammar::word("d"@, "delete"@),
                Grammar::argset(seq![
                    Grammar::flag("d"@, "dry-run"@),
                    Grammar::flag("r"@, "rewrite"@),
                    Grammar::flag("u"@, "updateref"@),
                ]),
            ]),
            Grammar::Sequence(seq![
                Grammar::word("D"@, "drop"@),
                Grammar::opt(Grammar::Sequence(seq![
                    Grammar::arg(Grammar::flag("a"@, "all"@)),
                    Grammar::opt(Grammar::arg(Grammar::flag("sw"@, "single-worktree"@))),
                ])),
            ]),
        ])),
    ])
}

/// Builds the grammar of the `reflog` command.
fn reflog() -> (node: Node)
    ensures
        node@ == reflog_grammar(),
{
    proof {
        reveal(reflog_grammar);
    }
    crate::tree::seq([
        emit("reflog"),
        arg(or([
            crate::tree::seq([
                word("s", "show"),
                argset([]),
            ]),
            word("l", "list"),
            word("e", "exists"),
            crate::tree::seq([
                word("x", "expire"),
                crate::tree::set([
                    flag("a", "all"),
                    flag("d", "dry-run"),
                    param("ee", "expire", a_n_reflog_expire_param()),
                    param("e", "expire-unreachable", a_n_reflog_expire_param()),
                    flag("r", "rewrite"),
                    flag("sf", "stale-fix"),
                    flag("sw", "single-worktree"),
                    flag("u", "updateref"),
                ]),
            ]),
            crate::tree::seq([
                word("d", "delete"),
                argset([
                    flag("d", "dry-run"),
                    flag("r", "rewrite"),
                    flag("u", "updateref"),
                ]),
            ]),
            crate::tree::seq([
                word("D", "drop"),
                opt(crate::tree::seq([
                    arg(flag("a", "all")),
                    opt(arg(flag("sw", "single-worktree"))),
                ])),
            ]),
        ])),
    ])
}

/// The grammar of the `reset` command.
#[verifier::opaque]
pub open spec fn reset_grammar() -> Grammar {
    Grammar::Sequence(seq![
        Grammar::EmitLiteral("reset"@),
        Grammar::argset(seq![
            Grammar::Alternation(seq![
                Grammar::flag("h"@, "hard"@),
                Grammar::flag("k"@, "keep"@),
                Grammar::flag("m"@, "merge"@),
                Grammar::flag("r"@, "recurse-submodules"@),
                Grammar::flag("s"@, "soft"@),
            ]),
            Grammar::flag("-r"@, "no-refresh"@),
        ]),
        separator_grammar(),
        Grammar::opt(Grammar::arg(c_h_m_o_u_target_rev_grammar())),
    ])
}

/// Builds the grammar of the `reset` command.
fn reset() -> (node: Node)
    ensures
        node@ == reset_grammar(),
{
    proof {
        reveal(reset_grammar);
    }
    crate::tree::seq([
        emit("reset"),
        argset([
            or([
                flag("h", "hard"),
                flag("k", "keep"),
                flag("m", "merge"),
                flag("r", "recurse-submodules"),
                flag("s", "soft"),
            ]),
            flag("-r", "no-refresh"),
        ]),
        separator(),
        opt(arg(c_h_m_o_u_target_rev())),
    ])
}

/// The grammar of the `switch` command.
#[verifier::opaque]
pub open spec fn switch_grammar() -> Grammar {
    Grammar::Sequence(seq![
        Grammar::EmitLiteral("switch"@),
        Grammar::argset(seq![
            Grammar::flag("C"@, "force-create"@),
            Grammar::flag("c"@, "create"@),
            Grammar::flag("d"@, "detach"@),
            Grammar::flag("fc"@, "force-create"@),
            Grammar::flag("f"@, "force"@),
            Grammar::flag("iow"@, "ignore-other-worktrees"@),
            Grammar::flag("-g"@, "no-guess"@),
            t_track_grammar(),
        ]),
        separator_grammar(),
        Grammar::opt(Grammar::arg(c_h_m_o_u_target_branch_grammar())),
    ])
}

/// Builds the grammar of the `switch` command.
fn switch() -> (node: Node)
    ensures
        node@ == switch_grammar(),
{
    proof {
        reveal(switch_grammar);
    }
    crate::tree::seq([
        emit("switch"),
        argset([
            flag("C", "force-create"),
            flag("c", "create"),
            flag("d", "detach"),
            flag("fc", "force-create"),
            flag("f", "force"),
            flag("iow", "ignore-other-worktrees"),
            flag("-g", "no-guess"),
            t_track(),
        ]),
        separator(),
        opt(arg(c_h_m_o_u_target_branch())),
    ])
}

/// The grammar of the `tag` command.
#[verifier::opaque]
pub open spec fn tag_grammar() -> Grammar {
    Grammar::Sequence(seq![
        Grammar::EmitLiteral("tag"@),
        Grammar::argset(seq![
            Grammar::flag("a"@, "annotate"@),
            Grammar::flag("d"@, "delete"@),
            Grammar::flag("e"@, "edit"@),
            Grammar::flag("f"@, "force"@),
            Grammar::flag("ic"@, "ignore-case"@),
            Grammar::flag("l"@, "list"@),
            Grammar::param_opt("mg"@, "merged"@, c_h_m_o_u_target_rev_grammar()),
            Grammar::param_opt("-m"@, "no-merged"@, c_h_m_o_u_target_rev_grammar()),
            m_message_grammar(),
            Grammar::flag("-s"@, "no-sign"@),
            Grammar::flag("oe"@, "omit-empty"@),
            Grammar::flag("s"@, "sign"@),
            Grammar::flag("v"@, "verify"@),
        ]),
    ])
}

/// Builds the grammar of the `tag` command.
fn tag() -> (node: Node)
    ensures
        node@ == tag_grammar(),
{
    proof {
        reveal(tag_grammar);
    }
    crate::tree::seq([
        emit("tag"),
        argset([
            flag("a", "annotate"),
            flag("d", "delete"),
            flag("e", "edit"),
            flag("f", "force"),
            flag("ic", "ignore-case"),
            flag("l", "list"),
            param_opt("mg", "merged", c_h_m_o_u_target_rev()),
            param_opt("-m", "no-merged", c_h_m_o_u_target_rev()),
            m_message(),
            flag("-s", "no-sign"),
            flag("oe", "omit-empty"),
            flag("s", "sign"),
            flag("v", "verify"),
        ]),
    ])
}

/// The grammar of the `restore` command.
#[verifier::opaque]
pub open spec fn restore_grammar() -> Grammar {
    Grammar::Sequence(seq![
        Grammar::EmitLiteral("restore"@),
        Grammar::argset(seq![
            Grammar::flag("i"@, "staged"@),
            Grammar::flag("m"@, "merge"@),
            os_ts_ours_theirs_grammar(),
            Grammar::flag("p"@, "patch"@),
            rs_recurse_submodules_grammar(),
            Grammar::param("s"@, "source"@, c_h_m_o_u_target_rev_grammar()),
            Grammar::flag("w"@, "worktree"@),
        ]),
    ])
}

/// Builds the grammar of the `restore` command.
fn restore() -> (node: Node)
    ensures
        node@ == restore_grammar(),
{
    proof {
        reveal(restore_grammar);
    }
    crate::tree::seq([
        emit("restore"),
        argset([
            flag("i", "staged"), // i for index
            flag("m", "merge"),
            os_ts_ours_theirs(),
            flag("p", "patch"),
            rs_recurse_submodules(),
            param("s", "source", c_h_m_o_u_target_rev()),
            flag("w", "worktree"),
        ]),
    ])
}

/// The grammar of the `status` command.
#[verifier::opaque]
pub open spec fn status_grammar() -> Grammar {
    Grammar::Sequence(seq![
        Grammar::EmitLiteral("status"@),
        Grammar::argset(seq![
            Grammar::flag("a"@, "ahead-behind"@),
            Grammar::flag("-a"@, "no-ahead-behind"@),
            Grammar::param("fr"@, "find-renames"@, Grammar::Number),
            Grammar::param(
                "i"@,
                "ignored"@,
                Grammar::opt(Grammar::Alternation(seq![
                    Grammar::word("t"@, "traditional"@),
                    Grammar::word("m"@, "matching"@),
                ])),
            ),
            Grammar::param("-i"@, "ignored"@, Grammar::EmitLiteral("no"@)),
            Grammar::flag("l"@, "long"@),
            Grammar::flag("r"@, "renames"@),
            Grammar::flag("-r"@, "no-renames"@),
            Grammar::flag("s"@, "short"@),
            Grammar::param(
                "u"@,
                "untracked-files"@,
                Grammar::opt(Grammar::Alternation(seq![
                    Grammar::word("n"@, "normal"@),
                    Grammar::word("a"@, "all"@),
                ])),
            ),
            Grammar::param("nu"@, "untracked-files"@, Grammar::EmitLiteral("no"@)),
            Grammar::flag("z"@, "show-stash"@),
        ]),
    ])
}

/// Builds the grammar of the `status` command.
fn status() -> (node: Node)
    ensures
        node@ == status_grammar(),
{
    proof {
        reveal(status_grammar);
    }
    crate::tree::seq([
        emit("status"),
        argset([
            flag("a", "ahead-behind"),
            flag("-a", "no-ahead-behind"),
            param("fr", "find-renames", number()),
            param(
                "i",
                "ignored",
                opt(or([word("t", "traditional"), word("m", "matching")])),
            ),
            param("-i", "ignored", emit("no")),
            flag("l", "long"),
            flag("r", "renames"),
            flag("-r", "no-renames"),
            flag("s", "short"),
            param(
                "u",
                "untracked-files",
                opt(or([word("n", "normal"), word("a", "all")])),
            ),
            param("nu", "untracked-files", emit("no")),
            flag("z", "show-stash"),
        ]),
    ])
}

/// The grammar of the `worktree` command.
#[verifier::opaque]
pub open spec fn worktree_grammar() -> Grammar {
    Grammar::Sequence(seq![
        Grammar::EmitLiteral("worktree"@),
        Grammar::arg(Grammar::Alternation(seq![
            Grammar::Sequence(seq![
                Grammar::word("a"@, "add"@),
                Grammar::argset(seq![
                    Grammar::flag("d"@, "detach"@),
                    Grammar::flag("f"@, "force"@),
                    Grammar::flag("l"@, "lock"@),
                    Grammar::flag("-c"@, "no-checkout"@),
                    Grammar::flag("-g"@, "no-guess-remote"@),
                    Grammar::flag("-rp"@, "no-relative-paths"@),
                    Grammar::flag("-t"@, "no-track"@),
                    Grammar::flag("o"@, "orphan"@),
                ]),
            ]),
            Grammar::Sequence(seq![Grammar::word("l"@, "lock"@), Grammar::argset(seq![])]),
            Grammar::Sequence(seq![
                Grammar::word("m"@, "move"@),
                Grammar::argset(seq![Grammar::flag("f"@, "force"@)]),
            ]),
            Grammar::Sequence(seq![
                Grammar::word("p"@, "prune"@),
                Grammar::argset(seq![Grammar::flag("d"@, "dry-run"@)]),
            ]),
            Grammar::Sequence(seq![Grammar::word("R"@, "repair"@), Grammar::argset(seq![])]),
            Grammar::Sequence(seq![
                Grammar::word("r"@, "remove"@),
                Grammar::argset(seq![Grammar::flag("f"@, "force"@)]),
            ]),
            Grammar::Sequence(seq![Grammar::word("u"@, "unlock"@), Grammar::argset(seq![])]),
            Grammar::Sequence(seq![Grammar::word("v"@, "list"@), Grammar::argset(seq![])]),
        ])),
    ])
}

/// Builds the grammar of the `worktree` command.
fn worktree() -> (node: Node)
    ensures
        node@ == worktree_grammar(),
{
    proof {
        reveal(worktree_grammar);
    }
    crate::tree::seq([
        emit("worktree"),
        arg(or([
            crate::tree::seq([
                word("a", "add"),
                argset([
                    flag("d", "detach"),
                    flag("f", "force"),
                    flag("l", "lock"),
                    flag("-c", "no-checkout"),
                    flag("-g", "no-guess-remote"),
                    flag("-rp", "no-relative-paths"),
                    flag("-t", "no-track"),
                    flag("o", "orphan"),
                ]),
            ]),
            crate::tree::seq([word("l", "lock"), argset([])]),
            crate::tree::seq([word("m", "move"), argset([flag("f", "force")])]),
            crate::tree::seq([word("p", "prune"), argset([flag("d", "dry-run")])]),
            crate::tree::seq([word("R", "repair"), argset([])]),
            crate::tree::seq([word("r", "remove"), argset([flag("f", "force")])]),
            crate::tree::seq([word("u", "unlock"), argset([])]),
            crate::tree::seq([word("v", "list"), argset([])]),
        ])),
    ])
}

/// The grammar of the `clean` command.
#[verifier::opaque]
pub open spec fn clean_grammar() -> Grammar {
    Grammar::Sequence(seq![
        Grammar::EmitLiteral("clean"@),
        Grammar::argset(seq![
            Grammar::f("d"@, "d"@),
            Grammar::flag("f"@, "force"@),
            Grammar::flag("i"@, "interactive"@),
            Grammar::flag("n"@, "dry-run"@),
            Grammar::f("xx"@, "xX"@),
            Grammar::f("x"@, "x"@),
            Grammar::f("X"@, "X"@),
        ]),
    ])
}

/// Builds the grammar of the `clean` command.
fn clean() -> (node: Node)
    ensures
        node@ == clean_grammar(),
{
    proof {
        reveal(clean_grammar);
    }
    crate::tree::seq([
        emit("clean"),
        argset([
            f("d", "d"),
            flag("f", "force"),
            flag("i", "interactive"),
            flag("n", "dry-run"),
            f("xx", "xX"),
            f("x", "x"),
            f("X", "X"),
        ]),
    ])
}

/// The grammar of the `stash` command.
#[verifier::opaque]
pub open spec fn stash_grammar() -> Grammar {
    Grammar::Sequence(seq![
        Grammar::EmitLiteral("stash"@),
        Grammar::opt(Grammar::arg(Grammar::Alternation(seq![
            Grammar::Sequence(seq![Grammar::word("a"@, "apply"@), Grammar::argset(seq![])]),
            Grammar::Sequence(seq![Grammar::word("b"@, "branch"@), Grammar::argset(seq![])]),
            Grammar::Sequence(seq![Grammar::word("c"@, "clear"@), Grammar::argset(seq![])]),
            Grammar::Sequence(seq![Grammar::word("d"@, "drop"@), Grammar::argset(seq![])]),
            Grammar::Sequence(seq![Grammar::word("h"@, "show"@), Grammar::argset(seq![])]),
            Grammar::Sequence(seq![Grammar::word("l"@, "list"@), Grammar::argset(seq![])]),
            Grammar::Sequence(seq![Grammar::word("m"@, "create"@), Grammar::argset(seq![])]),
            Grammar::Sequence(seq![Grammar::word("o"@, "pop"@), Grammar::argset(seq![])]),
            Grammar::Sequence(seq![
                Grammar::word("p"@, "push"@),
                Grammar::argset(seq![
                    Grammar::flag("a"@, "all"@),
                    m_message_grammar(),
                    Grammar::flag("p"@, "patch"@),
                    Grammar::flag("s"@, "staged"@),
                ]),
            ]),
            Grammar::Sequence(seq![
                Grammar::word("s"@, "save"@),
                Grammar::argset(seq![
                    Grammar::flag("a"@, "all"@),
                    Grammar::flag("p"@, "patch"@),
                    Grammar::flag("s"@, "staged"@),
                ]),
            ]),
            Grammar::Sequence(seq![Grammar::word("t"@, "store"@), Grammar::argset(seq![])]),
        ]))),
    ])
}

/// Builds the grammar of the `stash` command.
#[verifier::rlimit(60)]
fn stash() -> (node: Node)
    ensures
        node@ == stash_grammar(),
{
    proof {
        reveal(stash_grammar);
    }
    crate::tree::seq([
        emit("stash"),
        opt(arg(or([
            crate::tree::seq([word("a", "apply"), argset([])]),
            crate::tree::seq([word("b", "branch"), argset([])]),
            crate::tree::seq([word("c", "clear"), argset([])]),
            crate::tree::seq([word("d", "drop"), argset([])]),
            crate::tree::seq([word("h", "show"), argset([])]),
            crate::tree::seq([word("l", "list"), argset([])]),
            crate::tree::seq([word("m", "create"), argset([])]),
            crate::tree::seq([word("o", "pop"), argset([])]),
            crate::tree::seq([
                word("p", "push"),
                argset([
                    flag("a", "all"),
                    m_message(),
                    flag("p", "patch"),
                    flag("s", "staged"),
                ]),
            ]),
            crate::tree::seq([
                word("s", "save"),
                argset([flag("a", "all"), flag("p", "patch"), flag("s", "staged")]),
            ]),
            crate::tree::seq([word("t", "store"), argset([])]),
        ]))),
    ])
}

/// The grammar of the optional mark between the flags of a command and its targets.
#[verifier::opaque]
pub open spec fn separator_grammar() -> Grammar {
    Grammar::opt(Grammar::Alternation(seq![Grammar::EatLiteral(","@), Grammar::EatLiteral("/"@)]))
}

/// Builds the grammar of the optional mark between the flags of a command and its targets.
fn separator() -> (node: Node)
    ensures
        node@ == separator_grammar(),
{
    proof {
        reveal(separator_grammar);
    }
    opt(or([eat(","), eat("/")]))
}

/// The grammar of the choice of a diff algorithm.
#[verifier::opaque]
pub open spec fn da_diff_algorithm_grammar() -> Grammar {
    Grammar::param(
        "da"@,
        "diff-algorithm"@,
        Grammar::Alternation(seq![
            Grammar::word("h"@, "histogram"@),
            Grammar::word("m"@, "minimal"@),
            Grammar::word("y"@, "myers"@),
            Grammar::word("p"@, "patience"@),
        ]),
    )
}

/// Builds the grammar of the choice of a diff algorithm.
fn da_diff_algorithm() -> (node: Node)
    ensures
        node@ == da_diff_algorithm_grammar(),
{
    proof {
        reveal(da_diff_algorithm_grammar);
    }
    param(
        "da",
        "diff-algorithm",
        or([
            word("h", "histogram"),
            word("m", "minimal"),
            word("y", "myers"),
            word("p", "patience"),
        ]),
    )
}

/// The grammar of a branch named by its role: current, head, main, main remote head or
/// upstream.
#[verifier::opaque]
pub open spec fn c_h_m_o_u_target_branch_grammar() -> Grammar {
    Grammar::Alternation(seq![
        Grammar::map_custom("c"@, Source::CurrentBranch),
        Grammar::word("h"@, "HEAD"@),
        Grammar::map_custom("m"@, Source::MainBranch),
        Grammar::map_custom("o"@, Source::MainRemoteHead),
        Grammar::map_custom("u"@, Source::CurrentUpstream),
    ])
}

/// Builds the grammar of a branch named by its role: current, head, main, main remote head or
/// upstream.
fn c_h_m_o_u_target_branch() -> (node: Node)
    ensures
        node@ == c_h_m_o_u_target_branch_grammar(),
{
    proof {
        reveal(c_h_m_o_u_target_branch_grammar);
    }
    or([
        map_custom("c", Source::CurrentBranch),
        word("h", "HEAD"),
        map_custom("m", Source::MainBranch),
        map_custom("o", Source::MainRemoteHead),
        map_custom("u", Source::CurrentUpstream),
    ])
}

/// The grammar of a remote named by its role: current or main.
#[verifier::opaque]
pub open spec fn c_o_target_remote_grammar() -> Grammar {
    Grammar::Alternation(seq![
        Grammar::map_custom("c"@, Source::CurrentRemote),
        Grammar::map_custom("o"@, Source::MainRemote),
    ])
}

/// Builds the grammar of a remote named by its role: current or main.
fn c_o_target_remote() -> (node: Node)
    ensures
        node@ == c_o_target_remote_grammar(),
{
    proof {
        reveal(c_o_target_remote_grammar);
    }
    or([
        map_custom("c", Source::CurrentRemote),
        map_custom("o", Source::MainRemote),
    ])
}

/// The grammar of the flag that recurses into submodules.
#[verifier::opaque]
pub open spec fn rs_recurse_submodules_grammar() -> Grammar {
    Grammar::flag("rs"@, "recurse-submodules"@)
}

/// Builds the grammar of the flag that recurses into submodules.
fn rs_recurse_submodules() -> (node: Node)
    ensures
        node@ == rs_recurse_submodules_grammar(),
{
    proof {
        reveal(rs_recurse_submodules_grammar);
    }
    flag("rs", "recurse-submodules")
}

/// The grammar of a revision: a branch by its role, a number of commits behind the head, or an
/// entry of the reflog.
#[verifier::opaque]
pub open spec fn c_h_m_o_u_target_rev_grammar() -> Grammar {
    Grammar::Alternation(seq![
        c_h_m_o_u_target_branch_grammar(),
        Grammar::Sequence(seq![Grammar::word("-"@, "HEAD~"@), Grammar::opt(Grammar::Number)]),
        Grammar::Sequence(seq![
            Grammar::word("@"@, "HEAD@{"@),
            Grammar::Number,
            Grammar::EmitLiteral("}"@),
        ]),
    ])
}

/// Builds the grammar of a revision: a branch by its role, a number of commits behind the head,
/// or an entry of the reflog.
fn c_h_m_o_u_target_rev() -> (node: Node)
    ensures
        node@ == c_h_m_o_u_target_rev_grammar(),
{
    proof {
        reveal(c_h_m_o_u_target_rev_grammar);
    }
    or([
        c_h_m_o_u_target_branch(),
        crate::tree::seq([word("-", "HEAD~"), opt(number())]),
        crate::tree::seq([word("@", "HEAD@{"), number(), emit("}")]),
    ])
}

/// The grammar of a message, with the cursor between its quotes.
#[verifier::opaque]
pub open spec fn m_message_grammar() -> Grammar {
    Grammar::param(
        "m"@,
        "message"@,
        Grammar::Sequence(seq![
            Grammar::EmitLiteral("\""@),
            Grammar::EmitLiteral(CURSOR@),
            Grammar::EmitLiteral("\""@),
        ]),
    )
}

/// Builds the grammar of a message, with the cursor between its quotes.
fn m_message() -> (node: Node)
    ensures
        node@ == m_message_grammar(),
{
    proof {
        reveal(m_message_grammar);
    }
    param("m", "message", crate::tree::seq([emit("\""), emit(CURSOR), emit("\"")]))
}

/// The grammar of the tracking mode of a new branch.
#[verifier::opaque]
pub open spec fn t_track_grammar() -> Grammar {
    Grammar::Alternation(seq![
        Grammar::param(
            "t"@,
            "track"@,
            Grammar::opt(Grammar::Alternation(seq![
                Grammar::word("d"@, "direct"@),
                Grammar::word("i"@, "indirect"@),
            ])),
        ),
        Grammar::flag("-t"@, "no-track"@),
    ])
}

/// Builds the grammar of the tracking mode of a new branch.
fn t_track() -> (node: Node)
    ensures
        node@ == t_track_grammar(),
{
    proof {
        reveal(t_track_grammar);
    }
    or([
        param(
            "t",
            "track",
            opt(or([word("d", "direct"), word("i", "indirect")])),
        ),
        flag("-t", "no-track"),
    ])
}

/// The grammar of the pretty-printing format.
#[verifier::opaque]
pub open spec fn f_pretty_grammar() -> Grammar {
    Grammar::param_opt(
        "f"@,
        "pretty"@,
        Grammar::Alternation(seq![
            Grammar::word("e"@, "email"@),
            Grammar::word("ff"@, "fuller"@),
            Grammar::word("f"@, "full"@),
            Grammar::word("m"@, "medium"@),
            Grammar::word("o"@, "oneline"@),
            Grammar::word("rf"@, "reference"@),
            Grammar::word("r"@, "raw"@),
            Grammar::word("s"@, "short"@),
            Grammar::word("_"@, "format:%"@),
            Grammar::word("t_"@, "tformat:%"@),
        ]),
    )
}

/// Builds the grammar of the pretty-printing format.
fn f_pretty() -> (node: Node)
    ensures
        node@ == f_pretty_grammar(),
{
    proof {
        reveal(f_pretty_grammar);
    }
    param_opt(
        "f",
        "pretty",
        or([
            word("e", "email"),
            word("ff", "fuller"),
            word("f", "full"),
            word("m", "medium"),
            word("o", "oneline"),
            word("rf", "reference"),
            word("r", "raw"),
            word("s", "short"),
            word("_", "format:%"),
            word("t_", "tformat:%"),
        ]),
    )
}

/// The grammar of when entries of the reflog expire.
#[verifier::opaque]
pub open spec fn a_n_reflog_expire_param_grammar() -> Grammar {
    Grammar::Alternation(seq![
        Grammar::word("a"@, "all"@),
        Grammar::word("n"@, "never"@),
        Grammar::map("_"@, Grammar::EmitLiteral(CURSOR@)),
    ])
}

/// Builds the grammar of when entries of the reflog expire.
fn a_n_reflog_expire_param() -> (node: Node)
    ensures
        node@ == a_n_reflog_expire_param_grammar(),
{
    proof {
        reveal(a_n_reflog_expire_param_grammar);
    }
    or([word("a", "all"), word("n", "never"), crate::tree::map("_", emit(CURSOR))])
}

/// The grammar of the side to take in a conflict.
#[verifier::opaque]
pub open spec fn os_ts_ours_theirs_grammar() -> Grammar {
    Grammar::Alternation(seq![Grammar::flag("os"@, "ours"@), Grammar::flag("ts"@, "theirs"@)])
}

/// Builds the grammar of the side to take in a conflict.
fn os_ts_ours_theirs() -> (node: Node)
    ensures
        node@ == os_ts_ours_theirs_grammar(),
{
    proof {
        reveal(os_ts_ours_theirs_grammar);
    }
    or([flag("os", "ours"), flag("ts", "theirs")])
}

} // verus!
