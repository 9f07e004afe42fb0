//! The commands of the program and what each of them amounts to.
//!
//! The library decides; reading the command line, printing and running the
//! version-control tool are left to the program around it.

use crate::grammar::{ast, ast_grammar};
use crate::model::{verdict, Source, Verdict};
use crate::tree::{Answers, Reply};
use vstd::prelude::*;
use vstd::string::*;

verus! {

/// The command line of the program.
#[derive(Debug, Clone)]
pub struct Cli {
    pub subcommand: Sub,
}

/// What the program is asked to do.
#[derive(Debug, Clone)]
pub enum Sub {
    /// Generate an installer script that can be sourced during shell init.
    Installer,
    /// Expand a shorthand expression to a subcommand.
    Expand { expr: String },
    /// Show the shorthand grammar.
    Grammar,
}

/// What the program is to do for a command.
#[derive(Debug, PartialEq, Eq)]
pub enum Action {
    /// Print the installer script.
    Install,
    /// Print this line.
    Print(String),
    /// End with a failure and print nothing.
    Fail,
    /// Learn the answer of this source, then ask again.
    Ask(Source),
}

/// `text` without the white space at its two ends, as `str::trim` removes
/// it.
pub uninterp spec fn trimmed(text: Seq<char>) -> Seq<char>;

/// `str::trim`: the slice without leading and trailing white space.
#[verifier::external_body]
fn trim<'a>(text: &'a str) -> (inner: &'a str)
    ensures
        inner@ == trimmed(text@),
{
    text.trim()
}

/// What `expr` as a whole expands to, trimmed, under the grammar of all
/// commands and at the end of the line.
pub open spec fn expansion(expr: Seq<char>, known: Map<Source, Option<Seq<char>>>) -> Verdict {
    match verdict(ast_grammar(), expr, true, known) {
        Verdict::Expansion { text } => Verdict::Expansion { text: trimmed(text) },
        other => other,
    }
}

/// Decides what the program does for `cli`, given the answers known so far.
///
/// An expression that the grammar expands to its end is printed, trimmed; one
/// that it does not expand ends the program with a failure; and where the
/// expansion needs an answer that is not known yet, that answer is asked for.
/// Showing the grammar is not supported.
pub fn run(cli: &Cli, answers: &Answers) -> (action: Action)
    requires
        !(cli.subcommand is Grammar),
    ensures
        cli.subcommand is Installer ==> action is Install,
        cli.subcommand matches Sub::Expand { expr } ==> match expansion(expr@, answers@) {
            Verdict::Expansion { text } => action matches Action::Print(line) && line@ == text,
            Verdict::NoMatch => action is Fail,
            Verdict::Ask { source } => action == Action::Ask(source),
        },
{
    match &cli.subcommand {
        Sub::Installer => Action::Install,
        Sub::Expand { expr } => {
            let ast = ast();
            match ast.expand_fully(expr.as_str(), true, answers) {
                Reply::Expansion(result) => Action::Print(String::from_str(trim(result.as_str()))),
                Reply::NoMatch => Action::Fail,
                Reply::Ask(source) => Action::Ask(source),
            }
        },
        Sub::Grammar => Action::Fail,
    }
}

} // verus!
