//! Expansion of compact shorthand expressions into full command lines.
//!
//! A shorthand such as `ca` is matched against a grammar built from a small
//! set of combinators, and the expansion text, here `commit --amend`, is
//! emitted while it matches.
//!
//! - [`model`] says what a grammar is and what matching means, as
//!   mathematical values and functions.
//! - [`tree`] holds the grammar trees, the matcher that is proved to compute
//!   the model, and the combinators that grammars are written with.
//! - [`laws`] proves what holds of every expansion.
//! - [`grammar`] is the grammar of the commands.
//! - [`nodes`] and [`ast`] are the term vocabulary and the grammar written
//!   in it.
//! - [`helpers`] decides how the values that a grammar takes from the
//!   repository are asked for.
//! - [`cli`] decides what the program does for a command line.
//! - [`text`] holds the string primitives.
//!
//! The library does no input or output: where a value of the repository is
//! needed, it asks for it, and is called again with the answer.

pub mod ast;
pub mod cli;
pub mod grammar;
pub mod helpers;
pub mod laws;
pub mod model;
pub mod nodes;
pub mod text;
pub mod tree;
