//! A template compiler core: it reads a JSX-like syntax tree, decides
//! for every sub-expression whether and how it depends on reactive
//! state, classifies element attributes, collapses literal whitespace,
//! and computes stable internationalization keys, on the way to the
//! runtime call expressions a reactive UI library consumes.
//!
//! The tree is held in the crate's own model ([`ast`]); the host
//! language parser and printer live outside this crate and hand trees
//! in and out.  Every function here carries a contract over the ghost
//! mirror of that model.

pub mod ast;
pub mod attrs;
pub mod component;
pub mod cond;
pub mod diag;
pub mod expr;
pub mod intl;
pub mod jsx;
pub mod names;
pub mod parser;
pub mod sym;
pub mod tpl;
pub mod text;

use vstd::prelude::*;

verus! {

} // verus!
