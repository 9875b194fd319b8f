//! Canonical printer for the terms of a typed configuration language.
//!
//! Every term is rendered to the minimally-parenthesised concrete syntax that
//! the language's grammar reads back. The rendering is stated as spec
//! functions (`printer::render`) and each executable printer is proved to
//! produce exactly that text.
use vstd::prelude::*;

pub mod syntax;
pub mod text;
pub mod printer;
pub mod laws;
