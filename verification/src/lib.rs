//! Compiler front end for the Alef component language.
//!
//! The crate classifies the top-level statements of a parsed component
//! source unit into typed [`statement::Statement`] values, lowers
//! declarative markup ([`ast::JSXElement`] / [`ast::JSXFragment`]) into
//! constructor-call expressions, and instruments reactive expressions
//! with dependency metadata derived from the identifiers bound in the
//! enclosing scope.
//!
//! The input is a plain syntax tree ([`ast`]); producing that tree from
//! source text is the job of an external parser and is not part of this
//! crate.

pub mod ast;
pub mod identmap;
pub mod jsx;
pub mod laws;
pub mod resolve;
pub mod statement;
pub mod text;
pub mod walker;
