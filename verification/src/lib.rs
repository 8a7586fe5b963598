//! Core of a rule-based static analyzer: it inspects a typed syntax tree
//! (modelled here as plain data handed over by the host compiler) and emits
//! diagnostics with machine-generated fix suggestions.
//!
//! Two rule families are covered:
//! - recognizing hand-written branching logic equivalent to mapping over an
//!   optional value, and synthesizing the idiomatic combinator call
//!   ([`manual_map`]);
//! - inspecting formatted-output macro invocations for trailing-newline
//!   duplication, empty format strings, redundant literal arguments and
//!   debug-style formatting ([`format_rules`]), backed by a conservative
//!   string unescaping transform ([`unescape`]).

pub mod ast;
pub mod diagnostics;
pub mod format_rules;
pub mod manual_map;
pub mod strutil;
pub mod unescape;
