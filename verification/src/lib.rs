//! Expansion engine for a chain/combinator surface syntax.
//!
//! The library models a small domain-specific syntax: an initial leaf
//! expression followed by chained actions (transforms and fallbacks), each
//! optionally marked for deferred execution. A lookahead classifier drives a
//! chain builder that assembles a typed sequence of action nodes, and a code
//! generator emits an equivalent nested-call token sequence.
//!
//! The surface grammar is one leading leaf expression, then any number of
//! `(~)? marker leaf` groups, optionally interspersed with `<< { ... }`
//! regions that splice in sibling chains. The markers are `->` (run
//! unconditionally), `|>` (map the success value), `=>` (compose
//! sequentially on success), `<` (substitute on failure) and `<=` (substitute
//! on failure from a computed alternative); `~` defers the following action
//! past the synchronization barrier. Leaf expressions are opaque: they are
//! held, extracted and substituted whole, never inspected.
//!
//! The host-compiler boundary — receiving a raw token stream, splitting
//! macro arguments, reporting diagnostics — stays outside the library; an
//! adapter hands in [`token::Token`]s and renders [`token::OutTok`]s back.

pub mod action_expr;
pub mod chain;
pub mod expr;
pub mod gen;
pub mod group;
pub mod token;

pub use action_expr::ActionExpr;
pub use action_expr::DefaultActionExpr;
pub use action_expr::InstantOrDeferredExpr;
pub use action_expr::ProcessActionExpr;
pub use chain::build_action_expr_chains;
pub use chain::ActionExprChain;
pub use chain::ChainError;
pub use expr::DefaultExpr;
pub use expr::InitialExpr;
pub use expr::Leaf;
pub use expr::ProcessExpr;
pub use gen::generate;
pub use gen::generate_chain;
pub use group::determine_group;
pub use group::ActionGroup;
pub use group::CommandGroup;
pub use group::Group;
pub use group::GroupDeterminer;
pub use token::OutTok;
pub use token::Punct;
pub use token::Token;
