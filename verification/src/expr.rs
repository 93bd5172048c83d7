//! Expression node model: leaf expressions and the node kinds that hold them.
//!
//! A [`Leaf`] is an opaque, already-valid fragment of target-language source.
//! Chain nodes only ever hold, extract, or substitute whole leaf expressions;
//! they never look inside one. Every node kind supports extracting its single
//! leaf expression and extracting or replacing the list of leaf expressions it
//! owns, where replacement rebuilds a new node and fails on an empty list.

use vstd::prelude::*;
use vstd::slice::slice_index_get;

use crate::token::OutTok;

verus! {

/// An opaque leaf expression fragment of target-language source, held by
/// exactly one chain node. The fragment is captured verbatim; a fragment is
/// structurally valid exactly when it is non-empty, since the empty fragment
/// parses as no expression of the host grammar.
#[derive(Debug, PartialEq, Eq)]
pub struct Leaf(pub String);

impl Leaf {
    /// A leaf expression is valid when its captured fragment is non-empty.
    pub open spec fn valid(&self) -> bool {
        self.0@.len() > 0
    }

    /// Structural validity check of a captured fragment.
    pub fn check_valid(&self) -> (r: bool)
        ensures
            r == self.valid(),
    {
        !self.0.as_str().is_empty()
    }
}

impl Clone for Leaf {
    fn clone(&self) -> (r: Self)
        ensures
            r == *self,
    {
        Leaf(self.0.clone())
    }
}

/// The start value of a chain: wraps exactly one leaf expression, always the
/// first node of a chain, never preceded by another node.
#[derive(Clone, Debug, PartialEq, Eq)]
pub struct InitialExpr(pub Leaf);

impl InitialExpr {
    /// The single leaf expression this node wraps.
    pub open spec fn spec_expr(&self) -> Leaf {
        self.0
    }

    /// Emits the wrapped leaf expression verbatim, with no wrapping syntax:
    /// the initial node is the seed value of the chain, not a combinator call.
    pub fn to_tokens(&self, output: &mut Vec<OutTok>)
        ensures
            final(output)@ == old(output)@.push(OutTok::Leaf(self.0)),
    {
        output.push(OutTok::Leaf(self.0.clone()));
    }

    /// Emits this node into a fresh token sequence.
    pub fn into_token_stream(self) -> (r: Vec<OutTok>)
        ensures
            r@ == seq![OutTok::Leaf(self.0)],
    {
        let mut output: Vec<OutTok> = Vec::new();
        self.to_tokens(&mut output);
        output
    }

    /// The full list of leaf expressions this node owns: a one-element list.
    pub fn get_inner_exprs(&self) -> (r: Option<Vec<Leaf>>)
        ensures
            r matches Some(v) && v@ == seq![self.0],
    {
        let mut v: Vec<Leaf> = Vec::new();
        v.push(self.0.clone());
        Some(v)
    }

    /// Rebuilds the node from the last expression of the supplied list,
    /// discarding any earlier ones; yields the absence value exactly when the
    /// supplied list is empty.
    pub fn replace_inner_exprs(self, exprs: &[Leaf]) -> (r: Option<Self>)
        ensures
            exprs@.len() == 0 ==> r is None,
            exprs@.len() > 0 ==> r == Some(InitialExpr(exprs@.last())),
    {
        if exprs.len() == 0 {
            None
        } else {
            Some(InitialExpr(slice_index_get(exprs, exprs.len() - 1).clone()))
        }
    }
}

/// A transform-style action: applied to the current chain value when it
/// represents success. Each variant holds exactly one leaf expression.
#[derive(Clone, Debug, PartialEq, Eq)]
pub enum ProcessExpr {
    /// Maps the success value through the leaf expression.
    MapOk(Leaf),
    /// Runs the leaf expression on the chain value unconditionally.
    Then(Leaf),
    /// Sequentially composes the leaf expression on success.
    AndThen(Leaf),
}

impl ProcessExpr {
    /// The single leaf expression this action holds.
    pub open spec fn spec_expr(&self) -> Leaf {
        match self {
            ProcessExpr::MapOk(e) => *e,
            ProcessExpr::Then(e) => *e,
            ProcessExpr::AndThen(e) => *e,
        }
    }

    /// The same action kind rebuilt around another leaf expression.
    pub open spec fn spec_with_expr(self, e: Leaf) -> ProcessExpr {
        match self {
            ProcessExpr::MapOk(_) => ProcessExpr::MapOk(e),
            ProcessExpr::Then(_) => ProcessExpr::Then(e),
            ProcessExpr::AndThen(_) => ProcessExpr::AndThen(e),
        }
    }

    /// Read-only projection to the one leaf expression of this action.
    pub fn extract_expr(&self) -> (r: &Leaf)
        ensures
            *r == self.spec_expr(),
    {
        match self {
            ProcessExpr::MapOk(e) => e,
            ProcessExpr::Then(e) => e,
            ProcessExpr::AndThen(e) => e,
        }
    }

    /// The full list of leaf expressions this action owns: a one-element list.
    pub fn get_inner_exprs(&self) -> (r: Option<Vec<Leaf>>)
        ensures
            r matches Some(v) && v@ == seq![self.spec_expr()],
    {
        let mut v: Vec<Leaf> = Vec::new();
        v.push(self.extract_expr().clone());
        Some(v)
    }

    /// Rebuilds the action, preserving its kind, from the last expression of
    /// the supplied list; yields the absence value exactly when the supplied
    /// list is empty.
    pub fn replace_inner_exprs(self, exprs: &[Leaf]) -> (r: Option<Self>)
        ensures
            exprs@.len() == 0 ==> r is None,
            exprs@.len() > 0 ==> r == Some(self.spec_with_expr(exprs@.last())),
    {
        if exprs.len() == 0 {
            None
        } else {
            let e = slice_index_get(exprs, exprs.len() - 1).clone();
            Some(
                match self {
                    ProcessExpr::MapOk(_) => ProcessExpr::MapOk(e),
                    ProcessExpr::Then(_) => ProcessExpr::Then(e),
                    ProcessExpr::AndThen(_) => ProcessExpr::AndThen(e),
                },
            )
        }
    }
}

/// A fallback-style action: applied to the current chain value only when it
/// represents failure. Each variant holds exactly one leaf expression.
#[derive(Clone, Debug, PartialEq, Eq)]
pub enum DefaultExpr {
    /// Substitutes the leaf expression on failure.
    Or(Leaf),
    /// Substitutes on failure using the leaf expression as a computed
    /// alternative.
    OrElse(Leaf),
}

impl DefaultExpr {
    /// The single leaf expression this action holds.
    pub open spec fn spec_expr(&self) -> Leaf {
        match self {
            DefaultExpr::Or(e) => *e,
            DefaultExpr::OrElse(e) => *e,
        }
    }

    /// The same action kind rebuilt around another leaf expression.
    pub open spec fn spec_with_expr(self, e: Leaf) -> DefaultExpr {
        match self {
            DefaultExpr::Or(_) => DefaultExpr::Or(e),
            DefaultExpr::OrElse(_) => DefaultExpr::OrElse(e),
        }
    }

    /// Read-only projection to the one leaf expression of this action.
    pub fn extract_expr(&self) -> (r: &Leaf)
        ensures
            *r == self.spec_expr(),
    {
        match self {
            DefaultExpr::Or(e) => e,
            DefaultExpr::OrElse(e) => e,
        }
    }

    /// The full list of leaf expressions this action owns: a one-element list.
    pub fn get_inner_exprs(&self) -> (r: Option<Vec<Leaf>>)
        ensures
            r matches Some(v) && v@ == seq![self.spec_expr()],
    {
        let mut v: Vec<Leaf> = Vec::new();
        v.push(self.extract_expr().clone());
        Some(v)
    }

    /// Rebuilds the action, preserving its kind, from the last expression of
    /// the supplied list; yields the absence value exactly when the supplied
    /// list is empty.
    pub fn replace_inner_exprs(self, exprs: &[Leaf]) -> (r: Option<Self>)
        ensures
            exprs@.len() == 0 ==> r is None,
            exprs@.len() > 0 ==> r == Some(self.spec_with_expr(exprs@.last())),
    {
        if exprs.len() == 0 {
            None
        } else {
            let e = slice_index_get(exprs, exprs.len() - 1).clone();
            Some(
                match self {
                    DefaultExpr::Or(_) => DefaultExpr::Or(e),
                    DefaultExpr::OrElse(_) => DefaultExpr::OrElse(e),
                },
            )
        }
    }
}

} // verus!
