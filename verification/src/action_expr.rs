//! The unit of the chain: scheduling wrapper and the closed action union.
//!
//! [`InstantOrDeferredExpr`] records scheduling intent for any action payload;
//! [`ActionExpr`] is the closed union `Initial | Process | Default` that the
//! chain builder assembles and the code generator walks.

use vstd::prelude::*;

use crate::expr::{DefaultExpr, InitialExpr, Leaf, ProcessExpr};
use crate::group::ActionGroup;

verus! {

/// Scheduling tag over a generic action payload: the action either executes
/// immediately in sequence, or is queued to run after all sibling chains
/// reach the synchronization point. A pure data tag with no behavior of its
/// own; every consumer pattern-matches on it to decide scheduling.
#[derive(Clone, Copy, Debug, PartialEq, Eq)]
pub enum InstantOrDeferredExpr<A> {
    /// The action applies to the given value instantly, in textual position.
    Instant(A),
    /// The action applies after all sibling chains have finished their
    /// instant actions of the current step.
    Deferred(A),
}

impl<A> InstantOrDeferredExpr<A> {
    /// The wrapped action, with the scheduling tag stripped.
    pub open spec fn spec_inner(&self) -> A {
        match self {
            InstantOrDeferredExpr::Instant(a) => *a,
            InstantOrDeferredExpr::Deferred(a) => *a,
        }
    }

    /// Whether the wrapped action is queued past the synchronization point.
    pub open spec fn is_deferred(&self) -> bool {
        match self {
            InstantOrDeferredExpr::Instant(_) => false,
            InstantOrDeferredExpr::Deferred(_) => true,
        }
    }

    /// The still-typed payload, one level less unwrapped than the leaf: for
    /// callers that need to know the action kind but not the scheduling.
    pub fn extract_inner_expr(&self) -> (r: &A)
        ensures
            *r == self.spec_inner(),
    {
        match self {
            InstantOrDeferredExpr::Instant(a) => a,
            InstantOrDeferredExpr::Deferred(a) => a,
        }
    }

    /// The same scheduling tag rebuilt around another payload.
    pub open spec fn spec_with_inner(self, a: A) -> InstantOrDeferredExpr<A> {
        match self {
            InstantOrDeferredExpr::Instant(_) => InstantOrDeferredExpr::Instant(a),
            InstantOrDeferredExpr::Deferred(_) => InstantOrDeferredExpr::Deferred(a),
        }
    }
}

/// A process action wrapped with its scheduling tag.
pub type ProcessActionExpr = InstantOrDeferredExpr<ProcessExpr>;

/// A default action wrapped with its scheduling tag.
pub type DefaultActionExpr = InstantOrDeferredExpr<DefaultExpr>;

impl InstantOrDeferredExpr<ProcessExpr> {
    /// The leaf expression of the wrapped process action.
    pub open spec fn spec_expr(&self) -> Leaf {
        self.spec_inner().spec_expr()
    }

    /// Unwraps the scheduling tag, then the action kind, down to the one
    /// leaf expression. Scheduling never changes the extracted leaf.
    pub fn extract_expr(&self) -> (r: &Leaf)
        ensures
            *r == self.spec_expr(),
    {
        self.extract_inner_expr().extract_expr()
    }
}

impl InstantOrDeferredExpr<DefaultExpr> {
    /// The leaf expression of the wrapped default action.
    pub open spec fn spec_expr(&self) -> Leaf {
        self.spec_inner().spec_expr()
    }

    /// Unwraps the scheduling tag, then the action kind, down to the one
    /// leaf expression. Scheduling never changes the extracted leaf.
    pub fn extract_expr(&self) -> (r: &Leaf)
        ensures
            *r == self.spec_expr(),
    {
        self.extract_inner_expr().extract_expr()
    }
}

/// The closed union of chain nodes: the initial seed, a scheduled process
/// action, or a scheduled default action. A well-formed chain is a non-empty
/// sequence of these whose first element is `Initial` and whose remaining
/// elements are never `Initial`.
#[derive(Clone, Debug, PartialEq, Eq)]
pub enum ActionExpr {
    /// A transform-style action with its scheduling tag.
    Process(ProcessActionExpr),
    /// A fallback-style action with its scheduling tag.
    Default(DefaultActionExpr),
    /// The start value of the chain; always evaluated eagerly, so it carries
    /// no scheduling tag.
    Initial(InitialExpr),
}

impl ActionExpr {
    /// The single leaf expression logically associated with this node.
    pub open spec fn spec_expr(&self) -> Leaf {
        match self {
            ActionExpr::Process(p) => p.spec_expr(),
            ActionExpr::Default(d) => d.spec_expr(),
            ActionExpr::Initial(i) => i.spec_expr(),
        }
    }

    /// Whether this node is the chain's initial seed.
    pub open spec fn is_initial(&self) -> bool {
        self matches ActionExpr::Initial(_)
    }

    /// Whether this node is queued past the synchronization point. The
    /// initial seed is never deferred.
    pub open spec fn is_deferred(&self) -> bool {
        match self {
            ActionExpr::Process(p) => p.is_deferred(),
            ActionExpr::Default(d) => d.is_deferred(),
            ActionExpr::Initial(_) => false,
        }
    }

    /// The action kind of a non-initial node, as the classifier names it.
    pub open spec fn spec_group(&self) -> ActionGroup
        recommends
            !self.is_initial(),
    {
        match self {
            ActionExpr::Process(p) => match p.spec_inner() {
                ProcessExpr::MapOk(_) => ActionGroup::MapOk,
                ProcessExpr::Then(_) => ActionGroup::Then,
                ProcessExpr::AndThen(_) => ActionGroup::AndThen,
            },
            ActionExpr::Default(d) => match d.spec_inner() {
                DefaultExpr::Or(_) => ActionGroup::Or,
                DefaultExpr::OrElse(_) => ActionGroup::OrElse,
            },
            ActionExpr::Initial(_) => ActionGroup::Then,
        }
    }

    /// The action kind of this node, or nothing for the initial seed.
    pub fn action_group(&self) -> (r: Option<ActionGroup>)
        ensures
            r is Some <==> !self.is_initial(),
            !self.is_initial() ==> r == Some(self.spec_group()),
    {
        match self {
            ActionExpr::Process(p) => Some(
                match p.extract_inner_expr() {
                    ProcessExpr::MapOk(_) => ActionGroup::MapOk,
                    ProcessExpr::Then(_) => ActionGroup::Then,
                    ProcessExpr::AndThen(_) => ActionGroup::AndThen,
                },
            ),
            ActionExpr::Default(d) => Some(
                match d.extract_inner_expr() {
                    DefaultExpr::Or(_) => ActionGroup::Or,
                    DefaultExpr::OrElse(_) => ActionGroup::OrElse,
                },
            ),
            ActionExpr::Initial(_) => None,
        }
    }

    /// Whether this node is queued past the synchronization point.
    pub fn deferred(&self) -> (r: bool)
        ensures
            r == self.is_deferred(),
    {
        match self {
            ActionExpr::Process(p) => match p {
                InstantOrDeferredExpr::Instant(_) => false,
                InstantOrDeferredExpr::Deferred(_) => true,
            },
            ActionExpr::Default(d) => match d {
                InstantOrDeferredExpr::Instant(_) => false,
                InstantOrDeferredExpr::Deferred(_) => true,
            },
            ActionExpr::Initial(_) => false,
        }
    }

    /// Read-only projection to the node's one leaf expression: unwraps the
    /// scheduling tag first for process and default actions.
    pub fn extract_expr(&self) -> (r: &Leaf)
        ensures
            *r == self.spec_expr(),
    {
        match self {
            ActionExpr::Process(p) => p.extract_expr(),
            ActionExpr::Default(d) => d.extract_expr(),
            ActionExpr::Initial(i) => &i.0,
        }
    }

    /// The same node rebuilt around another leaf expression, preserving both
    /// the variant and the scheduling tag.
    pub open spec fn spec_with_expr(self, e: Leaf) -> ActionExpr {
        match self {
            ActionExpr::Process(p) => ActionExpr::Process(
                p.spec_with_inner(p.spec_inner().spec_with_expr(e)),
            ),
            ActionExpr::Default(d) => ActionExpr::Default(
                d.spec_with_inner(d.spec_inner().spec_with_expr(e)),
            ),
            ActionExpr::Initial(_) => ActionExpr::Initial(InitialExpr(e)),
        }
    }

    /// The full list of leaf expressions this node owns: a one-element list.
    pub fn get_inner_exprs(&self) -> (r: Option<Vec<Leaf>>)
        ensures
            r matches Some(v) && v@ == seq![self.spec_expr()],
    {
        let mut v: Vec<Leaf> = Vec::new();
        v.push(self.extract_expr().clone());
        Some(v)
    }

    /// Rebuilds the node, preserving its variant and scheduling tag, from the
    /// last expression of the supplied list; yields the absence value exactly
    /// when the supplied list is empty.
    pub fn replace_inner_exprs(self, exprs: &[Leaf]) -> (r: Option<Self>)
        ensures
            exprs@.len() == 0 ==> r is None,
            exprs@.len() > 0 ==> r == Some(self.spec_with_expr(exprs@.last())),
    {
        match self {
            ActionExpr::Process(p) => {
                let deferred = match &p {
                    InstantOrDeferredExpr::Instant(_) => false,
                    InstantOrDeferredExpr::Deferred(_) => true,
                };
                let inner = match p {
                    InstantOrDeferredExpr::Instant(a) => a,
                    InstantOrDeferredExpr::Deferred(a) => a,
                };
                match inner.replace_inner_exprs(exprs) {
                    None => None,
                    Some(rebuilt) => Some(
                        ActionExpr::Process(
                            if deferred {
                                InstantOrDeferredExpr::Deferred(rebuilt)
                            } else {
                                InstantOrDeferredExpr::Instant(rebuilt)
                            },
                        ),
                    ),
                }
            },
            ActionExpr::Default(d) => {
                let deferred = match &d {
                    InstantOrDeferredExpr::Instant(_) => false,
                    InstantOrDeferredExpr::Deferred(_) => true,
                };
                let inner = match d {
                    InstantOrDeferredExpr::Instant(a) => a,
                    InstantOrDeferredExpr::Deferred(a) => a,
                };
                match inner.replace_inner_exprs(exprs) {
                    None => None,
                    Some(rebuilt) => Some(
                        ActionExpr::Default(
                            if deferred {
                                InstantOrDeferredExpr::Deferred(rebuilt)
                            } else {
                                InstantOrDeferredExpr::Instant(rebuilt)
                            },
                        ),
                    ),
                }
            },
            ActionExpr::Initial(i) => match i.replace_inner_exprs(exprs) {
                None => None,
                Some(rebuilt) => Some(ActionExpr::Initial(rebuilt)),
            },
        }
    }
}

/// Extract and replace are inverse: a node rebuilt from a non-empty
/// replacement list carries the list's last expression as its own, with its
/// variant and scheduling tag preserved.
pub proof fn lemma_extract_replace_inverse(n: ActionExpr, r: Seq<Leaf>)
    requires
        r.len() > 0,
    ensures
        n.spec_with_expr(r.last()).spec_expr() == r.last(),
        n.spec_with_expr(r.last()).is_initial() == n.is_initial(),
        n.spec_with_expr(r.last()).is_deferred() == n.is_deferred(),
{
}

/// Wrapping one and the same action `Instant` or `Deferred` never changes the
/// extracted leaf expression, only the generator's placement decision.
pub proof fn lemma_scheduling_transparent(p: ProcessExpr, d: DefaultExpr)
    ensures
        InstantOrDeferredExpr::Instant(p).spec_expr()
            == InstantOrDeferredExpr::Deferred(p).spec_expr(),
        InstantOrDeferredExpr::Instant(d).spec_expr()
            == InstantOrDeferredExpr::Deferred(d).spec_expr(),
{
}

} // verus!
