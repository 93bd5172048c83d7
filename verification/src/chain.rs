//! Chain builder: a state machine over the token input.
//!
//! The builder consumes the token stream left to right. It first expects the
//! initial leaf expression, then repeatedly asks the classifier which action
//! or command comes next: on an action match it consumes the marker and the
//! following leaf expression and pushes the tagged node; on a join command it
//! recursively builds the brace-delimited region and splices the resulting
//! chains in as sibling pipelines; on end of input it is done. Any classifier
//! failure aborts the whole parse with positional context. Positions inside a
//! nested region are reported relative to that region.

use vstd::prelude::*;

use crate::action_expr::{ActionExpr, InstantOrDeferredExpr};
use crate::expr::{DefaultExpr, InitialExpr, Leaf, ProcessExpr};
use crate::group::{determine_group, spec_classify, ActionGroup, CommandGroup, Group};
use crate::token::{Punct, Token};

verus! {

/// The unrecoverable failures of one macro expansion, each with the index of
/// the offending token where one exists.
#[derive(Clone, Copy, Debug, PartialEq, Eq, Structural)]
pub enum ChainError {
    /// No grammar rule matches at this position although an action or
    /// terminator was expected.
    ClassificationFailure(usize),
    /// The candidate leaf region at this position is no valid expression.
    MalformedLeafExpression(usize),
    /// A rewrite pass attempted to replace a node's leaf expressions with an
    /// empty set. The node-level helpers themselves report this case as the
    /// absence value; a pass that must rewrite surfaces it as this error.
    EmptyReplacement,
    /// The nested region opened by the join command at this position never
    /// finds its matching terminator before input ends.
    UnboundedNesting(usize),
}

/// A chain is well-formed when it is non-empty, its first element is the
/// initial seed, and no later element is an initial seed.
pub open spec fn spec_chain_well_formed(c: Seq<ActionExpr>) -> bool {
    &&& c.len() > 0
    &&& c[0].is_initial()
    &&& forall|i: int| 1 <= i < c.len() ==> !(#[trigger] c[i]).is_initial()
}

/// One assembled pipeline: the ordered sequence of action nodes rooted at one
/// initial node.
#[derive(Clone, Debug, PartialEq, Eq)]
pub struct ActionExprChain {
    /// The ordered member nodes of the pipeline.
    pub members: Vec<ActionExpr>,
}

impl ActionExprChain {
    /// Whether this pipeline satisfies the chain invariant: rooted at one
    /// initial node, with no second initial node.
    pub open spec fn well_formed(&self) -> bool {
        spec_chain_well_formed(self.members@)
    }

    /// Rewrites member `idx` from the given replacement list without
    /// re-parsing, preserving the member's variant and scheduling tag. The
    /// absence value of the node-level rebuild is surfaced as the
    /// `EmptyReplacement` error, since this pass must rewrite.
    pub fn replace_member_exprs(self, idx: usize, exprs: &[Leaf]) -> (r: Result<
        ActionExprChain,
        ChainError,
    >)
        requires
            idx < self.members@.len(),
        ensures
            exprs@.len() == 0 ==> r == Err::<ActionExprChain, ChainError>(
                ChainError::EmptyReplacement,
            ),
            exprs@.len() > 0 ==> (r matches Ok(c) && c.members@ == self.members@.update(
                idx as int,
                self.members@[idx as int].spec_with_expr(exprs@.last()),
            )),
            exprs@.len() > 0 && self.well_formed() ==> (r matches Ok(c) && c.well_formed()),
    {
        let ghost orig = self.members@;
        let mut members = self.members;
        let member = members.remove(idx);
        match member.replace_inner_exprs(exprs) {
            None => Err(ChainError::EmptyReplacement),
            Some(rebuilt) => {
                members.insert(idx, rebuilt);
                proof {
                    assert(members@ =~= orig.update(
                        idx as int,
                        orig[idx as int].spec_with_expr(exprs@.last()),
                    ));
                }
                let result = ActionExprChain { members };
                proof {
                    if spec_chain_well_formed(orig) {
                        assert forall|i: int| 1 <= i < result.members@.len() implies !(
                        #[trigger] result.members@[i]).is_initial() by {
                            assert(!orig[i].is_initial());
                        }
                        assert(result.members@[0].is_initial());
                    }
                }
                Ok(result)
            },
        }
    }
}

/// Wraps an action in its scheduling tag.
pub open spec fn spec_tag<A>(deferred: bool, a: A) -> InstantOrDeferredExpr<A> {
    if deferred {
        InstantOrDeferredExpr::Deferred(a)
    } else {
        InstantOrDeferredExpr::Instant(a)
    }
}

/// The chain node built for one classified action kind, scheduling tag and
/// leaf expression.
pub open spec fn spec_make_action(g: ActionGroup, deferred: bool, e: Leaf) -> ActionExpr {
    match g {
        ActionGroup::MapOk => ActionExpr::Process(spec_tag(deferred, ProcessExpr::MapOk(e))),
        ActionGroup::Then => ActionExpr::Process(spec_tag(deferred, ProcessExpr::Then(e))),
        ActionGroup::AndThen => ActionExpr::Process(spec_tag(deferred, ProcessExpr::AndThen(e))),
        ActionGroup::Or => ActionExpr::Default(spec_tag(deferred, DefaultExpr::Or(e))),
        ActionGroup::OrElse => ActionExpr::Default(spec_tag(deferred, DefaultExpr::OrElse(e))),
    }
}

/// Builds the chain node for one classified action kind, scheduling tag and
/// leaf expression.
pub fn make_action(g: ActionGroup, deferred: bool, e: Leaf) -> (r: ActionExpr)
    ensures
        r == spec_make_action(g, deferred, e),
{
    match g {
        ActionGroup::MapOk => ActionExpr::Process(
            if deferred {
                InstantOrDeferredExpr::Deferred(ProcessExpr::MapOk(e))
            } else {
                InstantOrDeferredExpr::Instant(ProcessExpr::MapOk(e))
            },
        ),
        ActionGroup::Then => ActionExpr::Process(
            if deferred {
                InstantOrDeferredExpr::Deferred(ProcessExpr::Then(e))
            } else {
                InstantOrDeferredExpr::Instant(ProcessExpr::Then(e))
            },
        ),
        ActionGroup::AndThen => ActionExpr::Process(
            if deferred {
                InstantOrDeferredExpr::Deferred(ProcessExpr::AndThen(e))
            } else {
                InstantOrDeferredExpr::Instant(ProcessExpr::AndThen(e))
            },
        ),
        ActionGroup::Or => ActionExpr::Default(
            if deferred {
                InstantOrDeferredExpr::Deferred(DefaultExpr::Or(e))
            } else {
                InstantOrDeferredExpr::Instant(DefaultExpr::Or(e))
            },
        ),
        ActionGroup::OrElse => ActionExpr::Default(
            if deferred {
                InstantOrDeferredExpr::Deferred(DefaultExpr::OrElse(e))
            } else {
                InstantOrDeferredExpr::Instant(DefaultExpr::OrElse(e))
            },
        ),
    }
}

/// Index of the closing brace that terminates the region starting at `i`,
/// skipping over `depth` still-open inner braces; nothing when input ends
/// before the region closes.
pub open spec fn spec_find_close(s: Seq<Token>, i: int, depth: int) -> Option<int>
    decreases s.len() - i,
{
    if i < 0 || i >= s.len() {
        None
    } else if s[i] == Token::Punct(Punct::CloseBrace) {
        if depth == 0 {
            Some(i)
        } else {
            spec_find_close(s, i + 1, depth - 1)
        }
    } else if s[i] == Token::Punct(Punct::OpenBrace) {
        spec_find_close(s, i + 1, depth + 1)
    } else {
        spec_find_close(s, i + 1, depth)
    }
}

/// The terminator found for a region lies within the input, at or after the
/// region's start.
pub proof fn lemma_find_close_bounds(s: Seq<Token>, i: int, depth: int)
    requires
        spec_find_close(s, i, depth) is Some,
    ensures
        i <= spec_find_close(s, i, depth).unwrap() < s.len(),
    decreases s.len() - i,
{
    if i < 0 || i >= s.len() {
    } else if s[i] == Token::Punct(Punct::CloseBrace) {
        if depth != 0 {
            lemma_find_close_bounds(s, i + 1, depth - 1);
        }
    } else if s[i] == Token::Punct(Punct::OpenBrace) {
        lemma_find_close_bounds(s, i + 1, depth + 1);
    } else {
        lemma_find_close_bounds(s, i + 1, depth);
    }
}

/// The builder's action state, as one step of a recursive descent: at
/// position `pos` with the current chain `cur` under construction and the
/// sibling chains `sibs` already spliced in, the parse either completes with
/// the main chain followed by its siblings, or fails with the first error.
pub open spec fn spec_parse_actions(
    s: Seq<Token>,
    pos: int,
    cur: Seq<ActionExpr>,
    sibs: Seq<Seq<ActionExpr>>,
) -> Result<Seq<Seq<ActionExpr>>, ChainError>
    decreases s.len() - pos, 1int,
{
    if pos < 0 {
        Err(ChainError::ClassificationFailure(0))
    } else if pos >= s.len() {
        Ok(seq![cur] + sibs)
    } else if s[pos] == Token::Punct(Punct::Tilde) {
        match spec_classify(s, pos + 1) {
            Some((Group::Action(g), mlen)) => {
                let lpos = pos + 1 + mlen;
                match spec_leaf_at(s, lpos) {
                    Some(l) => spec_parse_actions(
                        s,
                        lpos + 1,
                        cur.push(spec_make_action(g, true, l)),
                        sibs,
                    ),
                    None => Err(ChainError::MalformedLeafExpression(lpos as usize)),
                }
            },
            _ => Err(ChainError::ClassificationFailure((pos + 1) as usize)),
        }
    } else {
        match spec_classify(s, pos) {
            Some((Group::Action(g), mlen)) => {
                let lpos = pos + mlen;
                match spec_leaf_at(s, lpos) {
                    Some(l) => spec_parse_actions(
                        s,
                        lpos + 1,
                        cur.push(spec_make_action(g, false, l)),
                        sibs,
                    ),
                    None => Err(ChainError::MalformedLeafExpression(lpos as usize)),
                }
            },
            Some((Group::Command(CommandGroup::Join), mlen)) => {
                if !(pos + 2 < s.len() && s[pos + 2] == Token::Punct(Punct::OpenBrace)) {
                    Err(ChainError::ClassificationFailure((pos + 2) as usize))
                } else {
                    match spec_find_close(s, pos + 3, 0) {
                        None => Err(ChainError::UnboundedNesting(pos as usize)),
                        Some(j) => {
                            proof {
                                lemma_find_close_bounds(s, pos + 3, 0);
                            }
                            match spec_build_chains(s.subrange(pos + 3, j)) {
                                Ok(nested) => spec_parse_actions(s, j + 1, cur, sibs + nested),
                                Err(e) => Err(e),
                            }
                        },
                    }
                }
            },
            None => Err(ChainError::ClassificationFailure(pos as usize)),
        }
    }
}

/// The valid leaf expression at position `i`, if position `i` holds one.
pub open spec fn spec_leaf_at(s: Seq<Token>, i: int) -> Option<Leaf> {
    if 0 <= i < s.len() {
        match s[i] {
            Token::Leaf(l) => if l.valid() {
                Some(l)
            } else {
                None
            },
            Token::Punct(_) => None,
        }
    } else {
        None
    }
}

/// The whole parse of one region: one leading leaf expression wrapped as the
/// initial node, then the action state until the region ends. The result
/// lists the region's main chain first, then its spliced sibling chains in
/// order of appearance.
pub open spec fn spec_build_chains(s: Seq<Token>) -> Result<Seq<Seq<ActionExpr>>, ChainError>
    decreases s.len(), 2int,
{
    match spec_leaf_at(s, 0) {
        Some(l) => spec_parse_actions(
            s,
            1,
            seq![ActionExpr::Initial(InitialExpr(l))],
            Seq::empty(),
        ),
        None => Err(ChainError::MalformedLeafExpression(0)),
    }
}

/// Finds the closing brace that terminates the region starting at `start`.
fn find_matching_close(tokens: &Vec<Token>, start: usize) -> (r: Option<usize>)
    ensures
        r is Some <==> spec_find_close(tokens@, start as int, 0) is Some,
        r matches Some(j) ==> spec_find_close(tokens@, start as int, 0) == Some(j as int)
            && start <= j < tokens@.len(),
{
    let mut k = start;
    let mut depth: usize = 0;
    while k < tokens.len()
        invariant
            start <= k,
            k <= tokens@.len() || k == start,
            depth <= k - start,
            spec_find_close(tokens@, start as int, 0) == spec_find_close(
                tokens@,
                k as int,
                depth as int,
            ),
        decreases tokens@.len() - k,
    {
        let is_close = match &tokens[k] {
            Token::Punct(p) => *p == Punct::CloseBrace,
            Token::Leaf(_) => false,
        };
        let is_open = match &tokens[k] {
            Token::Punct(p) => *p == Punct::OpenBrace,
            Token::Leaf(_) => false,
        };
        if is_close {
            if depth == 0 {
                proof {
                    lemma_find_close_bounds(tokens@, start as int, 0);
                }
                return Some(k);
            }
            depth = depth - 1;
        } else if is_open {
            depth = depth + 1;
        }
        k = k + 1;
    }
    None
}

/// The chains a builder result holds, as their member sequences.
pub open spec fn spec_chains_of(v: Seq<ActionExprChain>) -> Seq<Seq<ActionExpr>> {
    v.map_values(|c: ActionExprChain| c.members@)
}

/// Whether the builder's result is the one the grammar assigns to the input:
/// the same chains on success and the same error on failure.
pub open spec fn spec_result_matches(
    r: Result<Vec<ActionExprChain>, ChainError>,
    m: Result<Seq<Seq<ActionExpr>>, ChainError>,
) -> bool {
    match r {
        Ok(v) => m == Ok::<Seq<Seq<ActionExpr>>, ChainError>(spec_chains_of(v@)),
        Err(e) => m == Err::<Seq<Seq<ActionExpr>>, ChainError>(e),
    }
}

/// The valid leaf expression at position `i` of the input, if one is there.
fn leaf_token_at(tokens: &Vec<Token>, i: usize) -> (r: Option<Leaf>)
    ensures
        r == spec_leaf_at(tokens@, i as int),
{
    if i >= tokens.len() {
        return None;
    }
    match &tokens[i] {
        Token::Leaf(l) => if l.check_valid() {
            Some(l.clone())
        } else {
            None
        },
        Token::Punct(_) => None,
    }
}

/// Appending chains on the right appends their member sequences.
proof fn lemma_chains_of_concat(a: Seq<ActionExprChain>, b: Seq<ActionExprChain>)
    ensures
        spec_chains_of(a + b) == spec_chains_of(a) + spec_chains_of(b),
{
    assert(spec_chains_of(a + b) =~= spec_chains_of(a) + spec_chains_of(b));
}

/// Builds the chains of one region of input: the main chain first, then the
/// sibling chains spliced in by join commands, in order of appearance. The
/// result is exactly what the grammar assigns to the input, and every chain
/// of a successful parse is well-formed.
pub fn build_action_expr_chains(tokens: &Vec<Token>) -> (r: Result<
    Vec<ActionExprChain>,
    ChainError,
>)
    ensures
        spec_result_matches(r, spec_build_chains(tokens@)),
        r matches Ok(v) ==> forall|i: int| 0 <= i < v@.len() ==> (#[trigger] v@[i]).well_formed(),
    decreases tokens@.len(),
{
    let first_leaf: Leaf = match leaf_token_at(tokens, 0) {
        Some(l) => l,
        None => {
            return Err(ChainError::MalformedLeafExpression(0));
        },
    };
    let mut cur: Vec<ActionExpr> = Vec::new();
    cur.push(ActionExpr::Initial(InitialExpr(first_leaf)));
    let mut sibs: Vec<ActionExprChain> = Vec::new();
    let mut pos: usize = 1;
    proof {
        assert(spec_chains_of(sibs@) =~= Seq::<Seq<ActionExpr>>::empty());
        assert(cur@ =~= seq![ActionExpr::Initial(InitialExpr(first_leaf))]);
    }
    while pos < tokens.len()
        invariant
            1 <= pos <= tokens@.len(),
            tokens@.len() == tokens.len(),
            spec_parse_actions(tokens@, pos as int, cur@, spec_chains_of(sibs@))
                == spec_build_chains(tokens@),
            spec_chain_well_formed(cur@),
            forall|i: int| 0 <= i < sibs@.len() ==> (#[trigger] sibs@[i]).well_formed(),
        decreases tokens@.len() - pos,
    {
        let ghost pos0 = pos as int;
        let ghost cur_snap = cur@;
        let ghost sibs_model = spec_chains_of(sibs@);
        let is_tilde = match &tokens[pos] {
            Token::Punct(p) => *p == Punct::Tilde,
            Token::Leaf(_) => false,
        };
        let mpos = if is_tilde {
            pos + 1
        } else {
            pos
        };
        match determine_group(tokens, mpos) {
            None => {
                return Err(ChainError::ClassificationFailure(mpos));
            },
            Some((g, mlen)) => match g {
                Group::Action(ag) => {
                    let lpos = mpos + mlen;
                    let leaf: Leaf = match leaf_token_at(tokens, lpos) {
                        Some(l) => l,
                        None => {
                            return Err(ChainError::MalformedLeafExpression(lpos));
                        },
                    };
                    let node = make_action(ag, is_tilde, leaf);
                    proof {
                        assert(spec_parse_actions(tokens@, pos0, cur_snap, sibs_model)
                            == spec_parse_actions(
                            tokens@,
                            lpos + 1,
                            cur_snap.push(node),
                            sibs_model,
                        ));
                        assert(!node.is_initial());
                    }
                    cur.push(node);
                    pos = lpos + 1;
                },
                Group::Command(CommandGroup::Join) => {
                    if is_tilde {
                        return Err(ChainError::ClassificationFailure(mpos));
                    }
                    let bpos = pos + 2;
                    let has_open = if bpos < tokens.len() {
                        match &tokens[bpos] {
                            Token::Punct(p) => *p == Punct::OpenBrace,
                            Token::Leaf(_) => false,
                        }
                    } else {
                        false
                    };
                    if !has_open {
                        return Err(ChainError::ClassificationFailure(bpos));
                    }
                    match find_matching_close(tokens, bpos + 1) {
                        None => {
                            return Err(ChainError::UnboundedNesting(pos));
                        },
                        Some(j) => {
                            let mut sub: Vec<Token> = Vec::new();
                            let mut k = bpos + 1;
                            while k < j
                                invariant
                                    bpos + 1 <= k <= j,
                                    j < tokens@.len(),
                                    tokens@.len() == tokens.len(),
                                    sub@ =~= tokens@.subrange(bpos + 1, k as int),
                                decreases j - k,
                            {
                                sub.push(tokens[k].clone());
                                k = k + 1;
                            }
                            proof {
                                assert(sub@ =~= tokens@.subrange(bpos + 1, j as int));
                            }
                            match build_action_expr_chains(&sub) {
                                Err(e) => {
                                    return Err(e);
                                },
                                Ok(mut nested) => {
                                    proof {
                                        lemma_chains_of_concat(sibs@, nested@);
                                        assert(spec_parse_actions(
                                            tokens@,
                                            pos0,
                                            cur_snap,
                                            sibs_model,
                                        ) == spec_parse_actions(
                                            tokens@,
                                            j + 1,
                                            cur_snap,
                                            sibs_model + spec_chains_of(nested@),
                                        ));
                                    }
                                    sibs.append(&mut nested);
                                    pos = j + 1;
                                },
                            }
                        },
                    }
                },
            },
        }
    }
    let ghost cur_snap = cur@;
    let ghost sibs_snap = sibs@;
    let main = ActionExprChain { members: cur };
    let mut out: Vec<ActionExprChain> = Vec::new();
    out.push(main);
    out.append(&mut sibs);
    proof {
        assert(spec_chains_of(out@) =~= seq![cur_snap] + spec_chains_of(sibs_snap));
    }
    Ok(out)
}

} // verus!

