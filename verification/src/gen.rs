//! Code generator: emits the token sequence equivalent to a finished chain.
//!
//! The generator walks an assembled chain and emits one nested call
//! expression: the initial leaf expression is the innermost value, and every
//! later action wraps the accumulated expression and the action's own leaf as
//! the two arguments of its combinator, in the original left-to-right order.
//! Deferred actions are not emitted at their textual position: they are
//! collected and applied only after every instant action of their chain —
//! and, when sibling chains are joined, after the join of every sibling's
//! instant prefix — modeling the synchronization barrier.

use vstd::prelude::*;

use crate::action_expr::ActionExpr;
use crate::chain::{spec_chain_well_formed, spec_chains_of, ActionExprChain};
use crate::expr::Leaf;
use crate::group::ActionGroup;
use crate::token::OutTok;

verus! {

/// One combinator application: the call of `g`'s combinator with the
/// accumulated expression and the action's leaf expression as arguments.
pub open spec fn spec_apply_action(acc: Seq<OutTok>, g: ActionGroup, e: Leaf) -> Seq<OutTok> {
    seq![OutTok::Comb(g), OutTok::Open] + acc + seq![
        OutTok::Comma,
        OutTok::Leaf(e),
        OutTok::Close,
    ]
}

/// Folds a list of actions over an accumulated expression, wrapping one
/// combinator application around it per action, left to right.
pub open spec fn spec_emit_actions(acc: Seq<OutTok>, acts: Seq<(ActionGroup, Leaf)>) -> Seq<
    OutTok,
>
    decreases acts.len(),
{
    if acts.len() == 0 {
        acc
    } else {
        spec_emit_actions(spec_apply_action(acc, acts[0].0, acts[0].1), acts.skip(1))
    }
}

/// The non-initial members of a chain with the given scheduling, as action
/// kind and leaf expression, in chain order.
pub open spec fn spec_scheduled(c: Seq<ActionExpr>, deferred: bool) -> Seq<(ActionGroup, Leaf)>
    decreases c.len(),
{
    if c.len() == 0 {
        Seq::empty()
    } else {
        let rest = spec_scheduled(c.skip(1), deferred);
        if !c[0].is_initial() && c[0].is_deferred() == deferred {
            seq![(c[0].spec_group(), c[0].spec_expr())] + rest
        } else {
            rest
        }
    }
}

/// The emission of one chain alone: the initial leaf, wrapped by every
/// instant action in order, wrapped in turn by every deferred action in
/// order. The deferred suffix thus always applies after the whole instant
/// prefix, however the two were interleaved in the source.
pub open spec fn spec_emit_chain(c: Seq<ActionExpr>) -> Seq<OutTok>
    recommends
        spec_chain_well_formed(c),
{
    spec_emit_actions(
        spec_emit_actions(seq![OutTok::Leaf(c[0].spec_expr())], spec_scheduled(c, false)),
        spec_scheduled(c, true),
    )
}

/// The emission of one sibling's instant prefix: the initial leaf wrapped by
/// the chain's instant actions only.
pub open spec fn spec_emit_instant(c: Seq<ActionExpr>) -> Seq<OutTok>
    recommends
        spec_chain_well_formed(c),
{
    spec_emit_actions(seq![OutTok::Leaf(c[0].spec_expr())], spec_scheduled(c, false))
}

/// The later arguments of the join combinator: every sibling's instant
/// prefix after the first, each preceded by the argument separator.
pub open spec fn spec_joined_rest(cs: Seq<Seq<ActionExpr>>) -> Seq<OutTok>
    decreases cs.len(),
{
    if cs.len() == 0 {
        Seq::empty()
    } else {
        seq![OutTok::Comma] + spec_emit_instant(cs[0]) + spec_joined_rest(cs.skip(1))
    }
}

/// The argument list of the join combinator: every sibling's instant prefix
/// in order, separated by the argument separator.
pub open spec fn spec_joined_args(cs: Seq<Seq<ActionExpr>>) -> Seq<OutTok> {
    if cs.len() == 0 {
        Seq::empty()
    } else {
        spec_emit_instant(cs[0]) + spec_joined_rest(cs.skip(1))
    }
}

/// Every sibling's deferred actions, in sibling order then chain order.
pub open spec fn spec_all_deferred(cs: Seq<Seq<ActionExpr>>) -> Seq<(ActionGroup, Leaf)>
    decreases cs.len(),
{
    if cs.len() == 0 {
        Seq::empty()
    } else {
        spec_scheduled(cs[0], true) + spec_all_deferred(cs.skip(1))
    }
}

/// The emission of a whole build result. A single chain is emitted alone.
/// Joined sibling chains are emitted as the join combinator applied to every
/// sibling's instant prefix — so the instant prefixes run independently —
/// wrapped by every sibling's deferred actions, which therefore apply only
/// once every sibling has completed its instant prefix.
pub open spec fn spec_generate(cs: Seq<Seq<ActionExpr>>) -> Seq<OutTok>
    recommends
        cs.len() >= 1,
{
    if cs.len() == 1 {
        spec_emit_chain(cs[0])
    } else {
        spec_emit_actions(
            seq![OutTok::Join, OutTok::Open] + spec_joined_args(cs) + seq![OutTok::Close],
            spec_all_deferred(cs),
        )
    }
}

/// Folding a concatenation of action lists is folding one after the other.
proof fn lemma_emit_actions_concat(
    acc: Seq<OutTok>,
    a: Seq<(ActionGroup, Leaf)>,
    b: Seq<(ActionGroup, Leaf)>,
)
    ensures
        spec_emit_actions(acc, a + b) == spec_emit_actions(spec_emit_actions(acc, a), b),
    decreases a.len(),
{
    if a.len() == 0 {
        assert(a + b =~= b);
    } else {
        assert((a + b).skip(1) =~= a.skip(1) + b);
        lemma_emit_actions_concat(spec_apply_action(acc, a[0].0, a[0].1), a.skip(1), b);
    }
}

/// Wraps one combinator application around the accumulated expression.
fn apply_action(acc: Vec<OutTok>, g: ActionGroup, e: Leaf) -> (r: Vec<OutTok>)
    ensures
        r@ == spec_apply_action(acc@, g, e),
{
    let ghost acc0 = acc@;
    let mut acc = acc;
    let mut out: Vec<OutTok> = Vec::new();
    out.push(OutTok::Comb(g));
    out.push(OutTok::Open);
    out.append(&mut acc);
    out.push(OutTok::Comma);
    out.push(OutTok::Leaf(e));
    out.push(OutTok::Close);
    proof {
        assert(out@ =~= spec_apply_action(acc0, g, e));
    }
    out
}

/// One generator pass over a chain: folds every member of the given
/// scheduling over the accumulated expression, in chain order.
fn emit_pass(acc: Vec<OutTok>, members: &Vec<ActionExpr>, deferred: bool) -> (r: Vec<OutTok>)
    ensures
        r@ == spec_emit_actions(acc@, spec_scheduled(members@, deferred)),
{
    let ghost acc0 = acc@;
    let mut out = acc;
    let mut i: usize = 0;
    proof {
        assert(members@.skip(0) =~= members@);
    }
    while i < members.len()
        invariant
            i <= members@.len(),
            members@.len() == members.len(),
            spec_emit_actions(acc0, spec_scheduled(members@, deferred)) == spec_emit_actions(
                out@,
                spec_scheduled(members@.skip(i as int), deferred),
            ),
        decreases members@.len() - i,
    {
        let ghost rest = members@.skip(i as int);
        proof {
            assert(rest.skip(1) =~= members@.skip(i + 1));
            assert(rest[0] == members@[i as int]);
        }
        let m = &members[i];
        let sel: Option<(ActionGroup, Leaf)> = match m.action_group() {
            None => None,
            Some(g) => {
                if m.deferred() == deferred {
                    Some((g, m.extract_expr().clone()))
                } else {
                    None
                }
            },
        };
        match sel {
            Some((g, e)) => {
                proof {
                    assert(spec_scheduled(rest, deferred) == seq![
                        (m.spec_group(), m.spec_expr()),
                    ] + spec_scheduled(rest.skip(1), deferred));
                    assert(spec_scheduled(rest, deferred)[0] == (m.spec_group(), m.spec_expr()));
                    assert(spec_scheduled(rest, deferred).skip(1) =~= spec_scheduled(
                        rest.skip(1),
                        deferred,
                    ));
                }
                out = apply_action(out, g, e);
            },
            None => {
                proof {
                    assert(spec_scheduled(rest, deferred) == spec_scheduled(
                        rest.skip(1),
                        deferred,
                    ));
                }
            },
        }
        i = i + 1;
    }
    proof {
        assert(members@.skip(members@.len() as int) =~= Seq::<ActionExpr>::empty());
    }
    out
}

/// Emits one chain alone: the initial leaf expression, wrapped by its
/// instant actions in order, wrapped by its deferred actions in order.
pub fn generate_chain(chain: &ActionExprChain) -> (r: Vec<OutTok>)
    requires
        chain.well_formed(),
    ensures
        r@ == spec_emit_chain(chain.members@),
{
    let mut base: Vec<OutTok> = Vec::new();
    base.push(OutTok::Leaf(chain.members[0].extract_expr().clone()));
    proof {
        assert(base@ =~= seq![OutTok::Leaf(chain.members@[0].spec_expr())]);
    }
    let instant_done = emit_pass(base, &chain.members, false);
    emit_pass(instant_done, &chain.members, true)
}

/// Emits a whole build result: a single chain alone, or the join of every
/// sibling's instant prefix wrapped by every sibling's deferred actions, so
/// that deferred actions run only once every sibling has completed its
/// instant prefix.
pub fn generate(chains: &Vec<ActionExprChain>) -> (r: Vec<OutTok>)
    requires
        chains@.len() >= 1,
        forall|i: int| 0 <= i < chains@.len() ==> (#[trigger] chains@[i]).well_formed(),
    ensures
        r@ == spec_generate(spec_chains_of(chains@)),
{
    let ghost all = spec_chains_of(chains@);
    if chains.len() == 1 {
        let r = generate_chain(&chains[0]);
        proof {
            assert(all[0] == chains@[0].members@);
        }
        return r;
    }
    let mut base: Vec<OutTok> = Vec::new();
    base.push(OutTok::Leaf(chains[0].members[0].extract_expr().clone()));
    proof {
        assert(base@ =~= seq![OutTok::Leaf(chains@[0].members@[0].spec_expr())]);
        assert(all[0] == chains@[0].members@);
    }
    let mut args = emit_pass(base, &chains[0].members, false);
    let mut i: usize = 1;
    while i < chains.len()
        invariant
            1 <= i <= chains@.len(),
            chains@.len() == chains.len(),
            forall|k: int| 0 <= k < chains@.len() ==> (#[trigger] chains@[k]).well_formed(),
            all == spec_chains_of(chains@),
            spec_joined_args(all) == args@ + spec_joined_rest(all.skip(i as int)),
        decreases chains@.len() - i,
    {
        let ghost rest = all.skip(i as int);
        proof {
            assert(rest[0] == chains@[i as int].members@);
            assert(rest.skip(1) =~= all.skip(i + 1));
        }
        args.push(OutTok::Comma);
        let mut one: Vec<OutTok> = Vec::new();
        one.push(OutTok::Leaf(chains[i].members[0].extract_expr().clone()));
        proof {
            assert(one@ =~= seq![OutTok::Leaf(chains@[i as int].members@[0].spec_expr())]);
        }
        let mut piece = emit_pass(one, &chains[i].members, false);
        args.append(&mut piece);
        i = i + 1;
    }
    proof {
        assert(all.skip(all.len() as int) =~= Seq::<Seq<ActionExpr>>::empty());
        assert(spec_joined_args(all) == args@);
    }
    let mut joined: Vec<OutTok> = Vec::new();
    joined.push(OutTok::Join);
    joined.push(OutTok::Open);
    joined.append(&mut args);
    joined.push(OutTok::Close);
    let ghost joined0 = joined@;
    proof {
        assert(joined0 =~= seq![OutTok::Join, OutTok::Open] + spec_joined_args(all) + seq![
            OutTok::Close,
        ]);
    }
    let mut out = joined;
    let mut i: usize = 0;
    proof {
        assert(all.skip(0) =~= all);
    }
    while i < chains.len()
        invariant
            i <= chains@.len(),
            chains@.len() == chains.len(),
            all == spec_chains_of(chains@),
            spec_emit_actions(joined0, spec_all_deferred(all)) == spec_emit_actions(
                out@,
                spec_all_deferred(all.skip(i as int)),
            ),
        decreases chains@.len() - i,
    {
        let ghost rest = all.skip(i as int);
        proof {
            assert(rest[0] == chains@[i as int].members@);
            assert(rest.skip(1) =~= all.skip(i + 1));
            assert(spec_all_deferred(rest) == spec_scheduled(rest[0], true) + spec_all_deferred(
                rest.skip(1),
            ));
            lemma_emit_actions_concat(
                out@,
                spec_scheduled(rest[0], true),
                spec_all_deferred(rest.skip(1)),
            );
        }
        out = emit_pass(out, &chains[i].members, true);
        i = i + 1;
    }
    proof {
        assert(all.skip(all.len() as int) =~= Seq::<Seq<ActionExpr>>::empty());
    }
    out
}

/// Scheduling decides only placement: a non-initial node is selected exactly
/// by the pass of its own scheduling, and contributes the same action kind
/// and leaf expression whichever pass selects it.
pub proof fn lemma_scheduling_decides_placement(a: ActionExpr)
    requires
        !a.is_initial(),
    ensures
        spec_scheduled(seq![a], a.is_deferred()) == seq![(a.spec_group(), a.spec_expr())],
        spec_scheduled(seq![a], !a.is_deferred()) == Seq::<(ActionGroup, Leaf)>::empty(),
{
    let s = seq![a];
    assert(s.skip(1) =~= Seq::<ActionExpr>::empty());
    assert(spec_scheduled(Seq::<ActionExpr>::empty(), true) == Seq::<(
        ActionGroup,
        Leaf,
    )>::empty());
    assert(spec_scheduled(Seq::<ActionExpr>::empty(), false) == Seq::<(
        ActionGroup,
        Leaf,
    )>::empty());
    assert(seq![(a.spec_group(), a.spec_expr())] + Seq::<(ActionGroup, Leaf)>::empty() =~= seq![
        (a.spec_group(), a.spec_expr()),
    ]);
}

/// Round trip on the initial node: the chain of one initial node alone emits
/// exactly its leaf expression, with no wrapping syntax added.
pub proof fn lemma_initial_round_trip(c: Seq<ActionExpr>)
    requires
        c.len() == 1,
        c[0].is_initial(),
    ensures
        spec_emit_chain(c) == seq![OutTok::Leaf(c[0].spec_expr())],
{
    let none = Seq::<ActionExpr>::empty();
    assert(c.skip(1) =~= none);
    assert(spec_scheduled(none, false) == Seq::<(ActionGroup, Leaf)>::empty());
    assert(spec_scheduled(none, true) == Seq::<(ActionGroup, Leaf)>::empty());
    assert(spec_scheduled(c, false) == spec_scheduled(c.skip(1), false));
    assert(spec_scheduled(c, true) == spec_scheduled(c.skip(1), true));
    assert(spec_emit_actions(
        seq![OutTok::Leaf(c[0].spec_expr())],
        Seq::<(ActionGroup, Leaf)>::empty(),
    ) == seq![OutTok::Leaf(c[0].spec_expr())]);
}

} // verus!
