use join_impl::{
    build_action_expr_chains, determine_group, ActionExpr, ActionExprChain, ActionGroup,
    ChainError, CommandGroup, DefaultExpr, Group, InitialExpr, InstantOrDeferredExpr, Leaf,
    ProcessExpr, Punct, Token,
};

fn leaf(text: &str) -> Leaf {
    Leaf(String::from(text))
}

fn leaf_tok(text: &str) -> Token {
    Token::Leaf(leaf(text))
}

#[test]
fn classifier_prefers_longer_marker_over_its_prefix() {
    // `<=` must classify as the computed fallback, never as the `<` fallback.
    let tokens = vec![Token::Punct(Punct::Lt), Token::Punct(Punct::Equals)];
    assert_eq!(
        determine_group(&tokens, 0),
        Some((Group::Action(ActionGroup::OrElse), 2))
    );
    // `<<` must classify as the join command, never as the `<` fallback.
    let tokens = vec![Token::Punct(Punct::Lt), Token::Punct(Punct::Lt)];
    assert_eq!(
        determine_group(&tokens, 0),
        Some((Group::Command(CommandGroup::Join), 2))
    );
    // `<` alone still classifies as the fallback action.
    let tokens = vec![Token::Punct(Punct::Lt)];
    assert_eq!(
        determine_group(&tokens, 0),
        Some((Group::Action(ActionGroup::Or), 1))
    );
}

#[test]
fn classifier_matches_every_marker() {
    let cases = vec![
        (Punct::Dash, Punct::Gt, ActionGroup::Then),
        (Punct::Pipe, Punct::Gt, ActionGroup::MapOk),
        (Punct::Equals, Punct::Gt, ActionGroup::AndThen),
    ];
    for (first, second, expected) in cases {
        let tokens = vec![Token::Punct(first), Token::Punct(second)];
        assert_eq!(
            determine_group(&tokens, 0),
            Some((Group::Action(expected), 2))
        );
    }
    assert_eq!(determine_group(&vec![leaf_tok("x")], 0), None);
    assert_eq!(determine_group(&vec![Token::Punct(Punct::Tilde)], 0), None);
}

#[test]
fn builds_simple_sequential_chain() {
    // leaf0 -> leaf1 |> leaf2
    let tokens = vec![
        leaf_tok("leaf0"),
        Token::Punct(Punct::Dash),
        Token::Punct(Punct::Gt),
        leaf_tok("leaf1"),
        Token::Punct(Punct::Pipe),
        Token::Punct(Punct::Gt),
        leaf_tok("leaf2"),
    ];
    let chains = build_action_expr_chains(&tokens).unwrap();
    assert_eq!(chains.len(), 1);
    assert_eq!(
        chains[0].members,
        vec![
            ActionExpr::Initial(InitialExpr(leaf("leaf0"))),
            ActionExpr::Process(InstantOrDeferredExpr::Instant(ProcessExpr::Then(leaf(
                "leaf1"
            )))),
            ActionExpr::Process(InstantOrDeferredExpr::Instant(ProcessExpr::MapOk(leaf(
                "leaf2"
            )))),
        ]
    );
}

#[test]
fn builds_deferred_and_default_actions() {
    // leaf0 -> leaf1 ~<= leaf2
    let tokens = vec![
        leaf_tok("leaf0"),
        Token::Punct(Punct::Dash),
        Token::Punct(Punct::Gt),
        leaf_tok("leaf1"),
        Token::Punct(Punct::Tilde),
        Token::Punct(Punct::Lt),
        Token::Punct(Punct::Equals),
        leaf_tok("leaf2"),
    ];
    let chains = build_action_expr_chains(&tokens).unwrap();
    assert_eq!(chains.len(), 1);
    assert_eq!(
        chains[0].members,
        vec![
            ActionExpr::Initial(InitialExpr(leaf("leaf0"))),
            ActionExpr::Process(InstantOrDeferredExpr::Instant(ProcessExpr::Then(leaf(
                "leaf1"
            )))),
            ActionExpr::Default(InstantOrDeferredExpr::Deferred(DefaultExpr::OrElse(leaf(
                "leaf2"
            )))),
        ]
    );
}

#[test]
fn built_chains_are_well_formed() {
    let tokens = vec![
        leaf_tok("a"),
        Token::Punct(Punct::Lt),
        leaf_tok("b"),
        Token::Punct(Punct::Lt),
        Token::Punct(Punct::Lt),
        Token::Punct(Punct::OpenBrace),
        leaf_tok("c"),
        Token::Punct(Punct::Equals),
        Token::Punct(Punct::Gt),
        leaf_tok("d"),
        Token::Punct(Punct::CloseBrace),
    ];
    let chains = build_action_expr_chains(&tokens).unwrap();
    assert_eq!(chains.len(), 2);
    for chain in &chains {
        assert!(matches!(chain.members[0], ActionExpr::Initial(_)));
        for member in &chain.members[1..] {
            assert!(!matches!(member, ActionExpr::Initial(_)));
        }
    }
}

#[test]
fn builds_joined_sibling_chains() {
    // a << { b } -> c
    let tokens = vec![
        leaf_tok("a"),
        Token::Punct(Punct::Lt),
        Token::Punct(Punct::Lt),
        Token::Punct(Punct::OpenBrace),
        leaf_tok("b"),
        Token::Punct(Punct::CloseBrace),
        Token::Punct(Punct::Dash),
        Token::Punct(Punct::Gt),
        leaf_tok("c"),
    ];
    let chains = build_action_expr_chains(&tokens).unwrap();
    assert_eq!(chains.len(), 2);
    assert_eq!(
        chains[0].members,
        vec![
            ActionExpr::Initial(InitialExpr(leaf("a"))),
            ActionExpr::Process(InstantOrDeferredExpr::Instant(ProcessExpr::Then(leaf("c")))),
        ]
    );
    assert_eq!(
        chains[1].members,
        vec![ActionExpr::Initial(InitialExpr(leaf("b")))]
    );
}

#[test]
fn builds_nested_joined_chains() {
    // a << { b << { c } }
    let tokens = vec![
        leaf_tok("a"),
        Token::Punct(Punct::Lt),
        Token::Punct(Punct::Lt),
        Token::Punct(Punct::OpenBrace),
        leaf_tok("b"),
        Token::Punct(Punct::Lt),
        Token::Punct(Punct::Lt),
        Token::Punct(Punct::OpenBrace),
        leaf_tok("c"),
        Token::Punct(Punct::CloseBrace),
        Token::Punct(Punct::CloseBrace),
    ];
    let chains = build_action_expr_chains(&tokens).unwrap();
    assert_eq!(chains.len(), 3);
    assert_eq!(
        chains[0].members,
        vec![ActionExpr::Initial(InitialExpr(leaf("a")))]
    );
    assert_eq!(
        chains[1].members,
        vec![ActionExpr::Initial(InitialExpr(leaf("b")))]
    );
    assert_eq!(
        chains[2].members,
        vec![ActionExpr::Initial(InitialExpr(leaf("c")))]
    );
}

#[test]
fn scheduling_marker_without_action_fails_classification() {
    // Input ends right after the deferred marker: a classification failure,
    // never a truncated chain.
    let tokens = vec![leaf_tok("leaf0"), Token::Punct(Punct::Tilde)];
    assert_eq!(
        build_action_expr_chains(&tokens),
        Err(ChainError::ClassificationFailure(2))
    );
}

#[test]
fn unmatched_marker_fails_classification() {
    let tokens = vec![leaf_tok("a"), Token::Punct(Punct::Gt), leaf_tok("b")];
    assert_eq!(
        build_action_expr_chains(&tokens),
        Err(ChainError::ClassificationFailure(1))
    );
}

#[test]
fn missing_initial_leaf_is_malformed() {
    assert_eq!(
        build_action_expr_chains(&vec![]),
        Err(ChainError::MalformedLeafExpression(0))
    );
    let tokens = vec![Token::Punct(Punct::Dash), Token::Punct(Punct::Gt)];
    assert_eq!(
        build_action_expr_chains(&tokens),
        Err(ChainError::MalformedLeafExpression(0))
    );
}

#[test]
fn missing_action_leaf_is_malformed() {
    let tokens = vec![
        leaf_tok("a"),
        Token::Punct(Punct::Dash),
        Token::Punct(Punct::Gt),
    ];
    assert_eq!(
        build_action_expr_chains(&tokens),
        Err(ChainError::MalformedLeafExpression(3))
    );
}

#[test]
fn empty_leaf_fragment_is_malformed() {
    let tokens = vec![leaf_tok("a"), Token::Punct(Punct::Lt), leaf_tok("")];
    assert_eq!(
        build_action_expr_chains(&tokens),
        Err(ChainError::MalformedLeafExpression(2))
    );
}

#[test]
fn unterminated_join_region_is_unbounded_nesting() {
    let tokens = vec![
        leaf_tok("a"),
        Token::Punct(Punct::Lt),
        Token::Punct(Punct::Lt),
        Token::Punct(Punct::OpenBrace),
        leaf_tok("b"),
    ];
    assert_eq!(
        build_action_expr_chains(&tokens),
        Err(ChainError::UnboundedNesting(1))
    );
}

#[test]
fn join_without_region_fails_classification() {
    let tokens = vec![
        leaf_tok("a"),
        Token::Punct(Punct::Lt),
        Token::Punct(Punct::Lt),
        leaf_tok("b"),
    ];
    assert_eq!(
        build_action_expr_chains(&tokens),
        Err(ChainError::ClassificationFailure(3))
    );
}

#[test]
fn rewrite_pass_replaces_member_leaf() {
    let chain = ActionExprChain {
        members: vec![
            ActionExpr::Initial(InitialExpr(leaf("a"))),
            ActionExpr::Process(InstantOrDeferredExpr::Deferred(ProcessExpr::MapOk(leaf(
                "b",
            )))),
        ],
    };
    let rewritten = chain
        .replace_member_exprs(1, &[leaf("x"), leaf("y")][..])
        .unwrap();
    assert_eq!(
        rewritten.members,
        vec![
            ActionExpr::Initial(InitialExpr(leaf("a"))),
            ActionExpr::Process(InstantOrDeferredExpr::Deferred(ProcessExpr::MapOk(leaf(
                "y",
            )))),
        ]
    );
}

#[test]
fn rewrite_pass_with_no_exprs_is_empty_replacement() {
    let chain = ActionExprChain {
        members: vec![ActionExpr::Initial(InitialExpr(leaf("a")))],
    };
    assert_eq!(
        chain.replace_member_exprs(0, &[][..]),
        Err(ChainError::EmptyReplacement)
    );
}
