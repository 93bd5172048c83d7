use join_impl::{
    ActionExpr, DefaultActionExpr, DefaultExpr, InitialExpr, InstantOrDeferredExpr, Leaf, OutTok,
    ProcessActionExpr, ProcessExpr,
};

fn leaf(text: &str) -> Leaf {
    Leaf(String::from(text))
}

#[test]
fn it_tests_inner_expr_trait_impl_for_err_expr() {
    let expr = leaf("|v| v + 1");

    assert_eq!(
        InitialExpr(expr.clone()).get_inner_exprs(),
        Some(vec![expr])
    );
}

#[test]
fn it_tests_inner_expr_trait_impl_replace_inner_for_initial_expr() {
    let expr = leaf("|v| v + 1");
    let replace_inner = leaf("|v| 1 + v");

    assert_eq!(
        InitialExpr(expr)
            .replace_inner_exprs(&[replace_inner.clone()][..])
            .unwrap()
            .get_inner_exprs(),
        Some(vec![replace_inner])
    );
}

#[test]
fn it_tests_to_tokens_trait_impl_for_initial_expr() {
    let expr = leaf("|v| v + 1");

    assert_eq!(
        InitialExpr(expr.clone()).into_token_stream(),
        vec![OutTok::Leaf(expr)]
    );
}

#[test]
fn it_tests_extract_expr_trait_impl_for_process_action_expr() {
    let expr = leaf("|v| v + 1");

    for process_action_expr in vec![
        ProcessActionExpr::Instant(ProcessExpr::Then(expr.clone())),
        ProcessActionExpr::Deferred(ProcessExpr::Then(expr.clone())),
    ]
    .into_iter()
    {
        assert_eq!(process_action_expr.extract_expr().clone(), expr);
        assert_eq!(
            process_action_expr.extract_inner_expr().clone(),
            match process_action_expr {
                ProcessActionExpr::Instant(expr) => expr,
                ProcessActionExpr::Deferred(expr) => expr,
            }
        );
    }
}

#[test]
fn it_tests_extract_expr_trait_impl_for_default_action_expr() {
    let expr = leaf("|v| v + 1");

    for default_action_expr in vec![
        DefaultActionExpr::Instant(DefaultExpr::Or(expr.clone())),
        DefaultActionExpr::Deferred(DefaultExpr::OrElse(expr.clone())),
    ]
    .into_iter()
    {
        assert_eq!(default_action_expr.extract_expr().clone(), expr);
        assert_eq!(
            default_action_expr.extract_inner_expr().clone(),
            match default_action_expr {
                DefaultActionExpr::Instant(expr) => expr,
                DefaultActionExpr::Deferred(expr) => expr,
            }
        );
    }
}

#[test]
fn replace_inner_exprs_takes_last_of_many() {
    let first = leaf("a");
    let second = leaf("b");
    let node = ActionExpr::Process(InstantOrDeferredExpr::Deferred(ProcessExpr::MapOk(leaf(
        "c",
    ))));
    let rebuilt = node
        .replace_inner_exprs(&[first, second.clone()][..])
        .unwrap();
    assert_eq!(
        rebuilt,
        ActionExpr::Process(InstantOrDeferredExpr::Deferred(ProcessExpr::MapOk(second)))
    );
}

#[test]
fn replace_inner_exprs_fails_on_empty_input() {
    let initial = InitialExpr(leaf("start"));
    let process = ProcessExpr::AndThen(leaf("step"));
    let fallback = DefaultExpr::Or(leaf("recover"));
    let action = ActionExpr::Default(InstantOrDeferredExpr::Instant(DefaultExpr::OrElse(leaf(
        "handle",
    ))));
    assert_eq!(initial.replace_inner_exprs(&[][..]), None);
    assert_eq!(process.replace_inner_exprs(&[][..]), None);
    assert_eq!(fallback.replace_inner_exprs(&[][..]), None);
    assert_eq!(action.replace_inner_exprs(&[][..]), None);
}

#[test]
fn scheduling_does_not_change_extracted_expr() {
    let expr = leaf("|x| x * 2");
    let instant = ActionExpr::Process(InstantOrDeferredExpr::Instant(ProcessExpr::MapOk(
        expr.clone(),
    )));
    let deferred = ActionExpr::Process(InstantOrDeferredExpr::Deferred(ProcessExpr::MapOk(
        expr.clone(),
    )));
    assert_eq!(instant.extract_expr(), deferred.extract_expr());
    assert_eq!(instant.extract_expr().clone(), expr);
}

#[test]
fn to_tokens_appends_leaf_verbatim() {
    let expr = leaf("value");
    let mut output = vec![OutTok::Open];
    InitialExpr(expr.clone()).to_tokens(&mut output);
    assert_eq!(output, vec![OutTok::Open, OutTok::Leaf(expr)]);
}

#[test]
fn leaf_validity_rejects_empty_fragment() {
    assert!(leaf("x").check_valid());
    assert!(!leaf("").check_valid());
}
