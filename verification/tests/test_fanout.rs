use maybe_async::modes::{GuardedCopy, ModeError, TestArg};

fn s(x: &str) -> String {
    x.to_string()
}

fn plain(cond: &str) -> TestArg {
    TestArg::Plain { cond: s(cond) }
}

fn group(name: &str, items: &[&str]) -> TestArg {
    TestArg::Group { name: s(name), items: items.iter().map(|x| s(x)).collect() }
}

#[test]
fn one_sync_and_two_async_conditions_give_three_guarded_copies() {
    let args = vec![
        plain("feature=\"is_sync\""),
        group("async", &["feature=\"async_std\"", "async_std::test"]),
        group("async", &["feature=\"tokio\"", "tokio::test"]),
    ];
    let out = maybe_async::modes::test(&args).unwrap();
    assert_eq!(out.copies.len(), 3);
    assert_eq!(
        out.copies[0],
        GuardedCopy { cond: s("feature=\"is_sync\""), entry: None }
    );
    assert_eq!(
        out.copies[1],
        GuardedCopy { cond: s("feature=\"async_std\""), entry: Some(s("async_std::test")) }
    );
    assert_eq!(
        out.copies[2],
        GuardedCopy { cond: s("feature=\"tokio\""), entry: Some(s("tokio::test")) }
    );
    assert_eq!(
        out.guard,
        vec![s("feature=\"is_sync\""), s("feature=\"async_std\""), s("feature=\"tokio\"")]
    );
}

#[test]
fn a_single_sync_condition_gives_one_copy_gated_by_it() {
    let out = maybe_async::modes::test(&vec![plain("feature=\"is_sync\"")]).unwrap();
    assert_eq!(out.copies.len(), 1);
    assert_eq!(out.copies[0].entry, None);
    assert_eq!(out.guard, vec![s("feature=\"is_sync\"")]);
}

#[test]
fn no_arguments_at_all_is_refused() {
    assert_eq!(maybe_async::modes::test(&vec![]), Err(ModeError::EmptyTestArgs));
}

#[test]
fn a_group_cannot_stand_first() {
    let args = vec![group("async", &["c", "tokio::test"])];
    assert_eq!(maybe_async::modes::test(&args), Err(ModeError::FirstArgNotCondition));
}

#[test]
fn a_bare_condition_after_the_first_is_refused() {
    let args = vec![plain("sync"), plain("stray")];
    assert_eq!(maybe_async::modes::test(&args), Err(ModeError::PlainAfterFirst { index: 1 }));
}

#[test]
fn a_group_not_named_async_is_refused() {
    let args = vec![plain("sync"), group("asink", &["c", "tokio::test"])];
    assert_eq!(maybe_async::modes::test(&args), Err(ModeError::NotAsyncGroup { index: 1 }));
}

#[test]
fn a_group_with_the_wrong_arity_is_refused() {
    let args = vec![plain("sync"), group("async", &["c"])];
    assert_eq!(maybe_async::modes::test(&args), Err(ModeError::BadAsyncArity { index: 1, found: 1 }));
    let args = vec![plain("sync"), group("async", &["c", "tokio::test", "extra"])];
    assert_eq!(maybe_async::modes::test(&args), Err(ModeError::BadAsyncArity { index: 1, found: 3 }));
}

#[test]
fn the_first_malformed_group_wins() {
    let args = vec![
        plain("sync"),
        group("async", &["c1", "tokio::test"]),
        group("later", &["c2", "x"]),
        plain("even_later"),
    ];
    assert_eq!(maybe_async::modes::test(&args), Err(ModeError::NotAsyncGroup { index: 2 }));
}
