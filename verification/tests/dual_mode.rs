use maybe_async::ast::{Expr, ImplDef, Item, Member, StructDef, TraitDef, TypeRef};
use maybe_async::convert::{BuildConfig, Capability};
use maybe_async::modes::{apply_mode, async_impl, async_trait, both, must_be_async, must_be_sync, sync_impl, ModeError, TransformMode};

fn s(x: &str) -> String {
    x.to_string()
}

fn blank_member(name: &str) -> Member {
    Member {
        name: s(name),
        is_suspending: false,
        marked: false,
        recursion: false,
        recursion_wrapped: false,
        generics: vec![],
        where_bounds: vec![],
        params: vec![],
        ret: None,
        body: None,
    }
}

fn foo_struct() -> Item {
    Item::Struct(StructDef { name: s("Foo"), generics: vec![] })
}

const BOTH: BuildConfig = BuildConfig { is_sync: true, is_async: true };
const SYNC_ONLY: BuildConfig = BuildConfig { is_sync: true, is_async: false };
const ASYNC_ONLY: BuildConfig = BuildConfig { is_sync: false, is_async: true };

#[test]
fn dual_mode_on_a_struct_emits_two_distinctly_named_declarations() {
    let out = both(&vec![], &foo_struct(), BOTH).unwrap();
    assert_eq!(out.len(), 2);
    let first = match &out[0].item {
        Item::Struct(st) => st.name.clone(),
        other => panic!("expected a struct, got {:?}", other),
    };
    let second = match &out[1].item {
        Item::Struct(st) => st.name.clone(),
        other => panic!("expected a struct, got {:?}", other),
    };
    assert_eq!(first, s("FooSync"));
    assert_eq!(second, s("Foo"));
    assert_ne!(first, second);
}

#[test]
fn single_mode_emission_does_not_rename() {
    let out = both(&vec![], &foo_struct(), SYNC_ONLY).unwrap();
    assert_eq!(out.len(), 1);
    match &out[0].item {
        Item::Struct(st) => assert_eq!(st.name, s("Foo")),
        other => panic!("expected a struct, got {:?}", other),
    }
    let out = both(&vec![], &foo_struct(), ASYNC_ONLY).unwrap();
    assert_eq!(out.len(), 1);
    match &out[0].item {
        Item::Struct(st) => assert_eq!(st.name, s("Foo")),
        other => panic!("expected a struct, got {:?}", other),
    }
}

#[test]
fn dual_mode_on_a_function_emits_a_distinct_sibling_pair() {
    let mut f = blank_member("step");
    f.body = Some(vec![]);
    let out = both(&vec![], &Item::Fn(f), BOTH).unwrap();
    assert_eq!(out.len(), 2);
    match (&out[0].item, &out[1].item) {
        (Item::Fn(sync_copy), Item::Fn(async_copy)) => {
            assert_eq!(sync_copy.name, s("step"));
            assert!(!sync_copy.is_suspending);
            assert_eq!(async_copy.name, s("step_async"));
            assert!(async_copy.is_suspending);
        },
        other => panic!("expected two functions, got {:?}", other),
    }
}

#[test]
fn nothing_is_emitted_when_no_variant_is_materialized() {
    let out = both(&vec![], &foo_struct(), BuildConfig { is_sync: false, is_async: false }).unwrap();
    assert_eq!(out.len(), 0);
}

#[test]
fn the_recursion_flag_wraps_projected_members() {
    let mut m = blank_member("walk");
    m.marked = true;
    m.body = Some(vec![]);
    let item = Item::Impl(ImplDef {
        target: TypeRef { head: s("Tree"), args: vec![] },
        trait_ref: None,
        members: vec![m],
    });
    let out = both(&vec![s("?Send"), s("Recursion")], &item, ASYNC_ONLY).unwrap();
    assert_eq!(out.len(), 1);
    let imp = match &out[0].item {
        Item::Impl(i) => i,
        other => panic!("expected an impl, got {:?}", other),
    };
    assert_eq!(imp.members.len(), 1);
    assert!(imp.members[0].recursion_wrapped);
    assert_eq!(imp.members[0].name, s("walk_async"));
    // An inherent impl carries no suspension-capable trait wrapper.
    assert_eq!(out[0].wrapper, None);
}

#[test]
fn an_unknown_dual_flag_is_refused_with_its_position() {
    let r = both(&vec![s("Send"), s("Maybe")], &foo_struct(), BOTH);
    assert_eq!(r, Err(ModeError::UnknownDualFlag { index: 1 }));
}

#[test]
fn empty_flag_words_are_ignored() {
    let out = both(&vec![s(""), s("?Send")], &foo_struct(), ASYNC_ONLY);
    assert!(out.is_ok());
}

#[test]
fn the_orchestrator_fans_a_marked_default_method_into_both_variants() {
    let mut m = blank_member("fetch");
    m.marked = true;
    m.is_suspending = true;
    m.body = Some(vec![Expr::Await {
        base: Box::new(Expr::Call { func: vec![s("load")], args: vec![] }),
    }]);
    let plain = blank_member("name");
    let item = Item::Trait(TraitDef { name: s("Api"), generics: vec![], members: vec![m, plain] });

    let out = async_trait(&s(""), &item, BOTH).unwrap();
    assert_eq!(out.wrapper, Some(Capability::ConcurrencySafe));
    let t = match out.item {
        Item::Trait(t) => t,
        other => panic!("expected a trait, got {:?}", other),
    };
    assert_eq!(t.members.len(), 3);
    // The suspension copy: suffixed, still suspending, call repointed.
    assert_eq!(t.members[0].name, s("fetch_async"));
    assert!(t.members[0].is_suspending);
    assert_eq!(
        t.members[0].body,
        Some(vec![Expr::Await {
            base: Box::new(Expr::Call { func: vec![s("load_async")], args: vec![] }),
        }])
    );
    // The blocking copy: stripped name, no modifier, call unwrapped.
    assert_eq!(t.members[1].name, s("fetch"));
    assert!(!t.members[1].is_suspending);
    assert_eq!(
        t.members[1].body,
        Some(vec![Expr::Call { func: vec![s("load")], args: vec![] }])
    );
    // The unmarked member passes through unchanged.
    assert_eq!(t.members[2], blank_member("name"));
}

#[test]
fn a_blocking_method_without_a_default_still_gets_a_suspension_copy() {
    let mut m = blank_member("fetch");
    m.marked = true;
    let item = Item::Trait(TraitDef { name: s("Api"), generics: vec![], members: vec![m] });
    let out = async_trait(&s(""), &item, ASYNC_ONLY).unwrap();
    let t = match out.item {
        Item::Trait(t) => t,
        other => panic!("expected a trait, got {:?}", other),
    };
    assert_eq!(t.members.len(), 1);
    assert_eq!(t.members[0].name, s("fetch_async"));
    assert!(t.members[0].is_suspending);
    // The synthesized placeholder body: present, and diverging at call time.
    assert_eq!(t.members[0].body, Some(vec![Expr::Placeholder]));
}

#[test]
fn the_orchestrator_refuses_other_shapes() {
    assert_eq!(
        async_trait(&s(""), &foo_struct(), BOTH),
        Err(ModeError::NotTraitShaped)
    );
    assert_eq!(
        async_trait(&s(""), &Item::Fn(blank_member("f")), BOTH),
        Err(ModeError::NotTraitShaped)
    );
}

#[test]
fn condition_gated_modes_emit_only_under_their_condition() {
    let item = foo_struct();
    assert!(sync_impl(&item, SYNC_ONLY).is_some());
    assert!(sync_impl(&item, ASYNC_ONLY).is_none());
    assert!(async_impl(&s(""), &item, ASYNC_ONLY).unwrap().is_some());
    assert!(async_impl(&s(""), &item, SYNC_ONLY).unwrap().is_none());
    // The flag is checked even when nothing is emitted.
    assert_eq!(
        async_impl(&s("nope"), &item, SYNC_ONLY),
        Err(ModeError::UnknownFlag)
    );
}

#[test]
fn the_forced_modes_emit_exactly_one_declaration() {
    let item = foo_struct();
    let forced_sync = apply_mode(&item, TransformMode::ForceSync, ASYNC_ONLY);
    assert_eq!(forced_sync.len(), 1);
    match &forced_sync[0].item {
        Item::Struct(st) => assert_eq!(st.name, s("Foo")),
        other => panic!("expected a struct, got {:?}", other),
    }
    let forced_async = apply_mode(
        &item,
        TransformMode::ForceAsync(Capability::ConcurrencySafe),
        SYNC_ONLY,
    );
    assert_eq!(forced_async.len(), 1);
}

#[test]
fn an_empty_suspension_block_becomes_an_empty_plain_block() {
    let mut f = blank_member("go");
    f.body = Some(vec![Expr::AsyncBlock { stmts: vec![] }]);
    let out = must_be_sync(&Item::Fn(f));
    let m = match out.item {
        Item::Fn(m) => m,
        other => panic!("expected a function, got {:?}", other),
    };
    assert_eq!(m.body, Some(vec![Expr::Block { stmts: vec![] }]));
}

#[test]
fn projecting_to_suspension_form_and_back_returns_the_original() {
    let mut f = blank_member("fetch");
    f.body = Some(vec![
        Expr::Let { name: s("r"), init: Box::new(Expr::Call { func: vec![s("load")], args: vec![] }) },
        Expr::Verbatim { text: s("r") },
    ]);
    let original = Item::Fn(f);
    let suspended = must_be_async(&s(""), &original).unwrap();
    let back = must_be_sync(&suspended.item);
    assert_eq!(back.item, original);
}
