use maybe_async::ast::{Expr, FnParam, GenericParam, Item, Member, TraitBound, TraitDef, TypeRef, WherePred};
use maybe_async::convert::Capability;
use maybe_async::modes::{must_be_async, must_be_sync, ModeError};

fn s(x: &str) -> String {
    x.to_string()
}

fn blank_member(name: &str) -> Member {
    Member {
        name: s(name),
        is_suspending: false,
        marked: false,
        recursion: false,
        recursion_wrapped: false,
        generics: vec![],
        where_bounds: vec![],
        params: vec![],
        ret: None,
        body: None,
    }
}

fn plain_type(head: &str) -> TypeRef {
    TypeRef { head: s(head), args: vec![] }
}

#[test]
fn force_sync_unwraps_a_suspended_default_body() {
    // A trait with one marked method declared with the suspension modifier
    // and a default body holding one suspended, suffixed call.
    let mut method = blank_member("fetch_async");
    method.marked = true;
    method.is_suspending = true;
    method.body = Some(vec![Expr::Await {
        base: Box::new(Expr::MethodCall {
            receiver: Box::new(Expr::Verbatim { text: s("client") }),
            name: s("get_async"),
            args: vec![],
        }),
    }]);
    let item = Item::Trait(TraitDef { name: s("Api"), generics: vec![], members: vec![method] });

    let out = must_be_sync(&item);
    assert_eq!(out.wrapper, None);
    let t = match out.item {
        Item::Trait(t) => t,
        other => panic!("expected a trait, got {:?}", other),
    };
    assert_eq!(t.name, s("Api"));
    assert_eq!(t.members.len(), 1);
    let m = &t.members[0];
    assert!(!m.is_suspending);
    assert!(!m.marked);
    assert_eq!(m.name, s("fetch"));
    assert_eq!(
        m.body,
        Some(vec![Expr::MethodCall {
            receiver: Box::new(Expr::Verbatim { text: s("client") }),
            name: s("get"),
            args: vec![],
        }])
    );
}

#[test]
fn force_async_adds_the_modifier_and_invents_no_awaits() {
    // A marked function with a blocking body and no suspension modifier.
    let mut f = blank_member("step");
    f.marked = true;
    f.body = Some(vec![Expr::Call { func: vec![s("compute")], args: vec![] }]);
    let item = Item::Fn(f);

    let out = must_be_async(&s(""), &item).unwrap();
    assert_eq!(out.wrapper, None);
    let m = match out.item {
        Item::Fn(m) => m,
        other => panic!("expected a function, got {:?}", other),
    };
    assert_eq!(m.name, s("step_async"));
    assert!(m.is_suspending);
    assert!(!m.recursion_wrapped);
    // The blocking body is otherwise unchanged: the bare call is left
    // untouched because it stands in no await context.
    assert_eq!(m.body, Some(vec![Expr::Call { func: vec![s("compute")], args: vec![] }]));
}

#[test]
fn repointing_fires_only_inside_await_contexts() {
    let mut f = blank_member("run");
    f.body = Some(vec![
        Expr::Await {
            base: Box::new(Expr::Call { func: vec![s("load")], args: vec![] }),
        },
        Expr::Call { func: vec![s("load")], args: vec![] },
    ]);
    let out = must_be_async(&s(""), &Item::Fn(f)).unwrap();
    let m = match out.item {
        Item::Fn(m) => m,
        other => panic!("expected a function, got {:?}", other),
    };
    assert_eq!(
        m.body,
        Some(vec![
            Expr::Await {
                base: Box::new(Expr::Call { func: vec![s("load_async")], args: vec![] }),
            },
            Expr::Call { func: vec![s("load")], args: vec![] },
        ])
    );
}

#[test]
fn an_already_suffixed_awaited_call_is_not_suffixed_again() {
    let mut f = blank_member("run");
    f.body = Some(vec![Expr::Await {
        base: Box::new(Expr::MethodCall {
            receiver: Box::new(Expr::Verbatim { text: s("c") }),
            name: s("get_async"),
            args: vec![],
        }),
    }]);
    let out = must_be_async(&s(""), &Item::Fn(f)).unwrap();
    let m = match out.item {
        Item::Fn(m) => m,
        other => panic!("expected a function, got {:?}", other),
    };
    assert_eq!(
        m.body,
        Some(vec![Expr::Await {
            base: Box::new(Expr::MethodCall {
                receiver: Box::new(Expr::Verbatim { text: s("c") }),
                name: s("get_async"),
                args: vec![],
            }),
        }])
    );
}

#[test]
fn a_single_statement_suspension_block_becomes_the_bare_statement() {
    let mut f = blank_member("go");
    f.body = Some(vec![Expr::AsyncBlock { stmts: vec![Expr::Verbatim { text: s("x + 1") }] }]);
    let out = must_be_sync(&Item::Fn(f));
    let m = match out.item {
        Item::Fn(m) => m,
        other => panic!("expected a function, got {:?}", other),
    };
    assert_eq!(m.body, Some(vec![Expr::Verbatim { text: s("x + 1") }]));
}

#[test]
fn a_wider_suspension_block_becomes_a_plain_block() {
    let mut f = blank_member("go");
    f.body = Some(vec![Expr::AsyncBlock {
        stmts: vec![
            Expr::Let { name: s("a"), init: Box::new(Expr::Verbatim { text: s("1") }) },
            Expr::Verbatim { text: s("a") },
        ],
    }]);
    let out = must_be_sync(&Item::Fn(f));
    let m = match out.item {
        Item::Fn(m) => m,
        other => panic!("expected a function, got {:?}", other),
    };
    assert_eq!(
        m.body,
        Some(vec![Expr::Block {
            stmts: vec![
                Expr::Let { name: s("a"), init: Box::new(Expr::Verbatim { text: s("1") }) },
                Expr::Verbatim { text: s("a") },
            ],
        }])
    );
}

#[test]
fn an_eventual_value_parameter_is_erased_from_the_whole_signature() {
    // fn wait<T: Future<Output = Response>>(fut: T) -> T { T::consume() }
    let mut f = blank_member("wait");
    f.generics = vec![GenericParam::TypeParam {
        name: s("T"),
        bounds: vec![TraitBound { name: s("Future"), output: Some(plain_type("Response")) }],
    }];
    f.params = vec![FnParam { name: s("fut"), ty: plain_type("T") }];
    f.ret = Some(plain_type("T"));
    f.body = Some(vec![Expr::Call { func: vec![s("T"), s("consume")], args: vec![] }]);

    let out = must_be_sync(&Item::Fn(f));
    let m = match out.item {
        Item::Fn(m) => m,
        other => panic!("expected a function, got {:?}", other),
    };
    assert_eq!(m.generics, vec![]);
    assert_eq!(m.params, vec![FnParam { name: s("fut"), ty: plain_type("Response") }]);
    assert_eq!(m.ret, Some(plain_type("Response")));
    assert_eq!(
        m.body,
        Some(vec![Expr::Call { func: vec![s("Response"), s("consume")], args: vec![] }])
    );
}

#[test]
fn a_where_predicate_bound_is_erased_too() {
    // fn wait<T>(fut: T) where T: Future<Output = Response> { ... }
    let mut f = blank_member("wait");
    f.generics = vec![GenericParam::TypeParam { name: s("T"), bounds: vec![] }];
    f.where_bounds = vec![WherePred::TypeBound {
        bounded: s("T"),
        bounds: vec![TraitBound { name: s("Future"), output: Some(plain_type("Response")) }],
    }];
    f.params = vec![FnParam { name: s("fut"), ty: plain_type("T") }];

    let out = must_be_sync(&Item::Fn(f));
    let m = match out.item {
        Item::Fn(m) => m,
        other => panic!("expected a function, got {:?}", other),
    };
    assert_eq!(m.generics, vec![]);
    assert_eq!(m.where_bounds, vec![]);
    assert_eq!(m.params, vec![FnParam { name: s("fut"), ty: plain_type("Response") }]);
}

#[test]
fn a_bound_without_an_output_binding_is_kept() {
    let mut f = blank_member("keep");
    f.generics = vec![GenericParam::TypeParam {
        name: s("T"),
        bounds: vec![TraitBound { name: s("Clone"), output: None }],
    }];
    f.params = vec![FnParam { name: s("x"), ty: plain_type("T") }];
    let out = must_be_sync(&Item::Fn(f));
    let m = match out.item {
        Item::Fn(m) => m,
        other => panic!("expected a function, got {:?}", other),
    };
    assert_eq!(m.generics.len(), 1);
    assert_eq!(m.params, vec![FnParam { name: s("x"), ty: plain_type("T") }]);
}

#[test]
fn erasure_keeps_every_other_generic_parameter() {
    // fn wait<'a, T: Future<Output = Response>, U>(fut: T, x: U) -> U
    let mut f = blank_member("wait");
    f.generics = vec![
        GenericParam::Opaque { text: s("'a") },
        GenericParam::TypeParam {
            name: s("T"),
            bounds: vec![TraitBound { name: s("Future"), output: Some(plain_type("Response")) }],
        },
        GenericParam::TypeParam { name: s("U"), bounds: vec![] },
    ];
    f.params = vec![
        FnParam { name: s("fut"), ty: plain_type("T") },
        FnParam { name: s("x"), ty: plain_type("U") },
    ];
    f.ret = Some(plain_type("U"));
    let out = must_be_sync(&Item::Fn(f));
    let m = match out.item {
        Item::Fn(m) => m,
        other => panic!("expected a function, got {:?}", other),
    };
    assert_eq!(
        m.generics,
        vec![
            GenericParam::Opaque { text: s("'a") },
            GenericParam::TypeParam { name: s("U"), bounds: vec![] },
        ]
    );
    assert_eq!(
        m.params,
        vec![
            FnParam { name: s("fut"), ty: plain_type("Response") },
            FnParam { name: s("x"), ty: plain_type("U") },
        ]
    );
    assert_eq!(m.ret, Some(plain_type("U")));
}

#[test]
fn the_capability_flag_selects_the_wrapper() {
    let t = Item::Trait(TraitDef { name: s("Api"), generics: vec![], members: vec![] });
    let send = must_be_async(&s("Send"), &t).unwrap();
    assert_eq!(send.wrapper, Some(Capability::ConcurrencySafe));
    let not_send = must_be_async(&s("?Send"), &t).unwrap();
    assert_eq!(not_send.wrapper, Some(Capability::Unconstrained));
    let default = must_be_async(&s(""), &t).unwrap();
    assert_eq!(default.wrapper, Some(Capability::ConcurrencySafe));
}

#[test]
fn an_unknown_capability_flag_is_refused() {
    let t = Item::Trait(TraitDef { name: s("Api"), generics: vec![], members: vec![] });
    assert_eq!(must_be_async(&s("Sync"), &t), Err(ModeError::UnknownFlag));
}

#[test]
fn an_impl_target_can_be_suffixed_in_place() {
    let mut imp = maybe_async::ast::ImplDef {
        target: TypeRef { head: s("Client"), args: vec![plain_type("T")] },
        trait_ref: None,
        members: vec![],
    };
    maybe_async::convert::impl_add_suffix(&mut imp, "Sync");
    assert_eq!(imp.target.head, s("ClientSync"));
    assert_eq!(imp.target.args, vec![plain_type("T")]);
}
