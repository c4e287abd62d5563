use maybe_async::classify::{classify, ClassifyError, DeclKind, Token};

#[test]
fn each_keyword_names_its_shape() {
    assert_eq!(classify(&vec![Token::KwTrait]), Ok(DeclKind::TraitKind));
    assert_eq!(classify(&vec![Token::KwStruct]), Ok(DeclKind::StructKind));
    assert_eq!(classify(&vec![Token::KwEnum]), Ok(DeclKind::EnumKind));
    assert_eq!(classify(&vec![Token::KwImpl]), Ok(DeclKind::ImplKind));
    assert_eq!(classify(&vec![Token::KwFn]), Ok(DeclKind::FnKind));
}

#[test]
fn a_leading_suspension_modifier_is_a_function() {
    assert_eq!(
        classify(&vec![Token::KwAsync, Token::KwFn]),
        Ok(DeclKind::FnKind)
    );
}

#[test]
fn visibility_and_unsafety_modifiers_are_probed_past() {
    assert_eq!(
        classify(&vec![Token::KwPub, Token::KwTrait]),
        Ok(DeclKind::TraitKind)
    );
    assert_eq!(
        classify(&vec![Token::KwUnsafe, Token::KwImpl]),
        Ok(DeclKind::ImplKind)
    );
    assert_eq!(
        classify(&vec![Token::KwPub, Token::KwUnsafe, Token::KwFn]),
        Ok(DeclKind::FnKind)
    );
    assert_eq!(
        classify(&vec![Token::KwUnsafe, Token::KwPub, Token::KwImpl]),
        Ok(DeclKind::ImplKind)
    );
}

#[test]
fn an_unrecognized_head_is_a_grammar_error_at_its_position() {
    assert_eq!(classify(&vec![Token::Other]), Err(ClassifyError { pos: 0 }));
    assert_eq!(
        classify(&vec![Token::KwPub, Token::Other]),
        Err(ClassifyError { pos: 1 })
    );
    assert_eq!(
        classify(&vec![Token::KwPub, Token::KwUnsafe, Token::Other]),
        Err(ClassifyError { pos: 2 })
    );
}

#[test]
fn a_bare_modifier_with_nothing_after_it_is_an_error() {
    assert_eq!(classify(&vec![]), Err(ClassifyError { pos: 0 }));
    assert_eq!(classify(&vec![Token::KwPub]), Err(ClassifyError { pos: 1 }));
}

#[test]
fn the_error_names_the_five_accepted_shapes() {
    let e = ClassifyError { pos: 0 };
    let msg = e.message();
    assert!(msg.contains("trait"));
    assert!(msg.contains("struct"));
    assert!(msg.contains("enum"));
    assert!(msg.contains("impl"));
    assert!(msg.contains("fn"));
}
