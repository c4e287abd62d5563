//! The declaration classifier: reads the head of one top-level
//! declaration's token sequence and decides which of the five accepted
//! shapes it is, or fails with a grammar error carrying the offending
//! location.
//!
//! The probe is non-destructive: optional leading modifiers — a visibility
//! modifier, an unsafety modifier — are looked past without being
//! consumed, because they are legal prefixes of several shapes and must
//! remain present in the final parse.

use vstd::prelude::*;

verus! {

/// One head token of a declaration, as the classifier reads it: the
/// keywords it branches on, and anything else.
#[derive(Clone, Copy, PartialEq, Eq, Structural, Debug)]
pub enum Token {
    KwPub,
    KwUnsafe,
    KwImpl,
    KwTrait,
    KwEnum,
    KwStruct,
    KwFn,
    KwAsync,
    Other,
}

/// Which of the five accepted shapes a declaration has.
#[derive(Clone, Copy, PartialEq, Eq, Structural, Debug)]
pub enum DeclKind {
    TraitKind,
    StructKind,
    EnumKind,
    ImplKind,
    FnKind,
}

/// A grammar error: the position of the offending token, just past the
/// leading modifiers.
#[derive(Clone, Copy, PartialEq, Eq, Structural, Debug)]
pub struct ClassifyError {
    pub pos: usize,
}

impl ClassifyError {
    /// The diagnostic text, naming the five accepted shapes.
    pub fn message(&self) -> (r: &'static str)
        ensures
            r@ == "expected a trait, struct, enum, impl, or fn declaration"@,
    {
        "expected a trait, struct, enum, impl, or fn declaration"
    }
}

/// How many leading modifier tokens the probe looks past: at most one
/// visibility modifier and at most one unsafety modifier, in either order.
pub open spec fn spec_skip_modifiers(toks: Seq<Token>) -> int {
    if toks.len() > 0 && (toks[0] == Token::KwPub || toks[0] == Token::KwUnsafe) {
        if toks.len() > 1 && (toks[1] == Token::KwPub || toks[1] == Token::KwUnsafe) && toks[1]
            != toks[0] {
            2
        } else {
            1
        }
    } else {
        0
    }
}

/// The classification of one declaration's head: past the modifiers,
/// `impl`, `trait`, `enum` and `struct` name their shapes, a function head
/// (`fn`, or the suspension modifier that may precede it) is a function,
/// and anything else — or a bare modifier with nothing after it — is a
/// grammar error at that position.
pub open spec fn spec_classify(toks: Seq<Token>) -> Result<DeclKind, int> {
    let i = spec_skip_modifiers(toks);
    if i < toks.len() {
        match toks[i] {
            Token::KwImpl => Ok(DeclKind::ImplKind),
            Token::KwTrait => Ok(DeclKind::TraitKind),
            Token::KwEnum => Ok(DeclKind::EnumKind),
            Token::KwStruct => Ok(DeclKind::StructKind),
            Token::KwFn => Ok(DeclKind::FnKind),
            Token::KwAsync => Ok(DeclKind::FnKind),
            _ => Err(i),
        }
    } else {
        Err(i)
    }
}

/// Classify one declaration by its head tokens: exactly one of the five
/// shapes, or a grammar error at the offending position.
pub fn classify(toks: &Vec<Token>) -> (r: Result<DeclKind, ClassifyError>)
    ensures
        match r {
            Ok(kind) => spec_classify(toks@) == Result::<DeclKind, int>::Ok(kind),
            Err(e) => spec_classify(toks@) == Result::<DeclKind, int>::Err(e.pos as int),
        },
{
    let mut i: usize = 0;
    if toks.len() > 0 && (toks[0] == Token::KwPub || toks[0] == Token::KwUnsafe) {
        if toks.len() > 1 && (toks[1] == Token::KwPub || toks[1] == Token::KwUnsafe)
            && !(toks[1] == toks[0]) {
            i = 2;
        } else {
            i = 1;
        }
    }
    if i < toks.len() {
        match toks[i] {
            Token::KwImpl => Ok(DeclKind::ImplKind),
            Token::KwTrait => Ok(DeclKind::TraitKind),
            Token::KwEnum => Ok(DeclKind::EnumKind),
            Token::KwStruct => Ok(DeclKind::StructKind),
            Token::KwFn => Ok(DeclKind::FnKind),
            Token::KwAsync => Ok(DeclKind::FnKind),
            _ => Err(ClassifyError { pos: i }),
        }
    } else {
        Err(ClassifyError { pos: i })
    }
}

} // verus!
