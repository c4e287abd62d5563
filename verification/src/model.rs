//! The mathematical model of the declaration trees.
//!
//! Every executable tree type of [`crate::ast`] has a view into one of these
//! spec-level types; the projectors' contracts and the engine's laws are all
//! stated over them.

use vstd::prelude::*;

verus! {

/// A name, as a sequence of characters.
pub type NameView = Seq<char>;

/// A path, as its sequence of segment names.
pub type PathView = Seq<NameView>;

/// A type reference: a head name applied to type arguments.
pub struct SpecTypeRef {
    pub head: NameView,
    pub args: Seq<SpecTypeRef>,
}

/// One trait bound of a generic parameter or of a where-predicate: the
/// bound's (last) path segment name, and the associated `Output` binding if
/// the bound carries one (`Future<Output = T>`).
pub struct SpecTraitBound {
    pub name: NameView,
    pub output: Option<SpecTypeRef>,
}

/// One generic parameter.
pub enum SpecGenericParam {
    /// A type parameter with its bound list.
    TypeParam { name: NameView, bounds: Seq<SpecTraitBound> },
    /// Any other parameter form (a lifetime, a const parameter), carried
    /// through verbatim.
    Opaque { text: NameView },
}

/// One where-clause predicate.
pub enum SpecWherePred {
    /// `bounded: bounds...`, with the bounded type given by its head name.
    TypeBound { bounded: NameView, bounds: Seq<SpecTraitBound> },
    /// Any other predicate form, carried through verbatim.
    Opaque { text: NameView },
}

/// One value parameter of a signature.
pub struct SpecFnParam {
    pub name: NameView,
    pub ty: SpecTypeRef,
}

/// An expression tree, restricted to the structure the rewrite rules read.
pub enum SpecExpr {
    /// Any expression form the rewrites leave alone, carried through
    /// verbatim.
    Verbatim { text: NameView },
    /// A call `path(args...)`.
    Call { func: PathView, args: Seq<SpecExpr> },
    /// A method call `receiver.name(args...)`.
    MethodCall { receiver: Box<SpecExpr>, name: NameView, args: Seq<SpecExpr> },
    /// A suspension point `await(base)`.
    Await { base: Box<SpecExpr> },
    /// A suspension block wrapping a list of statements.
    AsyncBlock { stmts: Seq<SpecExpr> },
    /// A plain block.
    Block { stmts: Seq<SpecExpr> },
    /// A `let` statement binding `name` to `init`.
    Let { name: NameView, init: Box<SpecExpr> },
    /// The synthesized diverging body of a trait method that only exists in
    /// suspension form; calling it is a deferred fatal condition.
    Placeholder,
}

/// A method-like unit: a trait method, an impl method, or a free function.
pub struct SpecMember {
    pub name: NameView,
    /// Does the signature carry the suspension modifier?
    pub is_suspending: bool,
    /// Is this member flagged for dual-mode projection?
    pub marked: bool,
    /// Does the member's mark ask for the recursion-safe adapter?
    pub recursion: bool,
    /// Has the body been wrapped in the recursion-safe suspension adapter?
    pub recursion_wrapped: bool,
    pub generics: Seq<SpecGenericParam>,
    pub where_bounds: Seq<SpecWherePred>,
    pub params: Seq<SpecFnParam>,
    pub ret: Option<SpecTypeRef>,
    /// The statements of the body; `None` for a trait method declaration
    /// without a default.
    pub body: Option<Seq<SpecExpr>>,
}

/// A trait declaration.
pub struct SpecTraitDef {
    pub name: NameView,
    pub generics: Seq<SpecGenericParam>,
    pub members: Seq<SpecMember>,
}

/// A struct declaration (only the parts the projectors read).
pub struct SpecStructDef {
    pub name: NameView,
    pub generics: Seq<SpecGenericParam>,
}

/// An enum declaration (only the parts the projectors read).
pub struct SpecEnumDef {
    pub name: NameView,
    pub generics: Seq<SpecGenericParam>,
}

/// An impl block, inherent (`trait_ref` absent) or of a trait.
pub struct SpecImplDef {
    pub target: SpecTypeRef,
    pub trait_ref: Option<PathView>,
    pub members: Seq<SpecMember>,
}

/// One top-level declaration: exactly one of the five accepted shapes.
pub enum SpecItem {
    Trait { t: SpecTraitDef },
    Struct { s: SpecStructDef },
    Enum { e: SpecEnumDef },
    Impl { i: SpecImplDef },
    Fn { f: SpecMember },
}

impl SpecItem {
    /// The top-level name a declaration emits, where it emits one: traits,
    /// structs and enums bind their name, a function binds its name, an impl
    /// block binds none.
    pub open spec fn top_name(self) -> Option<NameView> {
        match self {
            SpecItem::Trait { t } => Some(t.name),
            SpecItem::Struct { s } => Some(s.name),
            SpecItem::Enum { e } => Some(e.name),
            SpecItem::Impl { i } => None,
            SpecItem::Fn { f } => Some(f.name),
        }
    }
}

} // verus!
