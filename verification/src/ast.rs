//! The declaration trees that the projectors rewrite.
//!
//! A top-level declaration is one of five shapes (`Item`).  `Trait` and
//! `Impl` carry method-like members (`Member`); a `Fn` is itself
//! member-shaped.  Expression trees (`Expr`) keep only the structure the
//! rewrite rules read — suspension points, suspension blocks, calls and
//! blocks — and carry every other expression form through verbatim.
//!
//! Each type views into its counterpart in [`crate::model`]; all contracts
//! are stated over those views.

use vstd::prelude::*;

use crate::model::{
    PathView, SpecEnumDef, SpecExpr, SpecFnParam, SpecGenericParam, SpecImplDef, SpecItem,
    SpecMember, SpecStructDef, SpecTraitBound, SpecTraitDef, SpecTypeRef, SpecWherePred,
};

verus! {

/// A type reference: a head name applied to type arguments, `head<args...>`.
#[derive(Debug, PartialEq)]
pub struct TypeRef {
    pub head: String,
    pub args: Vec<TypeRef>,
}

/// One trait bound: the bound's (last) path segment name, and the associated
/// `Output` binding if the bound carries one (`Future<Output = T>`).
#[derive(Debug, PartialEq)]
pub struct TraitBound {
    pub name: String,
    pub output: Option<TypeRef>,
}

/// One generic parameter.
#[derive(Debug, PartialEq)]
pub enum GenericParam {
    /// A type parameter with its bound list.
    TypeParam { name: String, bounds: Vec<TraitBound> },
    /// Any other parameter form (a lifetime, a const parameter), carried
    /// through verbatim.
    Opaque { text: String },
}

/// One where-clause predicate.
#[derive(Debug, PartialEq)]
pub enum WherePred {
    /// `bounded: bounds...`, with the bounded type given by its head name.
    TypeBound { bounded: String, bounds: Vec<TraitBound> },
    /// Any other predicate form, carried through verbatim.
    Opaque { text: String },
}

/// One value parameter of a signature.
#[derive(Debug, PartialEq)]
pub struct FnParam {
    pub name: String,
    pub ty: TypeRef,
}

/// An expression tree, restricted to the structure the rewrite rules read.
#[derive(Debug, PartialEq)]
pub enum Expr {
    /// Any expression form the rewrites leave alone, carried through
    /// verbatim.
    Verbatim { text: String },
    /// A call `path(args...)`.
    Call { func: Vec<String>, args: Vec<Expr> },
    /// A method call `receiver.name(args...)`.
    MethodCall { receiver: Box<Expr>, name: String, args: Vec<Expr> },
    /// A suspension point `await(base)`.
    Await { base: Box<Expr> },
    /// A suspension block wrapping a list of statements.
    AsyncBlock { stmts: Vec<Expr> },
    /// A plain block.
    Block { stmts: Vec<Expr> },
    /// A `let` statement binding `name` to `init`.
    Let { name: String, init: Box<Expr> },
    /// The synthesized diverging body of a trait method that only exists in
    /// suspension form; calling it is a deferred fatal condition.
    Placeholder,
}

/// A method-like unit: a trait method, an impl method, or a free function.
#[derive(Debug, PartialEq)]
pub struct Member {
    pub name: String,
    /// Does the signature carry the suspension modifier?
    pub is_suspending: bool,
    /// Is this member flagged for dual-mode projection?
    pub marked: bool,
    /// Does the member's mark ask for the recursion-safe adapter?
    pub recursion: bool,
    /// Has the body been wrapped in the recursion-safe suspension adapter?
    pub recursion_wrapped: bool,
    pub generics: Vec<GenericParam>,
    pub where_bounds: Vec<WherePred>,
    pub params: Vec<FnParam>,
    pub ret: Option<TypeRef>,
    /// The statements of the body; `None` for a trait method declaration
    /// without a default.
    pub body: Option<Vec<Expr>>,
}

/// A trait declaration.
#[derive(Debug, PartialEq)]
pub struct TraitDef {
    pub name: String,
    pub generics: Vec<GenericParam>,
    pub members: Vec<Member>,
}

/// A struct declaration (only the parts the projectors read).
#[derive(Debug, PartialEq)]
pub struct StructDef {
    pub name: String,
    pub generics: Vec<GenericParam>,
}

/// An enum declaration (only the parts the projectors read).
#[derive(Debug, PartialEq)]
pub struct EnumDef {
    pub name: String,
    pub generics: Vec<GenericParam>,
}

/// An impl block, inherent (`trait_ref` absent) or of a trait.
#[derive(Debug, PartialEq)]
pub struct ImplDef {
    pub target: TypeRef,
    pub trait_ref: Option<Vec<String>>,
    pub members: Vec<Member>,
}

/// One top-level declaration: exactly one of the five accepted shapes.
#[derive(Debug, PartialEq)]
pub enum Item {
    Trait(TraitDef),
    Struct(StructDef),
    Enum(EnumDef),
    Impl(ImplDef),
    Fn(Member),
}

/// The view of a path, segment by segment.
pub open spec fn path_view(p: Seq<String>) -> PathView {
    Seq::new(p.len(), |i: int| p[i]@)
}

/// The view of a type reference.
pub open spec fn type_ref_view(t: TypeRef) -> SpecTypeRef
    decreases t,
{
    SpecTypeRef { head: t.head@, args: type_list_view(t.args@) }
}

/// The view of a list of type references, element by element.
pub open spec fn type_list_view(s: Seq<TypeRef>) -> Seq<SpecTypeRef>
    decreases s,
{
    if s.len() == 0 {
        Seq::empty()
    } else {
        seq![type_ref_view(s[0])] + type_list_view(s.drop_first())
    }
}

/// `type_list_view` is the pointwise view of its input.
pub broadcast proof fn lemma_type_list_view(s: Seq<TypeRef>)
    ensures
        (#[trigger] type_list_view(s)).len() == s.len(),
        forall|i: int| 0 <= i < s.len() ==> type_list_view(s)[i] == type_ref_view(s[i]),
    decreases s,
{
    if s.len() > 0 {
        lemma_type_list_view(s.drop_first());
    }
}

impl View for TypeRef {
    type V = SpecTypeRef;

    open spec fn view(&self) -> SpecTypeRef {
        type_ref_view(*self)
    }
}

/// The view of an optional type reference.
pub open spec fn opt_type_view(t: Option<TypeRef>) -> Option<SpecTypeRef> {
    match t {
        Some(ty) => Some(ty@),
        None => None,
    }
}

impl View for TraitBound {
    type V = SpecTraitBound;

    open spec fn view(&self) -> SpecTraitBound {
        SpecTraitBound { name: self.name@, output: opt_type_view(self.output) }
    }
}

/// The view of a bound list, element by element.
pub open spec fn bound_list_view(s: Seq<TraitBound>) -> Seq<SpecTraitBound> {
    Seq::new(s.len(), |i: int| s[i]@)
}

impl View for GenericParam {
    type V = SpecGenericParam;

    open spec fn view(&self) -> SpecGenericParam {
        match self {
            GenericParam::TypeParam { name, bounds } => SpecGenericParam::TypeParam {
                name: name@,
                bounds: bound_list_view(bounds@),
            },
            GenericParam::Opaque { text } => SpecGenericParam::Opaque { text: text@ },
        }
    }
}

impl View for WherePred {
    type V = SpecWherePred;

    open spec fn view(&self) -> SpecWherePred {
        match self {
            WherePred::TypeBound { bounded, bounds } => SpecWherePred::TypeBound {
                bounded: bounded@,
                bounds: bound_list_view(bounds@),
            },
            WherePred::Opaque { text } => SpecWherePred::Opaque { text: text@ },
        }
    }
}

impl View for FnParam {
    type V = SpecFnParam;

    open spec fn view(&self) -> SpecFnParam {
        SpecFnParam { name: self.name@, ty: self.ty@ }
    }
}

/// The view of an expression tree.
pub open spec fn expr_view(e: Expr) -> SpecExpr
    decreases e,
{
    match e {
        Expr::Verbatim { text } => SpecExpr::Verbatim { text: text@ },
        Expr::Call { func, args } => SpecExpr::Call {
            func: path_view(func@),
            args: expr_list_view(args@),
        },
        Expr::MethodCall { receiver, name, args } => SpecExpr::MethodCall {
            receiver: Box::new(expr_view(*receiver)),
            name: name@,
            args: expr_list_view(args@),
        },
        Expr::Await { base } => SpecExpr::Await { base: Box::new(expr_view(*base)) },
        Expr::AsyncBlock { stmts } => SpecExpr::AsyncBlock { stmts: expr_list_view(stmts@) },
        Expr::Block { stmts } => SpecExpr::Block { stmts: expr_list_view(stmts@) },
        Expr::Let { name, init } => SpecExpr::Let {
            name: name@,
            init: Box::new(expr_view(*init)),
        },
        Expr::Placeholder => SpecExpr::Placeholder,
    }
}

/// The view of a list of expressions, element by element.
pub open spec fn expr_list_view(s: Seq<Expr>) -> Seq<SpecExpr>
    decreases s,
{
    if s.len() == 0 {
        Seq::empty()
    } else {
        seq![expr_view(s[0])] + expr_list_view(s.drop_first())
    }
}

/// `expr_list_view` is the pointwise view of its input.
pub broadcast proof fn lemma_expr_list_view(s: Seq<Expr>)
    ensures
        (#[trigger] expr_list_view(s)).len() == s.len(),
        forall|i: int| 0 <= i < s.len() ==> expr_list_view(s)[i] == expr_view(s[i]),
    decreases s,
{
    if s.len() > 0 {
        lemma_expr_list_view(s.drop_first());
    }
}

impl View for Expr {
    type V = SpecExpr;

    open spec fn view(&self) -> SpecExpr {
        expr_view(*self)
    }
}

/// The view of a member's statement list, when it has a body.
pub open spec fn opt_body_view(b: Option<Vec<Expr>>) -> Option<Seq<SpecExpr>> {
    match b {
        Some(stmts) => Some(Seq::new(stmts@.len(), |i: int| stmts@[i]@)),
        None => None,
    }
}

/// The view of a generic parameter list, element by element.
pub open spec fn generic_list_view(s: Seq<GenericParam>) -> Seq<SpecGenericParam> {
    Seq::new(s.len(), |i: int| s[i]@)
}

/// The view of a where-clause, element by element.
pub open spec fn pred_list_view(s: Seq<WherePred>) -> Seq<SpecWherePred> {
    Seq::new(s.len(), |i: int| s[i]@)
}

/// The view of a parameter list, element by element.
pub open spec fn param_list_view(s: Seq<FnParam>) -> Seq<SpecFnParam> {
    Seq::new(s.len(), |i: int| s[i]@)
}

/// The view of a member list, element by element.
pub open spec fn member_list_view(s: Seq<Member>) -> Seq<SpecMember> {
    Seq::new(s.len(), |i: int| s[i]@)
}

impl View for Member {
    type V = SpecMember;

    open spec fn view(&self) -> SpecMember {
        SpecMember {
            name: self.name@,
            is_suspending: self.is_suspending,
            marked: self.marked,
            recursion: self.recursion,
            recursion_wrapped: self.recursion_wrapped,
            generics: generic_list_view(self.generics@),
            where_bounds: pred_list_view(self.where_bounds@),
            params: param_list_view(self.params@),
            ret: opt_type_view(self.ret),
            body: opt_body_view(self.body),
        }
    }
}

impl View for TraitDef {
    type V = SpecTraitDef;

    open spec fn view(&self) -> SpecTraitDef {
        SpecTraitDef {
            name: self.name@,
            generics: generic_list_view(self.generics@),
            members: member_list_view(self.members@),
        }
    }
}

impl View for StructDef {
    type V = SpecStructDef;

    open spec fn view(&self) -> SpecStructDef {
        SpecStructDef { name: self.name@, generics: generic_list_view(self.generics@) }
    }
}

impl View for EnumDef {
    type V = SpecEnumDef;

    open spec fn view(&self) -> SpecEnumDef {
        SpecEnumDef { name: self.name@, generics: generic_list_view(self.generics@) }
    }
}

impl View for ImplDef {
    type V = SpecImplDef;

    open spec fn view(&self) -> SpecImplDef {
        SpecImplDef {
            target: self.target@,
            trait_ref: match self.trait_ref {
                Some(p) => Some(path_view(p@)),
                None => None,
            },
            members: member_list_view(self.members@),
        }
    }
}

impl View for Item {
    type V = SpecItem;

    open spec fn view(&self) -> SpecItem {
        match self {
            Item::Trait(t) => SpecItem::Trait { t: t@ },
            Item::Struct(s) => SpecItem::Struct { s: s@ },
            Item::Enum(e) => SpecItem::Enum { e: e@ },
            Item::Impl(i) => SpecItem::Impl { i: i@ },
            Item::Fn(f) => SpecItem::Fn { f: f@ },
        }
    }
}

/// A structural copy of a path.
pub fn dup_path(p: &Vec<String>) -> (r: Vec<String>)
    ensures
        path_view(r@) == path_view(p@),
{
    let mut out: Vec<String> = Vec::new();
    let mut i: usize = 0;
    while i < p.len()
        invariant
            i <= p.len(),
            out@.len() == i,
            forall|j: int| 0 <= j < i ==> out@[j]@ == p@[j]@,
        decreases p.len() - i,
    {
        out.push(p[i].clone());
        i = i + 1;
    }
    assert(path_view(out@) =~= path_view(p@));
    out
}

impl TypeRef {
    /// A structural copy.
    pub fn dup(&self) -> (r: TypeRef)
        ensures
            r@ == self@,
        decreases *self,
    {
        let mut args: Vec<TypeRef> = Vec::new();
        let mut i: usize = 0;
        while i < self.args.len()
            invariant
                i <= self.args.len(),
                args@.len() == i,
                forall|j: int| 0 <= j < i ==> args@[j]@ == self.args@[j]@,
            decreases self.args.len() - i,
        {
            args.push(self.args[i].dup());
            i = i + 1;
        }
        proof {
            lemma_type_list_view(args@);
            lemma_type_list_view(self.args@);
            assert(type_list_view(args@) =~= type_list_view(self.args@));
        }
        TypeRef { head: self.head.clone(), args }
    }
}

/// A structural copy of an optional type reference.
pub fn dup_opt_type(t: &Option<TypeRef>) -> (r: Option<TypeRef>)
    ensures
        opt_type_view(r) == opt_type_view(*t),
{
    match t {
        Some(ty) => Some(ty.dup()),
        None => None,
    }
}

impl TraitBound {
    /// A structural copy.
    pub fn dup(&self) -> (r: TraitBound)
        ensures
            r@ == self@,
    {
        TraitBound { name: self.name.clone(), output: dup_opt_type(&self.output) }
    }
}

/// A structural copy of a bound list.
pub fn dup_bounds(v: &Vec<TraitBound>) -> (r: Vec<TraitBound>)
    ensures
        r@.len() == v@.len(),
        forall|j: int| 0 <= j < v@.len() ==> r@[j]@ == v@[j]@,
{
    let mut out: Vec<TraitBound> = Vec::new();
    let mut i: usize = 0;
    while i < v.len()
        invariant
            i <= v.len(),
            out@.len() == i,
            forall|j: int| 0 <= j < i ==> out@[j]@ == v@[j]@,
        decreases v.len() - i,
    {
        out.push(v[i].dup());
        i = i + 1;
    }
    out
}

impl GenericParam {
    /// A structural copy.
    pub fn dup(&self) -> (r: GenericParam)
        ensures
            r@ == self@,
    {
        match self {
            GenericParam::TypeParam { name, bounds } => {
                let r = GenericParam::TypeParam { name: name.clone(), bounds: dup_bounds(bounds) };
                proof {
                    assert(r@->TypeParam_bounds =~= self@->TypeParam_bounds);
                }
                r
            },
            GenericParam::Opaque { text } => GenericParam::Opaque { text: text.clone() },
        }
    }
}

impl WherePred {
    /// A structural copy.
    pub fn dup(&self) -> (r: WherePred)
        ensures
            r@ == self@,
    {
        match self {
            WherePred::TypeBound { bounded, bounds } => {
                let r = WherePred::TypeBound { bounded: bounded.clone(), bounds: dup_bounds(bounds) };
                proof {
                    assert(r@->TypeBound_bounds =~= self@->TypeBound_bounds);
                }
                r
            },
            WherePred::Opaque { text } => WherePred::Opaque { text: text.clone() },
        }
    }
}

impl FnParam {
    /// A structural copy.
    pub fn dup(&self) -> (r: FnParam)
        ensures
            r@ == self@,
    {
        FnParam { name: self.name.clone(), ty: self.ty.dup() }
    }
}

impl Expr {
    /// A structural copy.
    pub fn dup(&self) -> (r: Expr)
        ensures
            r@ == self@,
        decreases *self,
    {
        match self {
            Expr::Verbatim { text } => Expr::Verbatim { text: text.clone() },
            Expr::Call { func, args } => {
                let r = Expr::Call { func: dup_path(func), args: dup_exprs(args) };
                proof {
                    lemma_expr_list_view(r->Call_args@);
                    lemma_expr_list_view(self->Call_args@);
                    assert(expr_list_view(r->Call_args@) =~= expr_list_view(self->Call_args@));
                }
                r
            },
            Expr::MethodCall { receiver, name, args } => {
                let r = Expr::MethodCall {
                    receiver: Box::new(receiver.dup()),
                    name: name.clone(),
                    args: dup_exprs(args),
                };
                proof {
                    lemma_expr_list_view(r->MethodCall_args@);
                    lemma_expr_list_view(self->MethodCall_args@);
                    assert(expr_list_view(r->MethodCall_args@) =~= expr_list_view(
                        self->MethodCall_args@,
                    ));
                }
                r
            },
            Expr::Await { base } => Expr::Await { base: Box::new(base.dup()) },
            Expr::AsyncBlock { stmts } => {
                let r = Expr::AsyncBlock { stmts: dup_exprs(stmts) };
                proof {
                    lemma_expr_list_view(r->AsyncBlock_stmts@);
                    lemma_expr_list_view(self->AsyncBlock_stmts@);
                    assert(expr_list_view(r->AsyncBlock_stmts@) =~= expr_list_view(
                        self->AsyncBlock_stmts@,
                    ));
                }
                r
            },
            Expr::Block { stmts } => {
                let r = Expr::Block { stmts: dup_exprs(stmts) };
                proof {
                    lemma_expr_list_view(r->Block_stmts@);
                    lemma_expr_list_view(self->Block_stmts@);
                    assert(expr_list_view(r->Block_stmts@) =~= expr_list_view(
                        self->Block_stmts@,
                    ));
                }
                r
            },
            Expr::Let { name, init } => Expr::Let {
                name: name.clone(),
                init: Box::new(init.dup()),
            },
            Expr::Placeholder => Expr::Placeholder,
        }
    }
}

/// A structural copy of a statement or argument list.
pub fn dup_exprs(v: &Vec<Expr>) -> (r: Vec<Expr>)
    ensures
        r@.len() == v@.len(),
        forall|j: int| 0 <= j < v@.len() ==> r@[j]@ == v@[j]@,
    decreases v@,
{
    let mut out: Vec<Expr> = Vec::new();
    let mut i: usize = 0;
    while i < v.len()
        invariant
            i <= v.len(),
            out@.len() == i,
            forall|j: int| 0 <= j < i ==> out@[j]@ == v@[j]@,
        decreases v.len() - i,
    {
        out.push(v[i].dup());
        i = i + 1;
    }
    out
}

/// A structural copy of a generic parameter list.
pub fn dup_generics(v: &Vec<GenericParam>) -> (r: Vec<GenericParam>)
    ensures
        r@.len() == v@.len(),
        forall|j: int| 0 <= j < v@.len() ==> r@[j]@ == v@[j]@,
{
    let mut out: Vec<GenericParam> = Vec::new();
    let mut i: usize = 0;
    while i < v.len()
        invariant
            i <= v.len(),
            out@.len() == i,
            forall|j: int| 0 <= j < i ==> out@[j]@ == v@[j]@,
        decreases v.len() - i,
    {
        out.push(v[i].dup());
        i = i + 1;
    }
    out
}

/// A structural copy of a where-clause.
pub fn dup_preds(v: &Vec<WherePred>) -> (r: Vec<WherePred>)
    ensures
        r@.len() == v@.len(),
        forall|j: int| 0 <= j < v@.len() ==> r@[j]@ == v@[j]@,
{
    let mut out: Vec<WherePred> = Vec::new();
    let mut i: usize = 0;
    while i < v.len()
        invariant
            i <= v.len(),
            out@.len() == i,
            forall|j: int| 0 <= j < i ==> out@[j]@ == v@[j]@,
        decreases v.len() - i,
    {
        out.push(v[i].dup());
        i = i + 1;
    }
    out
}

/// A structural copy of a parameter list.
pub fn dup_params(v: &Vec<FnParam>) -> (r: Vec<FnParam>)
    ensures
        r@.len() == v@.len(),
        forall|j: int| 0 <= j < v@.len() ==> r@[j]@ == v@[j]@,
{
    let mut out: Vec<FnParam> = Vec::new();
    let mut i: usize = 0;
    while i < v.len()
        invariant
            i <= v.len(),
            out@.len() == i,
            forall|j: int| 0 <= j < i ==> out@[j]@ == v@[j]@,
        decreases v.len() - i,
    {
        out.push(v[i].dup());
        i = i + 1;
    }
    out
}

impl Member {
    /// A structural copy.
    pub fn dup(&self) -> (r: Member)
        ensures
            r@ == self@,
    {
        let body = match &self.body {
            Some(stmts) => Some(dup_exprs(stmts)),
            None => None,
        };
        let r = Member {
            name: self.name.clone(),
            is_suspending: self.is_suspending,
            marked: self.marked,
            recursion: self.recursion,
            recursion_wrapped: self.recursion_wrapped,
            generics: dup_generics(&self.generics),
            where_bounds: dup_preds(&self.where_bounds),
            params: dup_params(&self.params),
            ret: dup_opt_type(&self.ret),
            body,
        };
        proof {
            assert(r@.generics =~= self@.generics);
            assert(r@.where_bounds =~= self@.where_bounds);
            assert(r@.params =~= self@.params);
            if self.body is Some {
                assert(r@.body->0 =~= self@.body->0);
            }
        }
        r
    }
}

/// A structural copy of a member list.
pub fn dup_members(v: &Vec<Member>) -> (r: Vec<Member>)
    ensures
        r@.len() == v@.len(),
        forall|j: int| 0 <= j < v@.len() ==> r@[j]@ == v@[j]@,
{
    let mut out: Vec<Member> = Vec::new();
    let mut i: usize = 0;
    while i < v.len()
        invariant
            i <= v.len(),
            out@.len() == i,
            forall|j: int| 0 <= j < i ==> out@[j]@ == v@[j]@,
        decreases v.len() - i,
    {
        out.push(v[i].dup());
        i = i + 1;
    }
    out
}

impl TraitDef {
    /// A structural copy.
    pub fn dup(&self) -> (r: TraitDef)
        ensures
            r@ == self@,
    {
        let r = TraitDef {
            name: self.name.clone(),
            generics: dup_generics(&self.generics),
            members: dup_members(&self.members),
        };
        proof {
            assert(r@.generics =~= self@.generics);
            assert(r@.members =~= self@.members);
        }
        r
    }
}

impl StructDef {
    /// A structural copy.
    pub fn dup(&self) -> (r: StructDef)
        ensures
            r@ == self@,
    {
        let r = StructDef { name: self.name.clone(), generics: dup_generics(&self.generics) };
        proof {
            assert(r@.generics =~= self@.generics);
        }
        r
    }
}

impl EnumDef {
    /// A structural copy.
    pub fn dup(&self) -> (r: EnumDef)
        ensures
            r@ == self@,
    {
        let r = EnumDef { name: self.name.clone(), generics: dup_generics(&self.generics) };
        proof {
            assert(r@.generics =~= self@.generics);
        }
        r
    }
}

impl ImplDef {
    /// A structural copy.
    pub fn dup(&self) -> (r: ImplDef)
        ensures
            r@ == self@,
    {
        let trait_ref = match &self.trait_ref {
            Some(p) => Some(dup_path(p)),
            None => None,
        };
        let r = ImplDef { target: self.target.dup(), trait_ref, members: dup_members(&self.members) };
        proof {
            assert(r@.members =~= self@.members);
        }
        r
    }
}

impl Item {
    /// A structural copy.
    pub fn dup(&self) -> (r: Item)
        ensures
            r@ == self@,
    {
        match self {
            Item::Trait(t) => Item::Trait(t.dup()),
            Item::Struct(s) => Item::Struct(s.dup()),
            Item::Enum(e) => Item::Enum(e.dup()),
            Item::Impl(i) => Item::Impl(i.dup()),
            Item::Fn(f) => Item::Fn(f.dup()),
        }
    }
}

} // verus!
