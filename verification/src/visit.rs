//! The recursive tree rewrites behind the two projectors.
//!
//! [`AsyncAwaitRemoval`] projects suspension-form bodies to blocking form:
//! it unwraps suspension points and suspension blocks, strips the
//! deterministic suffix from call-site identifiers, and erases generic
//! parameters that are only meaningful as "a future yielding T"
//! ([`ReplaceGenericType`] performs the per-parameter substitution).
//!
//! [`AsyncIdentAdder`] projects blocking bodies to suspension form: inside
//! an already-suspension-decorated call context — and only there — it
//! repoints the callee identifier at its suspension-capable sibling.

use vstd::prelude::*;

use crate::ast::{
    bound_list_view, dup_generics, dup_opt_type, dup_params, dup_path, dup_preds, expr_list_view,
    generic_list_view, lemma_expr_list_view, lemma_type_list_view, param_list_view, path_view,
    pred_list_view, type_list_view, Expr, FnParam, GenericParam, Member, TraitBound, TypeRef,
    WherePred,
};
use crate::model::{
    NameView, SpecExpr, SpecFnParam, SpecGenericParam, SpecMember, SpecTraitBound, SpecTypeRef,
    SpecWherePred,
};
use crate::suffix::{
    async_suffix, async_suffix_str, ident_add_suffix, ident_try_remove_suffix, spec_add_suffix,
    spec_has_suffix, spec_strip_name,
};

verus! {

// ------------------------------------------------------------------
// Suspension removal (the async -> sync direction), over the model.
// ------------------------------------------------------------------
/// A path with the deterministic suffix stripped from its last segment.
pub open spec fn spec_strip_path_last(p: Seq<NameView>) -> Seq<NameView> {
    if p.len() > 0 {
        p.update(p.len() - 1, spec_strip_name(p.last()))
    } else {
        p
    }
}

/// One statement or expression projected to blocking form, children first:
/// `await(E)` becomes `E`; a suspension block becomes its inner block, or
/// the bare statement when the block holds exactly one; call-site
/// identifiers lose the deterministic suffix.
pub open spec fn spec_strip_expr(e: SpecExpr) -> SpecExpr
    decreases e,
{
    match e {
        SpecExpr::Verbatim { text } => SpecExpr::Verbatim { text },
        SpecExpr::Call { func, args } => SpecExpr::Call {
            func: spec_strip_path_last(func),
            args: spec_strip_stmts(args),
        },
        SpecExpr::MethodCall { receiver, name, args } => SpecExpr::MethodCall {
            receiver: Box::new(spec_strip_expr(*receiver)),
            name: spec_strip_name(name),
            args: spec_strip_stmts(args),
        },
        SpecExpr::Await { base } => spec_strip_expr(*base),
        SpecExpr::AsyncBlock { stmts } => {
            let inner = spec_strip_stmts(stmts);
            if inner.len() == 1 {
                inner[0]
            } else {
                SpecExpr::Block { stmts: inner }
            }
        },
        SpecExpr::Block { stmts } => SpecExpr::Block { stmts: spec_strip_stmts(stmts) },
        SpecExpr::Let { name, init } => SpecExpr::Let {
            name,
            init: Box::new(spec_strip_expr(*init)),
        },
        SpecExpr::Placeholder => SpecExpr::Placeholder,
    }
}

/// A statement list projected to blocking form, element by element.
pub open spec fn spec_strip_stmts(s: Seq<SpecExpr>) -> Seq<SpecExpr>
    decreases s,
{
    if s.len() == 0 {
        Seq::empty()
    } else {
        spec_strip_stmts(s.drop_last()).push(spec_strip_expr(s.last()))
    }
}

/// `spec_strip_stmts` is the pointwise projection of its input.
pub broadcast proof fn lemma_strip_stmts(s: Seq<SpecExpr>)
    ensures
        (#[trigger] spec_strip_stmts(s)).len() == s.len(),
        forall|i: int| 0 <= i < s.len() ==> spec_strip_stmts(s)[i] == spec_strip_expr(s[i]),
    decreases s,
{
    if s.len() > 0 {
        lemma_strip_stmts(s.drop_last());
    }
}

// ------------------------------------------------------------------
// Suspension repointing (the sync -> async direction), over the model.
// ------------------------------------------------------------------
/// The callee name of a suspended call, repointed at its suspension-capable
/// sibling: the deterministic suffix is added unless already present.
pub open spec fn spec_ensure_suffix(n: NameView) -> NameView {
    if spec_has_suffix(n, async_suffix()) {
        n
    } else {
        spec_add_suffix(n, async_suffix())
    }
}

/// A path whose last segment is repointed at its suspension-capable sibling.
pub open spec fn spec_ensure_path_suffix(p: Seq<NameView>) -> Seq<NameView> {
    if p.len() > 0 {
        p.update(p.len() - 1, spec_ensure_suffix(p.last()))
    } else {
        p
    }
}

/// One statement or expression projected to suspension form, children
/// first: strictly inside an `await(..)` context, a called identifier that
/// does not yet carry the deterministic suffix receives it; bare calls are
/// left untouched.
pub open spec fn spec_inject_expr(e: SpecExpr) -> SpecExpr
    decreases e,
{
    match e {
        SpecExpr::Verbatim { text } => SpecExpr::Verbatim { text },
        SpecExpr::Call { func, args } => SpecExpr::Call {
            func,
            args: spec_inject_stmts(args),
        },
        SpecExpr::MethodCall { receiver, name, args } => SpecExpr::MethodCall {
            receiver: Box::new(spec_inject_expr(*receiver)),
            name,
            args: spec_inject_stmts(args),
        },
        SpecExpr::Await { base } => {
            let b = spec_inject_expr(*base);
            match b {
                SpecExpr::MethodCall { receiver, name, args } => SpecExpr::Await {
                    base: Box::new(
                        SpecExpr::MethodCall { receiver, name: spec_ensure_suffix(name), args },
                    ),
                },
                SpecExpr::Call { func, args } => SpecExpr::Await {
                    base: Box::new(SpecExpr::Call { func: spec_ensure_path_suffix(func), args }),
                },
                _ => SpecExpr::Await { base: Box::new(b) },
            }
        },
        SpecExpr::AsyncBlock { stmts } => SpecExpr::AsyncBlock {
            stmts: spec_inject_stmts(stmts),
        },
        SpecExpr::Block { stmts } => SpecExpr::Block { stmts: spec_inject_stmts(stmts) },
        SpecExpr::Let { name, init } => SpecExpr::Let {
            name,
            init: Box::new(spec_inject_expr(*init)),
        },
        SpecExpr::Placeholder => SpecExpr::Placeholder,
    }
}

/// A statement list projected to suspension form, element by element.
pub open spec fn spec_inject_stmts(s: Seq<SpecExpr>) -> Seq<SpecExpr>
    decreases s,
{
    if s.len() == 0 {
        Seq::empty()
    } else {
        spec_inject_stmts(s.drop_last()).push(spec_inject_expr(s.last()))
    }
}

/// `spec_inject_stmts` is the pointwise projection of its input.
pub broadcast proof fn lemma_inject_stmts(s: Seq<SpecExpr>)
    ensures
        (#[trigger] spec_inject_stmts(s)).len() == s.len(),
        forall|i: int| 0 <= i < s.len() ==> spec_inject_stmts(s)[i] == spec_inject_expr(s[i]),
    decreases s,
{
    if s.len() > 0 {
        lemma_inject_stmts(s.drop_last());
    }
}

// ------------------------------------------------------------------
// Generic-bound erasure, over the model.
// ------------------------------------------------------------------
/// The name of the eventual-value capability bound.
pub open spec fn future_bound_name() -> NameView {
    "Future"@
}

/// The `(parameter, resolved output type)` pair contributed by one bound of
/// the parameter `name`: an eventual-value bound carrying an `Output`
/// binding contributes the pair, any other bound contributes nothing.
pub open spec fn spec_future_pair(name: NameView, b: SpecTraitBound) -> Option<
    (NameView, SpecTypeRef),
> {
    if b.name == future_bound_name() && b.output is Some {
        Some((name, b.output->0))
    } else {
        None
    }
}

/// The pairs contributed by the bound list of the parameter `name`.
pub open spec fn spec_pairs_of_bounds(name: NameView, bs: Seq<SpecTraitBound>) -> Seq<
    (NameView, SpecTypeRef),
>
    decreases bs,
{
    if bs.len() == 0 {
        Seq::empty()
    } else {
        spec_pairs_of_bounds(name, bs.drop_last()) + match spec_future_pair(name, bs.last()) {
            Some(p) => seq![p],
            None => Seq::empty(),
        }
    }
}

/// The pairs contributed by a generic parameter list.
pub open spec fn spec_pairs_of_generics(gs: Seq<SpecGenericParam>) -> Seq<
    (NameView, SpecTypeRef),
>
    decreases gs,
{
    if gs.len() == 0 {
        Seq::empty()
    } else {
        spec_pairs_of_generics(gs.drop_last()) + match gs.last() {
            SpecGenericParam::TypeParam { name, bounds } => spec_pairs_of_bounds(name, bounds),
            SpecGenericParam::Opaque { .. } => Seq::empty(),
        }
    }
}

/// The pairs contributed by a where-clause.
pub open spec fn spec_pairs_of_preds(ps: Seq<SpecWherePred>) -> Seq<(NameView, SpecTypeRef)>
    decreases ps,
{
    if ps.len() == 0 {
        Seq::empty()
    } else {
        spec_pairs_of_preds(ps.drop_last()) + match ps.last() {
            SpecWherePred::TypeBound { bounded, bounds } => spec_pairs_of_bounds(bounded, bounds),
            SpecWherePred::Opaque { .. } => Seq::empty(),
        }
    }
}

/// Phase one of erasure: every `(parameter, resolved output type)` pair of a
/// member's signature, generic parameters first, where-clause second, in
/// declaration order.
pub open spec fn spec_collect_pairs(m: SpecMember) -> Seq<(NameView, SpecTypeRef)> {
    spec_pairs_of_generics(m.generics) + spec_pairs_of_preds(m.where_bounds)
}

/// A type with every occurrence of the parameter `name` replaced by `repl`.
/// A matching head is replaced whole, together with its arguments, and the
/// replacement itself is not revisited.
pub open spec fn spec_subst_type(t: SpecTypeRef, name: NameView, repl: SpecTypeRef) -> SpecTypeRef
    decreases t,
{
    if t.head == name {
        repl
    } else {
        SpecTypeRef { head: t.head, args: spec_subst_type_list(t.args, name, repl) }
    }
}

/// A type list with the parameter `name` replaced by `repl`, element by
/// element.
pub open spec fn spec_subst_type_list(
    ts: Seq<SpecTypeRef>,
    name: NameView,
    repl: SpecTypeRef,
) -> Seq<SpecTypeRef>
    decreases ts,
{
    if ts.len() == 0 {
        Seq::empty()
    } else {
        spec_subst_type_list(ts.drop_last(), name, repl).push(
            spec_subst_type(ts.last(), name, repl),
        )
    }
}

/// `spec_subst_type_list` is the pointwise substitution of its input.
pub broadcast proof fn lemma_subst_type_list(ts: Seq<SpecTypeRef>, name: NameView, repl: SpecTypeRef)
    ensures
        (#[trigger] spec_subst_type_list(ts, name, repl)).len() == ts.len(),
        forall|i: int|
            0 <= i < ts.len() ==> spec_subst_type_list(ts, name, repl)[i] == spec_subst_type(
                ts[i],
                name,
                repl,
            ),
    decreases ts,
{
    if ts.len() > 0 {
        lemma_subst_type_list(ts.drop_last(), name, repl);
    }
}

/// An optional type with the parameter `name` replaced by `repl`.
pub open spec fn spec_subst_opt_type(
    t: Option<SpecTypeRef>,
    name: NameView,
    repl: SpecTypeRef,
) -> Option<SpecTypeRef> {
    match t {
        Some(ty) => Some(spec_subst_type(ty, name, repl)),
        None => None,
    }
}

/// A path with every segment equal to the parameter `name` replaced by the
/// head name of `repl`.
pub open spec fn spec_subst_path(p: Seq<NameView>, name: NameView, repl: SpecTypeRef) -> Seq<
    NameView,
> {
    Seq::new(p.len(), |i: int| if p[i] == name { repl.head } else { p[i] })
}

/// An expression with every type-reference occurrence of the parameter
/// `name` replaced by `repl`: call paths are rewritten segment by segment;
/// verbatim text is opaque to the substitution.
pub open spec fn spec_subst_expr(e: SpecExpr, name: NameView, repl: SpecTypeRef) -> SpecExpr
    decreases e,
{
    match e {
        SpecExpr::Verbatim { text } => SpecExpr::Verbatim { text },
        SpecExpr::Call { func, args } => SpecExpr::Call {
            func: spec_subst_path(func, name, repl),
            args: spec_subst_stmts(args, name, repl),
        },
        SpecExpr::MethodCall { receiver, name: m, args } => SpecExpr::MethodCall {
            receiver: Box::new(spec_subst_expr(*receiver, name, repl)),
            name: m,
            args: spec_subst_stmts(args, name, repl),
        },
        SpecExpr::Await { base } => SpecExpr::Await {
            base: Box::new(spec_subst_expr(*base, name, repl)),
        },
        SpecExpr::AsyncBlock { stmts } => SpecExpr::AsyncBlock {
            stmts: spec_subst_stmts(stmts, name, repl),
        },
        SpecExpr::Block { stmts } => SpecExpr::Block {
            stmts: spec_subst_stmts(stmts, name, repl),
        },
        SpecExpr::Let { name: n, init } => SpecExpr::Let {
            name: n,
            init: Box::new(spec_subst_expr(*init, name, repl)),
        },
        SpecExpr::Placeholder => SpecExpr::Placeholder,
    }
}

/// A statement list with the parameter `name` replaced by `repl`, element
/// by element.
pub open spec fn spec_subst_stmts(s: Seq<SpecExpr>, name: NameView, repl: SpecTypeRef) -> Seq<
    SpecExpr,
>
    decreases s,
{
    if s.len() == 0 {
        Seq::empty()
    } else {
        spec_subst_stmts(s.drop_last(), name, repl).push(spec_subst_expr(s.last(), name, repl))
    }
}

/// `spec_subst_stmts` is the pointwise substitution of its input.
pub broadcast proof fn lemma_subst_stmts(s: Seq<SpecExpr>, name: NameView, repl: SpecTypeRef)
    ensures
        (#[trigger] spec_subst_stmts(s, name, repl)).len() == s.len(),
        forall|i: int|
            0 <= i < s.len() ==> spec_subst_stmts(s, name, repl)[i] == spec_subst_expr(
                s[i],
                name,
                repl,
            ),
    decreases s,
{
    if s.len() > 0 {
        lemma_subst_stmts(s.drop_last(), name, repl);
    }
}

/// A generic parameter list with the type parameter `name` removed.
pub open spec fn spec_remove_generic(gs: Seq<SpecGenericParam>, name: NameView) -> Seq<
    SpecGenericParam,
>
    decreases gs,
{
    if gs.len() == 0 {
        Seq::empty()
    } else {
        let rest = spec_remove_generic(gs.drop_last(), name);
        if gs.last() matches SpecGenericParam::TypeParam { name: n, .. } && n == name {
            rest
        } else {
            rest.push(gs.last())
        }
    }
}

/// A where-clause with every predicate that bounds `name` removed.
pub open spec fn spec_remove_preds(ps: Seq<SpecWherePred>, name: NameView) -> Seq<SpecWherePred>
    decreases ps,
{
    if ps.len() == 0 {
        Seq::empty()
    } else {
        let rest = spec_remove_preds(ps.drop_last(), name);
        if ps.last() matches SpecWherePred::TypeBound { bounded, .. } && bounded == name {
            rest
        } else {
            rest.push(ps.last())
        }
    }
}

/// A parameter list with the type parameter `name` replaced by `repl` in
/// every parameter's type.
pub open spec fn spec_subst_params(
    ps: Seq<SpecFnParam>,
    name: NameView,
    repl: SpecTypeRef,
) -> Seq<SpecFnParam>
    decreases ps,
{
    if ps.len() == 0 {
        Seq::empty()
    } else {
        spec_subst_params(ps.drop_last(), name, repl).push(
            SpecFnParam {
                name: ps.last().name,
                ty: spec_subst_type(ps.last().ty, name, repl),
            },
        )
    }
}

/// Phase two of erasure, for one collected pair: the parameter `name` is
/// removed from the generic parameter list, every where-predicate naming it
/// is removed, and every occurrence in the signature and body is replaced
/// by `repl`.
pub open spec fn spec_erase_pair(m: SpecMember, name: NameView, repl: SpecTypeRef) -> SpecMember {
    SpecMember {
        generics: spec_remove_generic(m.generics, name),
        where_bounds: spec_remove_preds(m.where_bounds, name),
        params: spec_subst_params(m.params, name, repl),
        ret: spec_subst_opt_type(m.ret, name, repl),
        body: match m.body {
            Some(ss) => Some(spec_subst_stmts(ss, name, repl)),
            None => None,
        },
        ..m
    }
}

/// Erasure pairs applied in collection order, first pair innermost.
pub open spec fn spec_apply_pairs(m: SpecMember, pairs: Seq<(NameView, SpecTypeRef)>) -> SpecMember
    decreases pairs,
{
    if pairs.len() == 0 {
        m
    } else {
        spec_erase_pair(
            spec_apply_pairs(m, pairs.drop_last()),
            pairs.last().0,
            pairs.last().1,
        )
    }
}

/// Generic-bound erasure, whole: both phases, over the pairs the member's
/// own signature declares.
pub open spec fn spec_erase_futures(m: SpecMember) -> SpecMember {
    spec_apply_pairs(m, spec_collect_pairs(m))
}

/// A member's body projected to blocking form, statement by statement.
pub open spec fn spec_strip_body(m: SpecMember) -> SpecMember {
    SpecMember {
        body: match m.body {
            Some(ss) => Some(spec_strip_stmts(ss)),
            None => None,
        },
        ..m
    }
}

/// The whole suspension-removal pass over one member: generic-bound
/// erasure first, then the body rewrite.  The suspension modifier of the
/// signature itself is the projector's to remove.
pub open spec fn spec_remove_async_await(m: SpecMember) -> SpecMember {
    spec_strip_body(spec_erase_futures(m))
}

/// The whole suspension-repointing pass over one member: the body rewrite
/// alone.  The suspension modifier of the signature itself is the
/// projector's to add.
pub open spec fn spec_add_async_ident(m: SpecMember) -> SpecMember {
    SpecMember {
        body: match m.body {
            Some(ss) => Some(spec_inject_stmts(ss)),
            None => None,
        },
        ..m
    }
}

// ------------------------------------------------------------------
// What references an erased type parameter.
// ------------------------------------------------------------------
/// Does the type reference the parameter `name` — as its head, or in any
/// argument at any depth?
pub open spec fn spec_type_mentions(t: SpecTypeRef, name: NameView) -> bool
    decreases t,
{
    t.head == name || spec_type_list_mentions(t.args, name)
}

/// Does any type of the list reference the parameter `name`?
pub open spec fn spec_type_list_mentions(ts: Seq<SpecTypeRef>, name: NameView) -> bool
    decreases ts,
{
    if ts.len() == 0 {
        false
    } else {
        spec_type_list_mentions(ts.drop_last(), name) || spec_type_mentions(ts.last(), name)
    }
}

/// Does any segment of the path name the parameter?
pub open spec fn spec_path_mentions(p: Seq<NameView>, name: NameView) -> bool {
    exists|i: int| 0 <= i < p.len() && p[i] == name
}

/// Does the expression reference the parameter `name` in any call path?
/// Verbatim text is opaque to the substitution and outside this relation,
/// and a method name is a value name, not a type reference.
pub open spec fn spec_expr_mentions(e: SpecExpr, name: NameView) -> bool
    decreases e,
{
    match e {
        SpecExpr::Verbatim { .. } => false,
        SpecExpr::Call { func, args } => spec_path_mentions(func, name) || spec_stmts_mention(
            args,
            name,
        ),
        SpecExpr::MethodCall { receiver, name: m, args } => spec_expr_mentions(*receiver, name)
            || spec_stmts_mention(args, name),
        SpecExpr::Await { base } => spec_expr_mentions(*base, name),
        SpecExpr::AsyncBlock { stmts } => spec_stmts_mention(stmts, name),
        SpecExpr::Block { stmts } => spec_stmts_mention(stmts, name),
        SpecExpr::Let { name: n, init } => spec_expr_mentions(*init, name),
        SpecExpr::Placeholder => false,
    }
}

/// Does any statement of the list reference the parameter `name`?
pub open spec fn spec_stmts_mention(s: Seq<SpecExpr>, name: NameView) -> bool
    decreases s,
{
    if s.len() == 0 {
        false
    } else {
        spec_stmts_mention(s.drop_last(), name) || spec_expr_mentions(s.last(), name)
    }
}

/// Does the generic parameter list declare a type parameter of this name?
pub open spec fn spec_generics_mention(gs: Seq<SpecGenericParam>, name: NameView) -> bool
    decreases gs,
{
    if gs.len() == 0 {
        false
    } else {
        spec_generics_mention(gs.drop_last(), name) || (gs.last()
            matches SpecGenericParam::TypeParam { name: n, .. } && n == name)
    }
}

/// Does the where-clause bound a type of this name?
pub open spec fn spec_preds_mention(ps: Seq<SpecWherePred>, name: NameView) -> bool
    decreases ps,
{
    if ps.len() == 0 {
        false
    } else {
        spec_preds_mention(ps.drop_last(), name) || (ps.last() matches SpecWherePred::TypeBound {
            bounded,
            ..
        } && bounded == name)
    }
}

/// Does any parameter's type reference the parameter `name`?
pub open spec fn spec_params_mention(ps: Seq<SpecFnParam>, name: NameView) -> bool
    decreases ps,
{
    if ps.len() == 0 {
        false
    } else {
        spec_params_mention(ps.drop_last(), name) || spec_type_mentions(ps.last().ty, name)
    }
}

/// Does any node of the member reference the type parameter `name`: its
/// declaration in the generic parameter list, a where-predicate bounding
/// it, or an occurrence in a parameter type, the return type, or a body
/// call path?
pub open spec fn spec_member_mentions(m: SpecMember, name: NameView) -> bool {
    ||| spec_generics_mention(m.generics, name)
    ||| spec_preds_mention(m.where_bounds, name)
    ||| spec_params_mention(m.params, name)
    ||| (m.ret matches Some(ty) && spec_type_mentions(ty, name))
    ||| (m.body matches Some(ss) && spec_stmts_mention(ss, name))
}

/// Substitution eliminates the substituted parameter and introduces no
/// reference that its replacement does not carry.
proof fn lemma_subst_type_mentions(t: SpecTypeRef, n: NameView, repl: SpecTypeRef, x: NameView)
    requires
        !spec_type_mentions(repl, x),
        x == n || !spec_type_mentions(t, x),
    ensures
        !spec_type_mentions(spec_subst_type(t, n, repl), x),
    decreases t,
{
    if t.head != n {
        lemma_subst_type_list_mentions(t.args, n, repl, x);
    }
}

/// As `lemma_subst_type_mentions`, over a type list.
proof fn lemma_subst_type_list_mentions(
    ts: Seq<SpecTypeRef>,
    n: NameView,
    repl: SpecTypeRef,
    x: NameView,
)
    requires
        !spec_type_mentions(repl, x),
        x == n || !spec_type_list_mentions(ts, x),
    ensures
        !spec_type_list_mentions(spec_subst_type_list(ts, n, repl), x),
    decreases ts,
{
    if ts.len() > 0 {
        lemma_subst_type_list_mentions(ts.drop_last(), n, repl, x);
        lemma_subst_type_mentions(ts.last(), n, repl, x);
        let sub = spec_subst_type_list(ts.drop_last(), n, repl);
        let y = spec_subst_type(ts.last(), n, repl);
        assert(sub.push(y).drop_last() =~= sub);
        assert(sub.push(y).last() == y);
    }
}

/// As `lemma_subst_type_mentions`, over a call path.
proof fn lemma_subst_path_mentions(p: Seq<NameView>, n: NameView, repl: SpecTypeRef, x: NameView)
    requires
        !spec_type_mentions(repl, x),
        x == n || !spec_path_mentions(p, x),
    ensures
        !spec_path_mentions(spec_subst_path(p, n, repl), x),
{
    assert forall|i: int| 0 <= i < p.len() implies spec_subst_path(p, n, repl)[i] != x by {
        if p[i] == n {
        } else {
            assert(spec_path_mentions(p, x) || x == n || p[i] != x);
        }
    }
}

/// As `lemma_subst_type_mentions`, over an expression.
proof fn lemma_subst_expr_mentions(e: SpecExpr, n: NameView, repl: SpecTypeRef, x: NameView)
    requires
        !spec_type_mentions(repl, x),
        x == n || !spec_expr_mentions(e, x),
    ensures
        !spec_expr_mentions(spec_subst_expr(e, n, repl), x),
    decreases e,
{
    match e {
        SpecExpr::Call { func, args } => {
            lemma_subst_path_mentions(func, n, repl, x);
            lemma_subst_stmts_mentions(args, n, repl, x);
        },
        SpecExpr::MethodCall { receiver, name, args } => {
            lemma_subst_expr_mentions(*receiver, n, repl, x);
            lemma_subst_stmts_mentions(args, n, repl, x);
        },
        SpecExpr::Await { base } => {
            lemma_subst_expr_mentions(*base, n, repl, x);
        },
        SpecExpr::AsyncBlock { stmts } => {
            lemma_subst_stmts_mentions(stmts, n, repl, x);
        },
        SpecExpr::Block { stmts } => {
            lemma_subst_stmts_mentions(stmts, n, repl, x);
        },
        SpecExpr::Let { name, init } => {
            lemma_subst_expr_mentions(*init, n, repl, x);
        },
        _ => {},
    }
}

/// As `lemma_subst_type_mentions`, over a statement list.
proof fn lemma_subst_stmts_mentions(s: Seq<SpecExpr>, n: NameView, repl: SpecTypeRef, x: NameView)
    requires
        !spec_type_mentions(repl, x),
        x == n || !spec_stmts_mention(s, x),
    ensures
        !spec_stmts_mention(spec_subst_stmts(s, n, repl), x),
    decreases s,
{
    if s.len() > 0 {
        lemma_subst_stmts_mentions(s.drop_last(), n, repl, x);
        lemma_subst_expr_mentions(s.last(), n, repl, x);
        let sub = spec_subst_stmts(s.drop_last(), n, repl);
        let y = spec_subst_expr(s.last(), n, repl);
        assert(sub.push(y).drop_last() =~= sub);
        assert(sub.push(y).last() == y);
    }
}

/// Removing a type parameter removes every declaration of it, and declares
/// nothing new.
proof fn lemma_remove_generic_mentions(gs: Seq<SpecGenericParam>, n: NameView, x: NameView)
    requires
        x == n || !spec_generics_mention(gs, x),
    ensures
        !spec_generics_mention(spec_remove_generic(gs, n), x),
    decreases gs,
{
    if gs.len() > 0 {
        lemma_remove_generic_mentions(gs.drop_last(), n, x);
        let rest = spec_remove_generic(gs.drop_last(), n);
        if !(gs.last() matches SpecGenericParam::TypeParam { name: n2, .. } && n2 == n) {
            assert(rest.push(gs.last()).drop_last() =~= rest);
            assert(rest.push(gs.last()).last() == gs.last());
        }
    }
}

/// Removing the predicates that bound a name removes every such predicate,
/// and adds none.
proof fn lemma_remove_preds_mentions(ps: Seq<SpecWherePred>, n: NameView, x: NameView)
    requires
        x == n || !spec_preds_mention(ps, x),
    ensures
        !spec_preds_mention(spec_remove_preds(ps, n), x),
    decreases ps,
{
    if ps.len() > 0 {
        lemma_remove_preds_mentions(ps.drop_last(), n, x);
        let rest = spec_remove_preds(ps.drop_last(), n);
        if !(ps.last() matches SpecWherePred::TypeBound { bounded, .. } && bounded == n) {
            assert(rest.push(ps.last()).drop_last() =~= rest);
            assert(rest.push(ps.last()).last() == ps.last());
        }
    }
}

/// As `lemma_subst_type_mentions`, over a parameter list.
proof fn lemma_subst_params_mentions(
    ps: Seq<SpecFnParam>,
    n: NameView,
    repl: SpecTypeRef,
    x: NameView,
)
    requires
        !spec_type_mentions(repl, x),
        x == n || !spec_params_mention(ps, x),
    ensures
        !spec_params_mention(spec_subst_params(ps, n, repl), x),
    decreases ps,
{
    if ps.len() > 0 {
        lemma_subst_params_mentions(ps.drop_last(), n, repl, x);
        lemma_subst_type_mentions(ps.last().ty, n, repl, x);
        let sub = spec_subst_params(ps.drop_last(), n, repl);
        let y = SpecFnParam { name: ps.last().name, ty: spec_subst_type(ps.last().ty, n, repl) };
        assert(sub.push(y).drop_last() =~= sub);
        assert(sub.push(y).last() == y);
    }
}

/// One erasure step eliminates its own parameter everywhere, and keeps
/// every other absent name absent, provided its replacement type does not
/// reference the name in question.
proof fn lemma_erase_pair_mentions(m: SpecMember, n: NameView, repl: SpecTypeRef, x: NameView)
    requires
        !spec_type_mentions(repl, x),
        x == n || !spec_member_mentions(m, x),
    ensures
        !spec_member_mentions(spec_erase_pair(m, n, repl), x),
{
    lemma_remove_generic_mentions(m.generics, n, x);
    lemma_remove_preds_mentions(m.where_bounds, n, x);
    lemma_subst_params_mentions(m.params, n, repl, x);
    if m.ret is Some {
        lemma_subst_type_mentions(m.ret->0, n, repl, x);
    }
    if m.body is Some {
        lemma_subst_stmts_mentions(m.body->0, n, repl, x);
    }
}

/// After every collected pair is applied, no reference to any erased
/// parameter remains, provided no replacement type references an erased
/// parameter.
proof fn lemma_apply_pairs_mentions(
    m: SpecMember,
    pairs: Seq<(NameView, SpecTypeRef)>,
    idx: int,
)
    requires
        0 <= idx < pairs.len(),
        forall|a: int, b: int|
            0 <= a < pairs.len() && 0 <= b < pairs.len() ==> !spec_type_mentions(
                pairs[a].1,
                pairs[b].0,
            ),
    ensures
        !spec_member_mentions(spec_apply_pairs(m, pairs), pairs[idx].0),
    decreases pairs,
{
    let rest = pairs.drop_last();
    let lastp = pairs.last();
    if idx == pairs.len() - 1 {
        lemma_erase_pair_mentions(spec_apply_pairs(m, rest), lastp.0, lastp.1, lastp.0);
    } else {
        assert forall|a: int, b: int|
            0 <= a < rest.len() && 0 <= b < rest.len() implies !spec_type_mentions(
            rest[a].1,
            rest[b].0,
        ) by {
            assert(rest[a] == pairs[a]);
            assert(rest[b] == pairs[b]);
        }
        lemma_apply_pairs_mentions(m, rest, idx);
        assert(rest[idx] == pairs[idx]);
        lemma_erase_pair_mentions(spec_apply_pairs(m, rest), lastp.0, lastp.1, pairs[idx].0);
    }
}

/// Generic-bound erasure is exhaustive: after the blocking projection's
/// erasure pass, no node of the member — no declaration in its generic
/// parameter list, no where-predicate, no occurrence in a parameter type,
/// the return type, or a body call path — references any erased
/// eventual-value parameter.  This holds whenever no resolved output type
/// itself references an erased parameter; a chain such as a parameter
/// resolved to another erased parameter's name is outside it.  Verbatim
/// text is opaque to the substitution and outside the reference relation.
pub proof fn lemma_erasure_exhaustive(m: SpecMember, idx: int)
    requires
        0 <= idx < spec_collect_pairs(m).len(),
        forall|a: int, b: int|
            0 <= a < spec_collect_pairs(m).len() && 0 <= b < spec_collect_pairs(m).len()
                ==> !spec_type_mentions(
                #[trigger] spec_collect_pairs(m)[a].1,
                #[trigger] spec_collect_pairs(m)[b].0,
            ),
    ensures
        !spec_member_mentions(spec_erase_futures(m), spec_collect_pairs(m)[idx].0),
{
    lemma_apply_pairs_mentions(m, spec_collect_pairs(m), idx);
}

// ------------------------------------------------------------------
// Blocking bodies, and what the rewrites leave alone.
// ------------------------------------------------------------------
/// Does the expression hold no suspension machinery — no suspension point
/// and no suspension block, at any depth?
pub open spec fn spec_blocking_expr(e: SpecExpr) -> bool
    decreases e,
{
    match e {
        SpecExpr::Verbatim { .. } => true,
        SpecExpr::Call { func, args } => spec_blocking_stmts(args),
        SpecExpr::MethodCall { receiver, name, args } => spec_blocking_expr(*receiver)
            && spec_blocking_stmts(args),
        SpecExpr::Await { .. } => false,
        SpecExpr::AsyncBlock { .. } => false,
        SpecExpr::Block { stmts } => spec_blocking_stmts(stmts),
        SpecExpr::Let { name, init } => spec_blocking_expr(*init),
        SpecExpr::Placeholder => true,
    }
}

/// Does every statement of the list hold no suspension machinery?
pub open spec fn spec_blocking_stmts(s: Seq<SpecExpr>) -> bool
    decreases s,
{
    if s.len() == 0 {
        true
    } else {
        spec_blocking_stmts(s.drop_last()) && spec_blocking_expr(s.last())
    }
}

/// Does no call-site identifier of the expression carry the deterministic
/// suffix?
pub open spec fn spec_unsuffixed_expr(e: SpecExpr) -> bool
    decreases e,
{
    match e {
        SpecExpr::Verbatim { .. } => true,
        SpecExpr::Call { func, args } => (func.len() > 0 ==> !spec_has_suffix(
            func.last(),
            async_suffix(),
        )) && spec_unsuffixed_stmts(args),
        SpecExpr::MethodCall { receiver, name, args } => !spec_has_suffix(name, async_suffix())
            && spec_unsuffixed_expr(*receiver) && spec_unsuffixed_stmts(args),
        SpecExpr::Await { base } => spec_unsuffixed_expr(*base),
        SpecExpr::AsyncBlock { stmts } => spec_unsuffixed_stmts(stmts),
        SpecExpr::Block { stmts } => spec_unsuffixed_stmts(stmts),
        SpecExpr::Let { name, init } => spec_unsuffixed_expr(*init),
        SpecExpr::Placeholder => true,
    }
}

/// Does no call-site identifier of the statement list carry the suffix?
pub open spec fn spec_unsuffixed_stmts(s: Seq<SpecExpr>) -> bool
    decreases s,
{
    if s.len() == 0 {
        true
    } else {
        spec_unsuffixed_stmts(s.drop_last()) && spec_unsuffixed_expr(s.last())
    }
}

/// Suspension repointing never touches a blocking expression: it fires
/// strictly inside await-decoration contexts, and a blocking expression
/// has none.
pub proof fn lemma_inject_blocking_identity(e: SpecExpr)
    requires
        spec_blocking_expr(e),
    ensures
        spec_inject_expr(e) == e,
    decreases e,
{
    match e {
        SpecExpr::Call { func, args } => {
            lemma_inject_blocking_identity_stmts(args);
        },
        SpecExpr::MethodCall { receiver, name, args } => {
            lemma_inject_blocking_identity(*receiver);
            lemma_inject_blocking_identity_stmts(args);
        },
        SpecExpr::Block { stmts } => {
            lemma_inject_blocking_identity_stmts(stmts);
        },
        SpecExpr::Let { name, init } => {
            lemma_inject_blocking_identity(*init);
        },
        _ => {},
    }
}

/// Suspension repointing never touches a blocking statement list.
pub proof fn lemma_inject_blocking_identity_stmts(s: Seq<SpecExpr>)
    requires
        spec_blocking_stmts(s),
    ensures
        spec_inject_stmts(s) == s,
    decreases s,
{
    if s.len() > 0 {
        lemma_inject_blocking_identity_stmts(s.drop_last());
        lemma_inject_blocking_identity(s.last());
        assert(spec_inject_stmts(s) =~= s);
    } else {
        assert(spec_inject_stmts(s) =~= s);
    }
}

/// Suspension removal never touches a blocking expression whose call-site
/// identifiers carry no suffix: there is nothing to unwrap and nothing to
/// strip.
pub proof fn lemma_strip_clean_identity(e: SpecExpr)
    requires
        spec_blocking_expr(e),
        spec_unsuffixed_expr(e),
    ensures
        spec_strip_expr(e) == e,
    decreases e,
{
    match e {
        SpecExpr::Call { func, args } => {
            lemma_strip_clean_identity_stmts(args);
            assert(spec_strip_path_last(func) =~= func);
        },
        SpecExpr::MethodCall { receiver, name, args } => {
            lemma_strip_clean_identity(*receiver);
            lemma_strip_clean_identity_stmts(args);
        },
        SpecExpr::Block { stmts } => {
            lemma_strip_clean_identity_stmts(stmts);
        },
        SpecExpr::Let { name, init } => {
            lemma_strip_clean_identity(*init);
        },
        _ => {},
    }
}

/// Suspension removal never touches a blocking, suffix-free statement
/// list.
pub proof fn lemma_strip_clean_identity_stmts(s: Seq<SpecExpr>)
    requires
        spec_blocking_stmts(s),
        spec_unsuffixed_stmts(s),
    ensures
        spec_strip_stmts(s) == s,
    decreases s,
{
    if s.len() > 0 {
        lemma_strip_clean_identity_stmts(s.drop_last());
        lemma_strip_clean_identity(s.last());
        assert(spec_strip_stmts(s) =~= s);
    } else {
        assert(spec_strip_stmts(s) =~= s);
    }
}

// ------------------------------------------------------------------
// Executable rewriters.
// ------------------------------------------------------------------
/// A name with the deterministic suffix stripped when present.
pub fn strip_name(n: &String) -> (r: String)
    ensures
        r@ == spec_strip_name(n@),
{
    match ident_try_remove_suffix(n, async_suffix_str()) {
        Some(s) => s,
        None => n.clone(),
    }
}

/// A name repointed at its suspension-capable sibling: the deterministic
/// suffix is added unless already present.
pub fn ensure_suffix_name(n: &String) -> (r: String)
    ensures
        r@ == spec_ensure_suffix(n@),
{
    match ident_try_remove_suffix(n, async_suffix_str()) {
        Some(_) => n.clone(),
        None => ident_add_suffix(n, async_suffix_str()),
    }
}

/// A path with the deterministic suffix stripped from its last segment.
pub fn strip_path_last(p: &Vec<String>) -> (r: Vec<String>)
    ensures
        path_view(r@) == spec_strip_path_last(path_view(p@)),
{
    let n = p.len();
    let mut out: Vec<String> = Vec::new();
    let mut i: usize = 0;
    while i < n
        invariant
            n == p@.len(),
            i <= n,
            out@.len() == i,
            forall|j: int|
                0 <= j < i ==> out@[j]@ == (if j == n - 1 {
                    spec_strip_name(p@[j]@)
                } else {
                    p@[j]@
                }),
        decreases n - i,
    {
        if i + 1 == n {
            out.push(strip_name(&p[i]));
        } else {
            out.push(p[i].clone());
        }
        i = i + 1;
    }
    assert(path_view(out@) =~= spec_strip_path_last(path_view(p@)));
    out
}

/// A path whose last segment is repointed at its suspension-capable sibling.
pub fn ensure_path_suffix(p: &Vec<String>) -> (r: Vec<String>)
    ensures
        path_view(r@) == spec_ensure_path_suffix(path_view(p@)),
{
    let n = p.len();
    let mut out: Vec<String> = Vec::new();
    let mut i: usize = 0;
    while i < n
        invariant
            n == p@.len(),
            i <= n,
            out@.len() == i,
            forall|j: int|
                0 <= j < i ==> out@[j]@ == (if j == n - 1 {
                    spec_ensure_suffix(p@[j]@)
                } else {
                    p@[j]@
                }),
        decreases n - i,
    {
        if i + 1 == n {
            out.push(ensure_suffix_name(&p[i]));
        } else {
            out.push(p[i].clone());
        }
        i = i + 1;
    }
    assert(path_view(out@) =~= spec_ensure_path_suffix(path_view(p@)));
    out
}

/// The suspension-removal visitor: projects bodies written with suspension
/// semantics to ordinary sequential control flow.
pub struct AsyncAwaitRemoval;

impl AsyncAwaitRemoval {
    /// One expression projected to blocking form, children first.
    pub fn visit_expr(&self, e: &Expr) -> (r: Expr)
        ensures
            r@ == spec_strip_expr(e@),
        decreases *e,
    {
        match e {
            Expr::Verbatim { text } => Expr::Verbatim { text: text.clone() },
            Expr::Call { func, args } => {
                let r = Expr::Call { func: strip_path_last(func), args: self.visit_stmts(args) };
                proof {
                    lemma_expr_list_view(r->Call_args@);
                    lemma_expr_list_view(e->Call_args@);
                    lemma_strip_stmts(expr_list_view(e->Call_args@));
                    assert(expr_list_view(r->Call_args@) =~= spec_strip_stmts(
                        expr_list_view(e->Call_args@),
                    ));
                }
                r
            },
            Expr::MethodCall { receiver, name, args } => {
                let r = Expr::MethodCall {
                    receiver: Box::new(self.visit_expr(receiver)),
                    name: strip_name(name),
                    args: self.visit_stmts(args),
                };
                proof {
                    lemma_expr_list_view(r->MethodCall_args@);
                    lemma_expr_list_view(e->MethodCall_args@);
                    lemma_strip_stmts(expr_list_view(e->MethodCall_args@));
                    assert(expr_list_view(r->MethodCall_args@) =~= spec_strip_stmts(
                        expr_list_view(e->MethodCall_args@),
                    ));
                }
                r
            },
            Expr::Await { base } => self.visit_expr(base),
            Expr::AsyncBlock { stmts } => {
                let mut inner = self.visit_stmts(stmts);
                proof {
                    lemma_expr_list_view(inner@);
                    lemma_expr_list_view(e->AsyncBlock_stmts@);
                    lemma_strip_stmts(expr_list_view(e->AsyncBlock_stmts@));
                    assert(expr_list_view(inner@) =~= spec_strip_stmts(
                        expr_list_view(e->AsyncBlock_stmts@),
                    ));
                }
                if inner.len() == 1 {
                    inner.remove(0)
                } else {
                    Expr::Block { stmts: inner }
                }
            },
            Expr::Block { stmts } => {
                let r = Expr::Block { stmts: self.visit_stmts(stmts) };
                proof {
                    lemma_expr_list_view(r->Block_stmts@);
                    lemma_expr_list_view(e->Block_stmts@);
                    lemma_strip_stmts(expr_list_view(e->Block_stmts@));
                    assert(expr_list_view(r->Block_stmts@) =~= spec_strip_stmts(
                        expr_list_view(e->Block_stmts@),
                    ));
                }
                r
            },
            Expr::Let { name, init } => Expr::Let {
                name: name.clone(),
                init: Box::new(self.visit_expr(init)),
            },
            Expr::Placeholder => Expr::Placeholder,
        }
    }

    /// A statement or argument list projected to blocking form, element by
    /// element.
    pub fn visit_stmts(&self, v: &Vec<Expr>) -> (r: Vec<Expr>)
        ensures
            r@.len() == v@.len(),
            forall|j: int| 0 <= j < v@.len() ==> r@[j]@ == spec_strip_expr(v@[j]@),
        decreases v@,
    {
        let mut out: Vec<Expr> = Vec::new();
        let mut i: usize = 0;
        while i < v.len()
            invariant
                i <= v.len(),
                out@.len() == i,
                forall|j: int| 0 <= j < i ==> out@[j]@ == spec_strip_expr(v@[j]@),
            decreases v.len() - i,
        {
            out.push(self.visit_expr(&v[i]));
            i = i + 1;
        }
        out
    }
}

/// The suspension-repointing visitor: inside await-decoration contexts,
/// repoints callee identifiers at their suspension-capable siblings.
pub struct AsyncIdentAdder;

impl AsyncIdentAdder {
    /// One expression projected to suspension form, children first.
    pub fn visit_expr(&self, e: &Expr) -> (r: Expr)
        ensures
            r@ == spec_inject_expr(e@),
        decreases *e,
    {
        match e {
            Expr::Verbatim { text } => Expr::Verbatim { text: text.clone() },
            Expr::Call { func, args } => {
                let r = Expr::Call { func: dup_path(func), args: self.visit_stmts(args) };
                proof {
                    lemma_expr_list_view(r->Call_args@);
                    lemma_expr_list_view(e->Call_args@);
                    lemma_inject_stmts(expr_list_view(e->Call_args@));
                    assert(expr_list_view(r->Call_args@) =~= spec_inject_stmts(
                        expr_list_view(e->Call_args@),
                    ));
                }
                r
            },
            Expr::MethodCall { receiver, name, args } => {
                let r = Expr::MethodCall {
                    receiver: Box::new(self.visit_expr(receiver)),
                    name: name.clone(),
                    args: self.visit_stmts(args),
                };
                proof {
                    lemma_expr_list_view(r->MethodCall_args@);
                    lemma_expr_list_view(e->MethodCall_args@);
                    lemma_inject_stmts(expr_list_view(e->MethodCall_args@));
                    assert(expr_list_view(r->MethodCall_args@) =~= spec_inject_stmts(
                        expr_list_view(e->MethodCall_args@),
                    ));
                }
                r
            },
            Expr::Await { base } => {
                let b = self.visit_expr(base);
                let ghost bv = b@;
                let b2 = match b {
                    Expr::MethodCall { receiver, name, args } => {
                        let r2 = Expr::MethodCall {
                            receiver,
                            name: ensure_suffix_name(&name),
                            args,
                        };
                        assert(r2@ == SpecExpr::MethodCall {
                            receiver: bv->MethodCall_receiver,
                            name: spec_ensure_suffix(bv->MethodCall_name),
                            args: bv->MethodCall_args,
                        });
                        r2
                    },
                    Expr::Call { func, args } => {
                        let r2 = Expr::Call { func: ensure_path_suffix(&func), args };
                        assert(r2@ == SpecExpr::Call {
                            func: spec_ensure_path_suffix(bv->Call_func),
                            args: bv->Call_args,
                        });
                        r2
                    },
                    other => other,
                };
                Expr::Await { base: Box::new(b2) }
            },
            Expr::AsyncBlock { stmts } => {
                let r = Expr::AsyncBlock { stmts: self.visit_stmts(stmts) };
                proof {
                    lemma_expr_list_view(r->AsyncBlock_stmts@);
                    lemma_expr_list_view(e->AsyncBlock_stmts@);
                    lemma_inject_stmts(expr_list_view(e->AsyncBlock_stmts@));
                    assert(expr_list_view(r->AsyncBlock_stmts@) =~= spec_inject_stmts(
                        expr_list_view(e->AsyncBlock_stmts@),
                    ));
                }
                r
            },
            Expr::Block { stmts } => {
                let r = Expr::Block { stmts: self.visit_stmts(stmts) };
                proof {
                    lemma_expr_list_view(r->Block_stmts@);
                    lemma_expr_list_view(e->Block_stmts@);
                    lemma_inject_stmts(expr_list_view(e->Block_stmts@));
                    assert(expr_list_view(r->Block_stmts@) =~= spec_inject_stmts(
                        expr_list_view(e->Block_stmts@),
                    ));
                }
                r
            },
            Expr::Let { name, init } => Expr::Let {
                name: name.clone(),
                init: Box::new(self.visit_expr(init)),
            },
            Expr::Placeholder => Expr::Placeholder,
        }
    }

    /// A statement or argument list projected to suspension form, element
    /// by element.
    pub fn visit_stmts(&self, v: &Vec<Expr>) -> (r: Vec<Expr>)
        ensures
            r@.len() == v@.len(),
            forall|j: int| 0 <= j < v@.len() ==> r@[j]@ == spec_inject_expr(v@[j]@),
        decreases v@,
    {
        let mut out: Vec<Expr> = Vec::new();
        let mut i: usize = 0;
        while i < v.len()
            invariant
                i <= v.len(),
                out@.len() == i,
                forall|j: int| 0 <= j < i ==> out@[j]@ == spec_inject_expr(v@[j]@),
            decreases v.len() - i,
        {
            out.push(self.visit_expr(&v[i]));
            i = i + 1;
        }
        out
    }
}

/// The view of a collected erasure pair list, element by element.
pub open spec fn pair_list_view(s: Seq<(String, TypeRef)>) -> Seq<(NameView, SpecTypeRef)> {
    Seq::new(s.len(), |i: int| (s[i].0@, s[i].1@))
}

/// The pair contributed by one bound of the generic parameter
/// `generic_type_name`: at most one, for an eventual-value bound that
/// carries an `Output` binding.
pub fn search_trait_bound(generic_type_name: &String, bound: &TraitBound) -> (r: Vec<
    (String, TypeRef),
>)
    ensures
        pair_list_view(r@) == match spec_future_pair(generic_type_name@, bound@) {
            Some(p) => seq![p],
            None => Seq::<(NameView, SpecTypeRef)>::empty(),
        },
{
    let mut out: Vec<(String, TypeRef)> = Vec::new();
    if bound.name.eq(&String::from_str("Future")) {
        match &bound.output {
            Some(ty) => {
                out.push((generic_type_name.clone(), ty.dup()));
            },
            None => {},
        }
    }
    proof {
        reveal_strlit("Future");
        match spec_future_pair(generic_type_name@, bound@) {
            Some(p) => {
                assert(pair_list_view(out@) =~= seq![p]);
            },
            None => {
                assert(pair_list_view(out@) =~= Seq::<(NameView, SpecTypeRef)>::empty());
            },
        }
    }
    out
}

/// The per-parameter substitution pass of generic-bound erasure: replaces
/// one erased parameter by its resolved output type.
pub struct ReplaceGenericType {
    /// The name of the parameter being erased.
    pub generic_type: String,
    /// The resolved output type that replaces it.
    pub arg_type: TypeRef,
}

/// A type with every occurrence of `name` replaced by `repl`.
pub fn subst_type(t: &TypeRef, name: &String, repl: &TypeRef) -> (r: TypeRef)
    ensures
        r@ == spec_subst_type(t@, name@, repl@),
    decreases *t,
{
    if t.head.eq(name) {
        repl.dup()
    } else {
        let r = TypeRef { head: t.head.clone(), args: subst_type_list(&t.args, name, repl) };
        proof {
            lemma_type_list_view(r.args@);
            lemma_type_list_view(t.args@);
            lemma_subst_type_list(type_list_view(t.args@), name@, repl@);
            assert(type_list_view(r.args@) =~= spec_subst_type_list(
                type_list_view(t.args@),
                name@,
                repl@,
            ));
        }
        r
    }
}

/// A type list with `name` replaced by `repl`, element by element.
pub fn subst_type_list(v: &Vec<TypeRef>, name: &String, repl: &TypeRef) -> (r: Vec<TypeRef>)
    ensures
        r@.len() == v@.len(),
        forall|j: int| 0 <= j < v@.len() ==> r@[j]@ == spec_subst_type(v@[j]@, name@, repl@),
    decreases v@,
{
    let mut out: Vec<TypeRef> = Vec::new();
    let mut i: usize = 0;
    while i < v.len()
        invariant
            i <= v.len(),
            out@.len() == i,
            forall|j: int| 0 <= j < i ==> out@[j]@ == spec_subst_type(v@[j]@, name@, repl@),
        decreases v.len() - i,
    {
        out.push(subst_type(&v[i], name, repl));
        i = i + 1;
    }
    out
}

/// A path with every segment equal to `name` replaced by the head of
/// `repl`.
pub fn subst_path(p: &Vec<String>, name: &String, repl: &TypeRef) -> (r: Vec<String>)
    ensures
        path_view(r@) == spec_subst_path(path_view(p@), name@, repl@),
{
    let mut out: Vec<String> = Vec::new();
    let mut i: usize = 0;
    while i < p.len()
        invariant
            i <= p.len(),
            out@.len() == i,
            forall|j: int|
                0 <= j < i ==> out@[j]@ == (if p@[j]@ == name@ {
                    repl@.head
                } else {
                    p@[j]@
                }),
        decreases p.len() - i,
    {
        if p[i].eq(name) {
            out.push(repl.head.clone());
        } else {
            out.push(p[i].clone());
        }
        i = i + 1;
    }
    assert(path_view(out@) =~= spec_subst_path(path_view(p@), name@, repl@));
    out
}

/// An expression with every type-reference occurrence of `name` replaced
/// by `repl`.
pub fn subst_expr(e: &Expr, name: &String, repl: &TypeRef) -> (r: Expr)
    ensures
        r@ == spec_subst_expr(e@, name@, repl@),
    decreases *e,
{
    match e {
        Expr::Verbatim { text } => Expr::Verbatim { text: text.clone() },
        Expr::Call { func, args } => {
            let r = Expr::Call {
                func: subst_path(func, name, repl),
                args: subst_stmts(args, name, repl),
            };
            proof {
                lemma_expr_list_view(r->Call_args@);
                lemma_expr_list_view(e->Call_args@);
                lemma_subst_stmts(expr_list_view(e->Call_args@), name@, repl@);
                assert(expr_list_view(r->Call_args@) =~= spec_subst_stmts(
                    expr_list_view(e->Call_args@),
                    name@,
                    repl@,
                ));
            }
            r
        },
        Expr::MethodCall { receiver, name: m, args } => {
            let r = Expr::MethodCall {
                receiver: Box::new(subst_expr(receiver, name, repl)),
                name: m.clone(),
                args: subst_stmts(args, name, repl),
            };
            proof {
                lemma_expr_list_view(r->MethodCall_args@);
                lemma_expr_list_view(e->MethodCall_args@);
                lemma_subst_stmts(expr_list_view(e->MethodCall_args@), name@, repl@);
                assert(expr_list_view(r->MethodCall_args@) =~= spec_subst_stmts(
                    expr_list_view(e->MethodCall_args@),
                    name@,
                    repl@,
                ));
            }
            r
        },
        Expr::Await { base } => Expr::Await { base: Box::new(subst_expr(base, name, repl)) },
        Expr::AsyncBlock { stmts } => {
            let r = Expr::AsyncBlock { stmts: subst_stmts(stmts, name, repl) };
            proof {
                lemma_expr_list_view(r->AsyncBlock_stmts@);
                lemma_expr_list_view(e->AsyncBlock_stmts@);
                lemma_subst_stmts(expr_list_view(e->AsyncBlock_stmts@), name@, repl@);
                assert(expr_list_view(r->AsyncBlock_stmts@) =~= spec_subst_stmts(
                    expr_list_view(e->AsyncBlock_stmts@),
                    name@,
                    repl@,
                ));
            }
            r
        },
        Expr::Block { stmts } => {
            let r = Expr::Block { stmts: subst_stmts(stmts, name, repl) };
            proof {
                lemma_expr_list_view(r->Block_stmts@);
                lemma_expr_list_view(e->Block_stmts@);
                lemma_subst_stmts(expr_list_view(e->Block_stmts@), name@, repl@);
                assert(expr_list_view(r->Block_stmts@) =~= spec_subst_stmts(
                    expr_list_view(e->Block_stmts@),
                    name@,
                    repl@,
                ));
            }
            r
        },
        Expr::Let { name: n, init } => Expr::Let {
            name: n.clone(),
            init: Box::new(subst_expr(init, name, repl)),
        },
        Expr::Placeholder => Expr::Placeholder,
    }
}

/// A statement list with `name` replaced by `repl`, element by element.
pub fn subst_stmts(v: &Vec<Expr>, name: &String, repl: &TypeRef) -> (r: Vec<Expr>)
    ensures
        r@.len() == v@.len(),
        forall|j: int| 0 <= j < v@.len() ==> r@[j]@ == spec_subst_expr(v@[j]@, name@, repl@),
    decreases v@,
{
    let mut out: Vec<Expr> = Vec::new();
    let mut i: usize = 0;
    while i < v.len()
        invariant
            i <= v.len(),
            out@.len() == i,
            forall|j: int| 0 <= j < i ==> out@[j]@ == spec_subst_expr(v@[j]@, name@, repl@),
        decreases v.len() - i,
    {
        out.push(subst_expr(&v[i], name, repl));
        i = i + 1;
    }
    out
}

/// A generic parameter list with the type parameter `name` removed.
pub fn remove_generic(v: &Vec<GenericParam>, name: &String) -> (r: Vec<GenericParam>)
    ensures
        generic_list_view(r@) == spec_remove_generic(generic_list_view(v@), name@),
{
    let mut out: Vec<GenericParam> = Vec::new();
    let mut i: usize = 0;
    while i < v.len()
        invariant
            i <= v.len(),
            generic_list_view(out@) == spec_remove_generic(generic_list_view(v@.take(i as int)), name@),
        decreases v.len() - i,
    {
        proof {
            assert(generic_list_view(v@.take(i + 1)).drop_last() =~= generic_list_view(
                v@.take(i as int),
            ));
            assert(generic_list_view(v@.take(i + 1)).last() == v@[i as int]@);
        }
        let keep = match &v[i] {
            GenericParam::TypeParam { name: n, .. } => !n.eq(name),
            GenericParam::Opaque { .. } => true,
        };
        if keep {
            out.push(v[i].dup());
            proof {
                assert(generic_list_view(out@) =~= spec_remove_generic(
                    generic_list_view(v@.take(i + 1)),
                    name@,
                ));
            }
        } else {
            proof {
                assert(generic_list_view(out@) =~= spec_remove_generic(
                    generic_list_view(v@.take(i + 1)),
                    name@,
                ));
            }
        }
        i = i + 1;
    }
    proof {
        assert(v@.take(v@.len() as int) =~= v@);
    }
    out
}

/// A where-clause with every predicate that bounds `name` removed.
pub fn remove_preds(v: &Vec<WherePred>, name: &String) -> (r: Vec<WherePred>)
    ensures
        pred_list_view(r@) == spec_remove_preds(pred_list_view(v@), name@),
{
    let mut out: Vec<WherePred> = Vec::new();
    let mut i: usize = 0;
    while i < v.len()
        invariant
            i <= v.len(),
            pred_list_view(out@) == spec_remove_preds(pred_list_view(v@.take(i as int)), name@),
        decreases v.len() - i,
    {
        proof {
            assert(pred_list_view(v@.take(i + 1)).drop_last() =~= pred_list_view(
                v@.take(i as int),
            ));
            assert(pred_list_view(v@.take(i + 1)).last() == v@[i as int]@);
        }
        let keep = match &v[i] {
            WherePred::TypeBound { bounded, .. } => !bounded.eq(name),
            WherePred::Opaque { .. } => true,
        };
        if keep {
            out.push(v[i].dup());
            proof {
                assert(pred_list_view(out@) =~= spec_remove_preds(
                    pred_list_view(v@.take(i + 1)),
                    name@,
                ));
            }
        } else {
            proof {
                assert(pred_list_view(out@) =~= spec_remove_preds(
                    pred_list_view(v@.take(i + 1)),
                    name@,
                ));
            }
        }
        i = i + 1;
    }
    proof {
        assert(v@.take(v@.len() as int) =~= v@);
    }
    out
}

/// A parameter list with `name` replaced by `repl` in every parameter's
/// type.
pub fn subst_params(v: &Vec<FnParam>, name: &String, repl: &TypeRef) -> (r: Vec<FnParam>)
    ensures
        param_list_view(r@) == spec_subst_params(param_list_view(v@), name@, repl@),
{
    let mut out: Vec<FnParam> = Vec::new();
    let mut i: usize = 0;
    while i < v.len()
        invariant
            i <= v.len(),
            param_list_view(out@) == spec_subst_params(param_list_view(v@.take(i as int)), name@, repl@),
        decreases v.len() - i,
    {
        proof {
            assert(param_list_view(v@.take(i + 1)).drop_last() =~= param_list_view(
                v@.take(i as int),
            ));
            assert(param_list_view(v@.take(i + 1)).last() == v@[i as int]@);
        }
        out.push(
            FnParam { name: v[i].name.clone(), ty: subst_type(&v[i].ty, name, repl) },
        );
        proof {
            assert(param_list_view(out@) =~= spec_subst_params(
                param_list_view(v@.take(i + 1)),
                name@,
                repl@,
            ));
        }
        i = i + 1;
    }
    proof {
        assert(v@.take(v@.len() as int) =~= v@);
    }
    out
}

impl ReplaceGenericType {
    /// A substitution pass for the parameter `generic_type`, replaced by
    /// `arg_type`.
    pub fn new(generic_type: &String, arg_type: &TypeRef) -> (r: Self)
        ensures
            r.generic_type@ == generic_type@,
            r.arg_type@ == arg_type@,
    {
        Self { generic_type: generic_type.clone(), arg_type: arg_type.dup() }
    }

    /// One member with the parameter `generic_type` erased: removed from
    /// the generic parameter list and the where-clause, and replaced by
    /// `arg_type` throughout the signature and body.
    pub fn replace_generic_type(m: &Member, generic_type: &String, arg_type: &TypeRef) -> (r:
        Member)
        ensures
            r@ == spec_erase_pair(m@, generic_type@, arg_type@),
    {
        let s = Self::new(generic_type, arg_type);
        let body = match &m.body {
            Some(stmts) => Some(subst_stmts(stmts, &s.generic_type, &s.arg_type)),
            None => None,
        };
        let r = Member {
            name: m.name.clone(),
            is_suspending: m.is_suspending,
            marked: m.marked,
            recursion: m.recursion,
            recursion_wrapped: m.recursion_wrapped,
            generics: remove_generic(&m.generics, &s.generic_type),
            where_bounds: remove_preds(&m.where_bounds, &s.generic_type),
            params: subst_params(&m.params, &s.generic_type, &s.arg_type),
            ret: match &m.ret {
                Some(ty) => Some(subst_type(ty, &s.generic_type, &s.arg_type)),
                None => None,
            },
            body,
        };
        proof {
            if m.body is Some {
                lemma_subst_stmts(m@.body->0, generic_type@, arg_type@);
                assert(r@.body->0 =~= spec_subst_stmts(m@.body->0, generic_type@, arg_type@));
            }
        }
        r
    }
}

/// Phase one of erasure: every `(parameter, resolved output type)` pair a
/// member's signature declares, generic parameters first, where-clause
/// second, in declaration order.
pub fn collect_future_pairs(m: &Member) -> (r: Vec<(String, TypeRef)>)
    ensures
        pair_list_view(r@) == spec_collect_pairs(m@),
{
    let mut out: Vec<(String, TypeRef)> = Vec::new();
    let mut i: usize = 0;
    while i < m.generics.len()
        invariant
            i <= m.generics.len(),
            pair_list_view(out@) == spec_pairs_of_generics(
                generic_list_view(m.generics@.take(i as int)),
            ),
        decreases m.generics.len() - i,
    {
        proof {
            assert(generic_list_view(m.generics@.take(i + 1)).drop_last() =~= generic_list_view(
                m.generics@.take(i as int),
            ));
            assert(generic_list_view(m.generics@.take(i + 1)).last() == m.generics@[i as int]@);
        }
        match &m.generics[i] {
            GenericParam::TypeParam { name, bounds } => {
                let mut k: usize = 0;
                while k < bounds.len()
                    invariant
                        k <= bounds.len(),
                        pair_list_view(out@) == spec_pairs_of_generics(
                            generic_list_view(m.generics@.take(i as int)),
                        ) + spec_pairs_of_bounds(name@, bound_list_view(bounds@.take(k as int))),
                        m.generics@[i as int] matches GenericParam::TypeParam {
                            name: n2,
                            bounds: b2,
                        } && n2 == *name && b2 == *bounds,
                        i < m.generics.len(),
                    decreases bounds.len() - k,
                {
                    proof {
                        assert(bound_list_view(bounds@.take(k + 1)).drop_last() =~= bound_list_view(
                            bounds@.take(k as int),
                        ));
                        assert(bound_list_view(bounds@.take(k + 1)).last() == bounds@[k as int]@);
                    }
                    let ghost old_plv = pair_list_view(out@);
                    let mut found = search_trait_bound(name, &bounds[k]);
                    let ghost fv = found@;
                    out.append(&mut found);
                    proof {
                        assert(pair_list_view(out@) =~= old_plv + pair_list_view(fv));
                        assert(pair_list_view(out@) =~= spec_pairs_of_generics(
                            generic_list_view(m.generics@.take(i as int)),
                        ) + spec_pairs_of_bounds(name@, bound_list_view(bounds@.take(k + 1))));
                    }
                    k = k + 1;
                }
                proof {
                    assert(bounds@.take(bounds@.len() as int) =~= bounds@);
                    assert(pair_list_view(out@) =~= spec_pairs_of_generics(
                        generic_list_view(m.generics@.take(i + 1)),
                    ));
                }
            },
            GenericParam::Opaque { .. } => {
                proof {
                    assert(pair_list_view(out@) =~= spec_pairs_of_generics(
                        generic_list_view(m.generics@.take(i + 1)),
                    ));
                }
            },
        }
        i = i + 1;
    }
    proof {
        assert(m.generics@.take(m.generics@.len() as int) =~= m.generics@);
    }
    let ghost after_generics = pair_list_view(out@);
    let mut i: usize = 0;
    while i < m.where_bounds.len()
        invariant
            i <= m.where_bounds.len(),
            after_generics == spec_pairs_of_generics(generic_list_view(m.generics@)),
            pair_list_view(out@) == after_generics + spec_pairs_of_preds(
                pred_list_view(m.where_bounds@.take(i as int)),
            ),
        decreases m.where_bounds.len() - i,
    {
        proof {
            assert(pred_list_view(m.where_bounds@.take(i + 1)).drop_last() =~= pred_list_view(
                m.where_bounds@.take(i as int),
            ));
            assert(pred_list_view(m.where_bounds@.take(i + 1)).last() == m.where_bounds@[i as int]@);
        }
        match &m.where_bounds[i] {
            WherePred::TypeBound { bounded, bounds } => {
                let mut k: usize = 0;
                while k < bounds.len()
                    invariant
                        k <= bounds.len(),
                        after_generics == spec_pairs_of_generics(generic_list_view(m.generics@)),
                        pair_list_view(out@) == after_generics + spec_pairs_of_preds(
                            pred_list_view(m.where_bounds@.take(i as int)),
                        ) + spec_pairs_of_bounds(bounded@, bound_list_view(bounds@.take(k as int))),
                        m.where_bounds@[i as int] matches WherePred::TypeBound {
                            bounded: n2,
                            bounds: b2,
                        } && n2 == *bounded && b2 == *bounds,
                        i < m.where_bounds.len(),
                    decreases bounds.len() - k,
                {
                    proof {
                        assert(bound_list_view(bounds@.take(k + 1)).drop_last() =~= bound_list_view(
                            bounds@.take(k as int),
                        ));
                        assert(bound_list_view(bounds@.take(k + 1)).last() == bounds@[k as int]@);
                    }
                    let ghost old_plv = pair_list_view(out@);
                    let mut found = search_trait_bound(bounded, &bounds[k]);
                    let ghost fv = found@;
                    out.append(&mut found);
                    proof {
                        assert(pair_list_view(out@) =~= old_plv + pair_list_view(fv));
                        assert(pair_list_view(out@) =~= after_generics + spec_pairs_of_preds(
                            pred_list_view(m.where_bounds@.take(i as int)),
                        ) + spec_pairs_of_bounds(bounded@, bound_list_view(bounds@.take(k + 1))));
                    }
                    k = k + 1;
                }
                proof {
                    assert(bounds@.take(bounds@.len() as int) =~= bounds@);
                    assert(pair_list_view(out@) =~= after_generics + spec_pairs_of_preds(
                        pred_list_view(m.where_bounds@.take(i + 1)),
                    ));
                }
            },
            WherePred::Opaque { .. } => {
                proof {
                    assert(pair_list_view(out@) =~= after_generics + spec_pairs_of_preds(
                        pred_list_view(m.where_bounds@.take(i + 1)),
                    ));
                }
            },
        }
        i = i + 1;
    }
    proof {
        assert(m.where_bounds@.take(m.where_bounds@.len() as int) =~= m.where_bounds@);
    }
    out
}

impl AsyncAwaitRemoval {
    /// The whole suspension-removal pass over one member: generic-bound
    /// erasure first, then the body rewrite.  The suspension modifier of
    /// the signature itself is the projector's to remove.
    pub fn remove_async_await(&self, m: &Member) -> (r: Member)
        ensures
            r@ == spec_remove_async_await(m@),
    {
        let pairs = collect_future_pairs(m);
        let ghost plv = pair_list_view(pairs@);
        let mut cur = m.dup();
        let mut i: usize = 0;
        while i < pairs.len()
            invariant
                i <= pairs.len(),
                plv == spec_collect_pairs(m@),
                plv == pair_list_view(pairs@),
                cur@ == spec_apply_pairs(m@, plv.take(i as int)),
            decreases pairs.len() - i,
        {
            proof {
                assert(plv.take(i + 1).drop_last() =~= plv.take(i as int));
                assert(plv.take(i + 1).last() == plv[i as int]);
            }
            cur = ReplaceGenericType::replace_generic_type(&cur, &pairs[i].0, &pairs[i].1);
            i = i + 1;
        }
        proof {
            assert(plv.take(plv.len() as int) =~= plv);
        }
        let body = match &cur.body {
            Some(stmts) => Some(self.visit_stmts(stmts)),
            None => None,
        };
        let r = Member {
            name: cur.name,
            is_suspending: cur.is_suspending,
            marked: cur.marked,
            recursion: cur.recursion,
            recursion_wrapped: cur.recursion_wrapped,
            generics: cur.generics,
            where_bounds: cur.where_bounds,
            params: cur.params,
            ret: cur.ret,
            body,
        };
        proof {
            if r.body is Some {
                lemma_strip_stmts(spec_erase_futures(m@).body->0);
                assert(r@.body->0 =~= spec_strip_stmts(spec_erase_futures(m@).body->0));
            }
        }
        r
    }
}

impl AsyncIdentAdder {
    /// The whole suspension-repointing pass over one member: the body
    /// rewrite alone.  The suspension modifier of the signature itself is
    /// the projector's to add.
    pub fn add_async_ident(&self, m: &Member) -> (r: Member)
        ensures
            r@ == spec_add_async_ident(m@),
    {
        let body = match &m.body {
            Some(stmts) => Some(self.visit_stmts(stmts)),
            None => None,
        };
        let r = Member {
            name: m.name.clone(),
            is_suspending: m.is_suspending,
            marked: m.marked,
            recursion: m.recursion,
            recursion_wrapped: m.recursion_wrapped,
            generics: dup_generics(&m.generics),
            where_bounds: dup_preds(&m.where_bounds),
            params: dup_params(&m.params),
            ret: dup_opt_type(&m.ret),
            body,
        };
        proof {
            assert(r@.generics =~= m@.generics);
            assert(r@.where_bounds =~= m@.where_bounds);
            assert(r@.params =~= m@.params);
            if r.body is Some {
                lemma_inject_stmts(m@.body->0);
                assert(r@.body->0 =~= spec_inject_stmts(m@.body->0));
            }
        }
        r
    }
}

} // verus!
