//! The two directional projectors and the dual-mode orchestrator.
//!
//! `convert_sync` projects one declaration to blocking form, `convert_async`
//! to suspension form, and `convert_trait` drives both per member so that the
//! two variants of a marked member can coexist.  Under dual emission the
//! renaming rules keep the emitted top-level names collision-free.

use vstd::prelude::*;

use crate::ast::{
    dup_generics, dup_opt_type, dup_params, dup_path, dup_preds, member_list_view, EnumDef, Expr,
    ImplDef, Item, Member, StructDef, TraitDef,
};
use crate::model::{NameView, SpecExpr, SpecItem, SpecMember};
use crate::suffix::{
    async_suffix, async_suffix_str, ident_add_suffix, spec_add_suffix, spec_strip_name, sync_tag,
    sync_tag_str,
};
use crate::visit::{
    spec_add_async_ident, spec_remove_async_await, AsyncAwaitRemoval, AsyncIdentAdder,
};

verus! {

/// The capability a suspension-capable trait wrapper is qualified with:
/// results either must be transferable across execution contexts or are
/// unconstrained.
#[derive(Clone, Copy, PartialEq, Eq, Structural, Debug)]
pub enum Capability {
    ConcurrencySafe,
    Unconstrained,
}

/// One emitted top-level declaration: the rewritten tree, and the
/// capability-qualified suspension wrapper to decorate it with, if any.
#[derive(Debug, PartialEq)]
pub struct Emitted {
    pub wrapper: Option<Capability>,
    pub item: Item,
}

/// The model of one emitted declaration.
pub struct SpecEmitted {
    pub wrapper: Option<Capability>,
    pub item: SpecItem,
}

impl View for Emitted {
    type V = SpecEmitted;

    open spec fn view(&self) -> SpecEmitted {
        SpecEmitted { wrapper: self.wrapper, item: self.item@ }
    }
}

/// The view of a list of emitted declarations, element by element.
pub open spec fn emitted_list_view(s: Seq<Emitted>) -> Seq<SpecEmitted> {
    Seq::new(s.len(), |i: int| s[i]@)
}

/// The shape refusal of the orchestrator: it accepts only a trait
/// declaration or a trait implementation.
#[derive(Clone, Copy, PartialEq, Eq, Structural, Debug)]
pub enum ShapeError {
    NotTraitShaped,
}

// ------------------------------------------------------------------
// The blocking projection, over the model.
// ------------------------------------------------------------------
/// One member projected to blocking form: the suspension modifier is
/// removed, the body is rewritten and eventual-value generics are erased;
/// a marked member additionally loses its mark and the deterministic
/// suffix of its name.
pub open spec fn spec_sync_member(m: SpecMember) -> SpecMember {
    let m1 = spec_remove_async_await(m);
    SpecMember {
        name: if m.marked {
            spec_strip_name(m.name)
        } else {
            m.name
        },
        is_suspending: false,
        marked: false,
        recursion: false,
        recursion_wrapped: false,
        ..m1
    }
}

/// A free function projected to blocking form: as `spec_sync_member`, with
/// the deterministic suffix stripped whether or not the function is marked.
pub open spec fn spec_sync_fn(m: SpecMember) -> SpecMember {
    let m1 = spec_remove_async_await(m);
    SpecMember {
        name: spec_strip_name(m.name),
        is_suspending: false,
        marked: false,
        recursion: false,
        recursion_wrapped: false,
        ..m1
    }
}

/// A member list projected to blocking form, element by element.
pub open spec fn spec_sync_members(ms: Seq<SpecMember>) -> Seq<SpecMember>
    decreases ms,
{
    if ms.len() == 0 {
        Seq::empty()
    } else {
        spec_sync_members(ms.drop_last()).push(spec_sync_member(ms.last()))
    }
}

/// `spec_sync_members` is the pointwise projection of its input.
pub broadcast proof fn lemma_sync_members(ms: Seq<SpecMember>)
    ensures
        (#[trigger] spec_sync_members(ms)).len() == ms.len(),
        forall|i: int| 0 <= i < ms.len() ==> spec_sync_members(ms)[i] == spec_sync_member(ms[i]),
    decreases ms,
{
    if ms.len() > 0 {
        lemma_sync_members(ms.drop_last());
    }
}

/// One declaration projected to blocking form.  `dual` says whether a
/// suspension-form sibling is emitted beside it; only then do struct, enum
/// and trait names receive the qualifying tag that keeps the two variants
/// collision-free.
pub open spec fn spec_convert_sync(item: SpecItem, dual: bool) -> SpecEmitted {
    match item {
        SpecItem::Trait { t } => SpecEmitted {
            wrapper: None,
            item: SpecItem::Trait {
                t: crate::model::SpecTraitDef {
                    name: if dual {
                        spec_add_suffix(t.name, sync_tag())
                    } else {
                        t.name
                    },
                    generics: t.generics,
                    members: spec_sync_members(t.members),
                },
            },
        },
        SpecItem::Struct { s } => SpecEmitted {
            wrapper: None,
            item: SpecItem::Struct {
                s: crate::model::SpecStructDef {
                    name: if dual {
                        spec_add_suffix(s.name, sync_tag())
                    } else {
                        s.name
                    },
                    generics: s.generics,
                },
            },
        },
        SpecItem::Enum { e } => SpecEmitted {
            wrapper: None,
            item: SpecItem::Enum {
                e: crate::model::SpecEnumDef {
                    name: if dual {
                        spec_add_suffix(e.name, sync_tag())
                    } else {
                        e.name
                    },
                    generics: e.generics,
                },
            },
        },
        SpecItem::Impl { i } => SpecEmitted {
            wrapper: None,
            item: SpecItem::Impl {
                i: crate::model::SpecImplDef {
                    target: i.target,
                    trait_ref: i.trait_ref,
                    members: spec_sync_members(i.members),
                },
            },
        },
        SpecItem::Fn { f } => SpecEmitted { wrapper: None, item: SpecItem::Fn { f: spec_sync_fn(f) } },
    }
}

// ------------------------------------------------------------------
// The suspension projection, over the model.
// ------------------------------------------------------------------
/// One marked member projected to suspension form: the suspension modifier
/// is added, the name receives the deterministic suffix, suspended
/// call-sites are repointed, and the mark is consumed.  The body is wrapped
/// in the recursion-safe adapter when the member's own mark or the global
/// flag asks for it.
pub open spec fn spec_async_member(m: SpecMember, recursion: bool) -> SpecMember {
    let m1 = spec_add_async_ident(m);
    SpecMember {
        name: spec_add_suffix(m.name, async_suffix()),
        is_suspending: true,
        marked: false,
        recursion: false,
        recursion_wrapped: recursion || m.recursion,
        ..m1
    }
}

/// A member list projected to suspension form: marked members are
/// projected, unmarked members pass through unchanged.
pub open spec fn spec_async_members(ms: Seq<SpecMember>, recursion: bool) -> Seq<SpecMember>
    decreases ms,
{
    if ms.len() == 0 {
        Seq::empty()
    } else {
        spec_async_members(ms.drop_last(), recursion).push(
            if ms.last().marked {
                spec_async_member(ms.last(), recursion)
            } else {
                ms.last()
            },
        )
    }
}

/// `spec_async_members` is the pointwise projection of its input.
pub broadcast proof fn lemma_async_members(ms: Seq<SpecMember>, recursion: bool)
    ensures
        (#[trigger] spec_async_members(ms, recursion)).len() == ms.len(),
        forall|i: int|
            0 <= i < ms.len() ==> spec_async_members(ms, recursion)[i] == (if ms[i].marked {
                spec_async_member(ms[i], recursion)
            } else {
                ms[i]
            }),
    decreases ms,
{
    if ms.len() > 0 {
        lemma_async_members(ms.drop_last(), recursion);
    }
}

/// The wrapper an emitted declaration carries in suspension form: traits
/// and trait implementations are decorated with the capability-qualified
/// suspension-capable trait wrapper, everything else with none.
pub open spec fn spec_async_wrapper(item: SpecItem, cap: Capability) -> Option<Capability> {
    match item {
        SpecItem::Trait { .. } => Some(cap),
        SpecItem::Impl { i } => if i.trait_ref is Some {
            Some(cap)
        } else {
            None
        },
        _ => None,
    }
}

/// One declaration projected to suspension form.  Marked members of an
/// implementation are repointed and suffixed; a trait passes through under
/// its wrapper; a free function is suffixed and repointed whole; structs
/// and enums are identities.
pub open spec fn spec_convert_async(item: SpecItem, cap: Capability, recursion: bool) -> SpecEmitted {
    match item {
        SpecItem::Impl { i } => SpecEmitted {
            wrapper: spec_async_wrapper(item, cap),
            item: SpecItem::Impl {
                i: crate::model::SpecImplDef {
                    target: i.target,
                    trait_ref: i.trait_ref,
                    members: spec_async_members(i.members, recursion),
                },
            },
        },
        SpecItem::Trait { .. } => SpecEmitted { wrapper: Some(cap), item },
        SpecItem::Struct { .. } => SpecEmitted { wrapper: None, item },
        SpecItem::Enum { .. } => SpecEmitted { wrapper: None, item },
        SpecItem::Fn { f } => SpecEmitted {
            wrapper: None,
            item: SpecItem::Fn { f: spec_async_member(f, recursion) },
        },
    }
}

// ------------------------------------------------------------------
// The dual-mode orchestrator, over the model.
// ------------------------------------------------------------------
/// Which variants the build materializes.
#[derive(Clone, Copy, PartialEq, Eq, Structural, Debug)]
pub struct BuildConfig {
    pub is_sync: bool,
    pub is_async: bool,
}

/// The suspension-form copy of one marked trait member.  A member declared
/// blocking and without a default body still receives a suspension-form
/// copy, with a synthesized diverging placeholder body: a trait's method
/// set must stay syntactically complete for implementers, who are expected
/// to override it.
pub open spec fn spec_dual_trait_member_async(m: SpecMember) -> SpecMember {
    if m.body is None && !m.is_suspending {
        SpecMember {
            name: spec_add_suffix(m.name, async_suffix()),
            is_suspending: true,
            marked: false,
            recursion: false,
            recursion_wrapped: false,
            body: Some(seq![SpecExpr::Placeholder]),
            ..m
        }
    } else {
        spec_async_member(m, false)
    }
}

/// The fan of one trait member under dual emission: a marked member yields
/// its suspension-form copy when the suspension variant is materialized and
/// its blocking copy when the blocking variant is, in that order; an
/// unmarked member passes through unchanged into every emitted variant.
pub open spec fn spec_dual_trait_member(m: SpecMember, cfg: BuildConfig) -> Seq<SpecMember> {
    if m.marked {
        (if cfg.is_async {
            seq![spec_dual_trait_member_async(m)]
        } else {
            Seq::empty()
        }) + (if cfg.is_sync {
            seq![spec_sync_member(m)]
        } else {
            Seq::empty()
        })
    } else {
        seq![m]
    }
}

/// The member list of a trait under dual emission.
pub open spec fn spec_dual_trait_members(ms: Seq<SpecMember>, cfg: BuildConfig) -> Seq<SpecMember>
    decreases ms,
{
    if ms.len() == 0 {
        Seq::empty()
    } else {
        spec_dual_trait_members(ms.drop_last(), cfg) + spec_dual_trait_member(ms.last(), cfg)
    }
}

/// The fan of one implementation member under dual emission: as for trait
/// members, except that no placeholder body is ever synthesized and the
/// member's own recursion mark selects the recursion-safe adapter.
pub open spec fn spec_dual_impl_member(m: SpecMember, cfg: BuildConfig) -> Seq<SpecMember> {
    if m.marked {
        (if cfg.is_async {
            seq![spec_async_member(m, false)]
        } else {
            Seq::empty()
        }) + (if cfg.is_sync {
            seq![spec_sync_member(m)]
        } else {
            Seq::empty()
        })
    } else {
        seq![m]
    }
}

/// The member list of an implementation under dual emission.
pub open spec fn spec_dual_impl_members(ms: Seq<SpecMember>, cfg: BuildConfig) -> Seq<SpecMember>
    decreases ms,
{
    if ms.len() == 0 {
        Seq::empty()
    } else {
        spec_dual_impl_members(ms.drop_last(), cfg) + spec_dual_impl_member(ms.last(), cfg)
    }
}

/// The orchestrator's output on a trait declaration or a trait
/// implementation: each marked member is fanned into the materialized
/// variants, and the declaration carries the capability-qualified wrapper
/// where suspension-capable methods need one.
pub open spec fn spec_convert_trait_output(item: SpecItem, cap: Capability, cfg: BuildConfig) -> SpecEmitted {
    match item {
        SpecItem::Trait { t } => SpecEmitted {
            wrapper: Some(cap),
            item: SpecItem::Trait {
                t: crate::model::SpecTraitDef {
                    name: t.name,
                    generics: t.generics,
                    members: spec_dual_trait_members(t.members, cfg),
                },
            },
        },
        SpecItem::Impl { i } => SpecEmitted {
            wrapper: spec_async_wrapper(item, cap),
            item: SpecItem::Impl {
                i: crate::model::SpecImplDef {
                    target: i.target,
                    trait_ref: i.trait_ref,
                    members: spec_dual_impl_members(i.members, cfg),
                },
            },
        },
        _ => SpecEmitted { wrapper: None, item },
    }
}

// ------------------------------------------------------------------
// Executable projectors.
// ------------------------------------------------------------------
/// One member projected to blocking form.
pub fn sync_member(m: &Member) -> (r: Member)
    ensures
        r@ == spec_sync_member(m@),
{
    let m1 = AsyncAwaitRemoval.remove_async_await(m);
    let name = if m.marked {
        crate::visit::strip_name(&m.name)
    } else {
        m.name.clone()
    };
    Member {
        name,
        is_suspending: false,
        marked: false,
        recursion: false,
        recursion_wrapped: false,
        generics: m1.generics,
        where_bounds: m1.where_bounds,
        params: m1.params,
        ret: m1.ret,
        body: m1.body,
    }
}

/// A free function projected to blocking form.
pub fn sync_fn(m: &Member) -> (r: Member)
    ensures
        r@ == spec_sync_fn(m@),
{
    let m1 = AsyncAwaitRemoval.remove_async_await(m);
    Member {
        name: crate::visit::strip_name(&m.name),
        is_suspending: false,
        marked: false,
        recursion: false,
        recursion_wrapped: false,
        generics: m1.generics,
        where_bounds: m1.where_bounds,
        params: m1.params,
        ret: m1.ret,
        body: m1.body,
    }
}

/// One marked member projected to suspension form.
pub fn async_member(m: &Member, recursion: bool) -> (r: Member)
    ensures
        r@ == spec_async_member(m@, recursion),
{
    let m1 = AsyncIdentAdder.add_async_ident(m);
    Member {
        name: ident_add_suffix(&m.name, async_suffix_str()),
        is_suspending: true,
        marked: false,
        recursion: false,
        recursion_wrapped: recursion || m.recursion,
        generics: m1.generics,
        where_bounds: m1.where_bounds,
        params: m1.params,
        ret: m1.ret,
        body: m1.body,
    }
}

/// The suspension-form copy of one marked trait member, synthesizing the
/// diverging placeholder body where the member was declared blocking with
/// no default.
pub fn dual_trait_member_async(m: &Member) -> (r: Member)
    ensures
        r@ == spec_dual_trait_member_async(m@),
{
    if m.body.is_none() && !m.is_suspending {
        let mut stmts: Vec<Expr> = Vec::new();
        stmts.push(Expr::Placeholder);
        let r = Member {
            name: ident_add_suffix(&m.name, async_suffix_str()),
            is_suspending: true,
            marked: false,
            recursion: false,
            recursion_wrapped: false,
            generics: dup_generics(&m.generics),
            where_bounds: dup_preds(&m.where_bounds),
            params: dup_params(&m.params),
            ret: dup_opt_type(&m.ret),
            body: Some(stmts),
        };
        proof {
            assert(r@.generics =~= m@.generics);
            assert(r@.where_bounds =~= m@.where_bounds);
            assert(r@.params =~= m@.params);
            assert(r@.body->0 =~= seq![SpecExpr::Placeholder]);
        }
        r
    } else {
        async_member(m, false)
    }
}

/// A member list projected to blocking form, element by element.
pub fn sync_members(v: &Vec<Member>) -> (r: Vec<Member>)
    ensures
        member_list_view(r@) == spec_sync_members(member_list_view(v@)),
{
    let mut out: Vec<Member> = Vec::new();
    let mut i: usize = 0;
    while i < v.len()
        invariant
            i <= v.len(),
            out@.len() == i,
            forall|j: int| 0 <= j < i ==> out@[j]@ == spec_sync_member(v@[j]@),
        decreases v.len() - i,
    {
        out.push(sync_member(&v[i]));
        i = i + 1;
    }
    proof {
        lemma_sync_members(member_list_view(v@));
        assert(member_list_view(out@) =~= spec_sync_members(member_list_view(v@)));
    }
    out
}

/// A member list projected to suspension form: marked members projected,
/// unmarked members passed through.
pub fn async_members(v: &Vec<Member>, recursion: bool) -> (r: Vec<Member>)
    ensures
        member_list_view(r@) == spec_async_members(member_list_view(v@), recursion),
{
    let mut out: Vec<Member> = Vec::new();
    let mut i: usize = 0;
    while i < v.len()
        invariant
            i <= v.len(),
            out@.len() == i,
            forall|j: int|
                0 <= j < i ==> out@[j]@ == (if v@[j]@.marked {
                    spec_async_member(v@[j]@, recursion)
                } else {
                    v@[j]@
                }),
        decreases v.len() - i,
    {
        if v[i].marked {
            out.push(async_member(&v[i], recursion));
        } else {
            out.push(v[i].dup());
        }
        i = i + 1;
    }
    proof {
        lemma_async_members(member_list_view(v@), recursion);
        assert(member_list_view(out@) =~= spec_async_members(member_list_view(v@), recursion));
    }
    out
}

/// One declaration projected to blocking form; under `dual` the struct,
/// enum and trait names receive the qualifying tag.
pub fn convert_sync(item: &Item, dual: bool) -> (r: Emitted)
    ensures
        r@ == spec_convert_sync(item@, dual),
{
    match item {
        Item::Trait(t) => {
            let name = if dual {
                ident_add_suffix(&t.name, sync_tag_str())
            } else {
                t.name.clone()
            };
            let r = Emitted {
                wrapper: None,
                item: Item::Trait(
                    TraitDef {
                        name,
                        generics: dup_generics(&t.generics),
                        members: sync_members(&t.members),
                    },
                ),
            };
            proof {
                assert(r.item->Trait_0@.generics =~= t@.generics);
            }
            r
        },
        Item::Struct(s) => {
            let name = if dual {
                ident_add_suffix(&s.name, sync_tag_str())
            } else {
                s.name.clone()
            };
            let r = Emitted {
                wrapper: None,
                item: Item::Struct(StructDef { name, generics: dup_generics(&s.generics) }),
            };
            proof {
                assert(r.item->Struct_0@.generics =~= s@.generics);
            }
            r
        },
        Item::Enum(e) => {
            let name = if dual {
                ident_add_suffix(&e.name, sync_tag_str())
            } else {
                e.name.clone()
            };
            let r = Emitted {
                wrapper: None,
                item: Item::Enum(EnumDef { name, generics: dup_generics(&e.generics) }),
            };
            proof {
                assert(r.item->Enum_0@.generics =~= e@.generics);
            }
            r
        },
        Item::Impl(i) => {
            let trait_ref = match &i.trait_ref {
                Some(p) => Some(dup_path(p)),
                None => None,
            };
            Emitted {
                wrapper: None,
                item: Item::Impl(
                    ImplDef {
                        target: i.target.dup(),
                        trait_ref,
                        members: sync_members(&i.members),
                    },
                ),
            }
        },
        Item::Fn(f) => Emitted { wrapper: None, item: Item::Fn(sync_fn(f)) },
    }
}

/// One declaration projected to suspension form, under the given
/// capability; `recursion` selects the recursion-safe adapter for every
/// projected member.
pub fn convert_async(item: &Item, cap: Capability, recursion: bool) -> (r: Emitted)
    ensures
        r@ == spec_convert_async(item@, cap, recursion),
{
    match item {
        Item::Impl(i) => {
            let wrapper = if i.trait_ref.is_some() {
                Some(cap)
            } else {
                None
            };
            let trait_ref = match &i.trait_ref {
                Some(p) => Some(dup_path(p)),
                None => None,
            };
            Emitted {
                wrapper,
                item: Item::Impl(
                    ImplDef {
                        target: i.target.dup(),
                        trait_ref,
                        members: async_members(&i.members, recursion),
                    },
                ),
            }
        },
        Item::Trait(t) => Emitted { wrapper: Some(cap), item: Item::Trait(t.dup()) },
        Item::Struct(s) => Emitted { wrapper: None, item: Item::Struct(s.dup()) },
        Item::Enum(e) => Emitted { wrapper: None, item: Item::Enum(e.dup()) },
        Item::Fn(f) => Emitted { wrapper: None, item: Item::Fn(async_member(f, recursion)) },
    }
}

/// The member list of a trait under dual emission.
pub fn dual_trait_members(v: &Vec<Member>, cfg: BuildConfig) -> (r: Vec<Member>)
    ensures
        member_list_view(r@) == spec_dual_trait_members(member_list_view(v@), cfg),
{
    let mut out: Vec<Member> = Vec::new();
    let mut i: usize = 0;
    while i < v.len()
        invariant
            i <= v.len(),
            member_list_view(out@) == spec_dual_trait_members(
                member_list_view(v@.take(i as int)),
                cfg,
            ),
        decreases v.len() - i,
    {
        proof {
            assert(member_list_view(v@.take(i + 1)).drop_last() =~= member_list_view(
                v@.take(i as int),
            ));
            assert(member_list_view(v@.take(i + 1)).last() == v@[i as int]@);
        }
        let ghost before = member_list_view(out@);
        if v[i].marked {
            if cfg.is_async {
                out.push(dual_trait_member_async(&v[i]));
            }
            if cfg.is_sync {
                out.push(sync_member(&v[i]));
            }
        } else {
            out.push(v[i].dup());
        }
        proof {
            assert(member_list_view(out@) =~= before + spec_dual_trait_member(v@[i as int]@, cfg));
            assert(member_list_view(out@) =~= spec_dual_trait_members(
                member_list_view(v@.take(i + 1)),
                cfg,
            ));
        }
        i = i + 1;
    }
    proof {
        assert(v@.take(v@.len() as int) =~= v@);
    }
    out
}

/// The member list of an implementation under dual emission.
pub fn dual_impl_members(v: &Vec<Member>, cfg: BuildConfig) -> (r: Vec<Member>)
    ensures
        member_list_view(r@) == spec_dual_impl_members(member_list_view(v@), cfg),
{
    let mut out: Vec<Member> = Vec::new();
    let mut i: usize = 0;
    while i < v.len()
        invariant
            i <= v.len(),
            member_list_view(out@) == spec_dual_impl_members(
                member_list_view(v@.take(i as int)),
                cfg,
            ),
        decreases v.len() - i,
    {
        proof {
            assert(member_list_view(v@.take(i + 1)).drop_last() =~= member_list_view(
                v@.take(i as int),
            ));
            assert(member_list_view(v@.take(i + 1)).last() == v@[i as int]@);
        }
        let ghost before = member_list_view(out@);
        if v[i].marked {
            if cfg.is_async {
                out.push(async_member(&v[i], false));
            }
            if cfg.is_sync {
                out.push(sync_member(&v[i]));
            }
        } else {
            out.push(v[i].dup());
        }
        proof {
            assert(member_list_view(out@) =~= before + spec_dual_impl_member(v@[i as int]@, cfg));
            assert(member_list_view(out@) =~= spec_dual_impl_members(
                member_list_view(v@.take(i + 1)),
                cfg,
            ));
        }
        i = i + 1;
    }
    proof {
        assert(v@.take(v@.len() as int) =~= v@);
    }
    out
}

/// The dual-mode orchestrator: accepts a trait declaration or a trait
/// implementation, fans each marked member into the materialized variants,
/// and refuses every other shape.
pub fn convert_trait(item: &Item, cap: Capability, cfg: BuildConfig) -> (r: Result<
    Emitted,
    ShapeError,
>)
    ensures
        match r {
            Ok(em) => (item@ is Trait || item@ is Impl) && em@ == spec_convert_trait_output(
                item@,
                cap,
                cfg,
            ),
            Err(e) => !(item@ is Trait || item@ is Impl) && e == ShapeError::NotTraitShaped,
        },
{
    match item {
        Item::Trait(t) => {
            let r = Emitted {
                wrapper: Some(cap),
                item: Item::Trait(
                    TraitDef {
                        name: t.name.clone(),
                        generics: dup_generics(&t.generics),
                        members: dual_trait_members(&t.members, cfg),
                    },
                ),
            };
            proof {
                assert(r.item->Trait_0@.generics =~= t@.generics);
            }
            Ok(r)
        },
        Item::Impl(i) => {
            let wrapper = if i.trait_ref.is_some() {
                Some(cap)
            } else {
                None
            };
            let trait_ref = match &i.trait_ref {
                Some(p) => Some(dup_path(p)),
                None => None,
            };
            Ok(
                Emitted {
                    wrapper,
                    item: Item::Impl(
                        ImplDef {
                            target: i.target.dup(),
                            trait_ref,
                            members: dual_impl_members(&i.members, cfg),
                        },
                    ),
                },
            )
        },
        _ => Err(ShapeError::NotTraitShaped),
    }
}

// ------------------------------------------------------------------
// The round trip.
// ------------------------------------------------------------------
/// A member as an author writes it in blocking form: no suspension
/// modifier, no recursion adapter, a body free of suspension machinery
/// whose call-site identifiers carry no deterministic suffix, and no
/// eventual-value bound to erase.
pub open spec fn spec_pristine_member(m: SpecMember) -> bool {
    &&& !m.is_suspending
    &&& !m.recursion
    &&& !m.recursion_wrapped
    &&& (m.body matches Some(ss) ==> crate::visit::spec_blocking_stmts(ss)
        && crate::visit::spec_unsuffixed_stmts(ss))
    &&& crate::visit::spec_collect_pairs(m) == Seq::<(NameView, crate::model::SpecTypeRef)>::empty()
}

/// The suspension projection of a pristine member undone by the blocking
/// projection: the body and signature return exactly; the mark is
/// consumed, and the name keeps the deterministic suffix that coexistence
/// bookkeeping added — and nothing else changes.
pub proof fn lemma_member_round_trip(m: SpecMember)
    requires
        spec_pristine_member(m),
    ensures
        spec_sync_member(spec_async_member(m, false)) == (SpecMember {
            name: spec_add_suffix(m.name, async_suffix()),
            marked: false,
            ..m
        }),
{
    let m1 = spec_async_member(m, false);
    if m.body is Some {
        crate::visit::lemma_inject_blocking_identity_stmts(m.body->0);
        crate::visit::lemma_strip_clean_identity_stmts(m.body->0);
    }
    assert(crate::visit::spec_collect_pairs(m1) =~= crate::visit::spec_collect_pairs(m));
}

/// The suspension projection of a pristine, unmarked function undone by
/// the blocking projection: the function returns exactly, deterministic
/// suffix included, because the blocking projection of a free function
/// always strips it.
pub proof fn lemma_fn_round_trip(m: SpecMember)
    requires
        spec_pristine_member(m),
        !m.marked,
    ensures
        spec_sync_fn(spec_async_member(m, false)) == m,
{
    let m1 = spec_async_member(m, false);
    if m.body is Some {
        crate::visit::lemma_inject_blocking_identity_stmts(m.body->0);
        crate::visit::lemma_strip_clean_identity_stmts(m.body->0);
    }
    assert(crate::visit::spec_collect_pairs(m1) =~= crate::visit::spec_collect_pairs(m));
    crate::suffix::lemma_suffix_round_trip(m.name, async_suffix());
}

/// A declaration as an author writes it in blocking form: every
/// member-shaped unit is pristine and unmarked.
pub open spec fn spec_pristine_item(item: SpecItem) -> bool {
    match item {
        SpecItem::Fn { f } => spec_pristine_member(f) && !f.marked,
        SpecItem::Trait { t } => forall|i: int|
            0 <= i < t.members.len() ==> spec_pristine_member(#[trigger] t.members[i])
                && !t.members[i].marked,
        SpecItem::Impl { i } => forall|j: int|
            0 <= j < i.members.len() ==> spec_pristine_member(#[trigger] i.members[j])
                && !i.members[j].marked,
        SpecItem::Struct { .. } => true,
        SpecItem::Enum { .. } => true,
    }
}

/// One unmarked pristine member is a fixed point of the blocking
/// projection.
proof fn lemma_sync_member_identity(m: SpecMember)
    requires
        spec_pristine_member(m),
        !m.marked,
    ensures
        spec_sync_member(m) == m,
{
    if m.body is Some {
        crate::visit::lemma_strip_clean_identity_stmts(m.body->0);
    }
}

/// Round trip: projecting a pristine blocking declaration to suspension
/// form and back to blocking form yields the original tree exactly; the
/// suffix bookkeeping that dual emission would add is confined to marked
/// members, which a pristine declaration does not have.
pub proof fn lemma_round_trip(item: SpecItem, cap: Capability)
    requires
        spec_pristine_item(item),
    ensures
        spec_convert_sync(spec_convert_async(item, cap, false).item, false).item == item,
{
    match item {
        SpecItem::Fn { f } => {
            lemma_fn_round_trip(f);
        },
        SpecItem::Trait { t } => {
            lemma_sync_members(t.members);
            assert forall|i: int| 0 <= i < t.members.len() implies spec_sync_member(
                #[trigger] t.members[i],
            ) == t.members[i] by {
                lemma_sync_member_identity(t.members[i]);
            }
            assert(spec_sync_members(t.members) =~= t.members);
        },
        SpecItem::Impl { i } => {
            lemma_async_members(i.members, false);
            assert(spec_async_members(i.members, false) =~= i.members);
            lemma_sync_members(i.members);
            assert forall|j: int| 0 <= j < i.members.len() implies spec_sync_member(
                #[trigger] i.members[j],
            ) == i.members[j] by {
                lemma_sync_member_identity(i.members[j]);
            }
            assert(spec_sync_members(i.members) =~= i.members);
        },
        SpecItem::Struct { .. } => {},
        SpecItem::Enum { .. } => {},
    }
}

/// Appends the given suffix to the head name of an implementation's target
/// type.
pub fn impl_add_suffix(input: &mut ImplDef, suffix: &str)
    ensures
        final(input)@ == (crate::model::SpecImplDef {
            target: crate::model::SpecTypeRef {
                head: spec_add_suffix(old(input)@.target.head, suffix@),
                args: old(input)@.target.args,
            },
            ..old(input)@
        }),
{
    let new_head = ident_add_suffix(&input.target.head, suffix);
    input.target.head = new_head;
}

} // verus!
