//! The mode-selection surface: maps the externally named modes and their
//! string-valued flags onto the projectors and the orchestrator, and fans
//! one test declaration out into guarded per-condition copies.

use vstd::prelude::*;

use crate::ast::{path_view, Item};
use crate::convert::{
    convert_async, convert_sync, convert_trait, emitted_list_view, spec_convert_async,
    spec_convert_sync, spec_convert_trait_output, BuildConfig, Capability, Emitted, SpecEmitted,
};
use crate::model::{NameView, SpecItem};
use crate::suffix::spec_add_suffix;

verus! {

/// The parsed flags of a dual-mode invocation: the capability choice and
/// whether the recursion-safe adapter is asked for.
#[derive(Clone, Copy, PartialEq, Eq, Structural, Debug)]
pub struct ModeFlags {
    pub cap: Capability,
    pub recursion: bool,
}

/// An argument error of the mode-selection surface.
#[derive(Clone, Copy, PartialEq, Eq, Structural, Debug)]
pub enum ModeError {
    /// A capability flag that is none of the accepted words.
    UnknownFlag,
    /// A dual-mode flag list entry that is none of the accepted words; the
    /// index names the offending entry.
    UnknownDualFlag { index: usize },
    /// The orchestrator accepts only a trait or a trait implementation.
    NotTraitShaped,
    /// A test fan-out needs at least the blocking build condition.
    EmptyTestArgs,
    /// The first test fan-out argument must be a bare condition.
    FirstArgNotCondition,
    /// A later test fan-out argument must be a suspension group; the index
    /// names the offending entry.
    PlainAfterFirst { index: usize },
    /// A suspension group must be named `async`; the index names the
    /// offending entry.
    NotAsyncGroup { index: usize },
    /// A suspension group must pair one condition with one test-entry
    /// name; the index names the offending entry, `found` how many parts
    /// it had.
    BadAsyncArity { index: usize, found: usize },
}

impl ModeError {
    /// The diagnostic text of this error.
    pub fn message(&self) -> (r: &'static str)
        ensures
            match self {
                ModeError::UnknownFlag => r@ == "only `Send` or `?Send` is accepted"@,
                ModeError::UnknownDualFlag { .. } => r@
                    == "only `Send`, `?Send`, or `Recursion` is accepted"@,
                ModeError::NotTraitShaped => r@ == "only a trait or a trait impl is accepted"@,
                ModeError::EmptyTestArgs => r@
                    == "at least the condition for blocking code is required"@,
                ModeError::FirstArgNotCondition => r@
                    == "the first argument must be a build condition"@,
                ModeError::PlainAfterFirst { .. } => r@
                    == "expected a group like `async(condition, test_entry)`"@,
                ModeError::NotAsyncGroup { .. } => r@ == "the group must be named `async`"@,
                ModeError::BadAsyncArity { .. } => r@
                    == "a group pairs exactly one condition with one test entry"@,
            },
    {
        match self {
            ModeError::UnknownFlag => "only `Send` or `?Send` is accepted",
            ModeError::UnknownDualFlag { .. } => "only `Send`, `?Send`, or `Recursion` is accepted",
            ModeError::NotTraitShaped => "only a trait or a trait impl is accepted",
            ModeError::EmptyTestArgs => "at least the condition for blocking code is required",
            ModeError::FirstArgNotCondition => "the first argument must be a build condition",
            ModeError::PlainAfterFirst { .. } => "expected a group like `async(condition, test_entry)`",
            ModeError::NotAsyncGroup { .. } => "the group must be named `async`",
            ModeError::BadAsyncArity { .. } => "a group pairs exactly one condition with one test entry",
        }
    }
}

// ------------------------------------------------------------------
// Flag words.
// ------------------------------------------------------------------
/// The capability selected by one flag word standing alone: the default
/// (empty) and `Send` choose the concurrency-safe capability, `?Send` the
/// unconstrained one, and anything else is refused.
pub open spec fn spec_parse_send(s: NameView) -> Option<Capability> {
    if s == ""@ || s == "Send"@ {
        Some(Capability::ConcurrencySafe)
    } else if s == "?Send"@ {
        Some(Capability::Unconstrained)
    } else {
        None
    }
}

/// The state of the dual-mode flag list after its first `k` words: the
/// capability choice seen so far (none yet, if no word chose one) and
/// whether the recursion word occurred; or the index of the first word
/// that is none of the accepted ones.
pub open spec fn spec_parse_dual_flags(args: Seq<NameView>) -> Result<(Option<bool>, bool), int>
    decreases args,
{
    if args.len() == 0 {
        Ok((None, false))
    } else {
        match spec_parse_dual_flags(args.drop_last()) {
            Err(i) => Err(i),
            Ok((send, recursion)) => {
                let a = args.last();
                if a == "Send"@ {
                    Ok((Some(true), recursion))
                } else if a == "?Send"@ {
                    Ok((Some(false), recursion))
                } else if a == "Recursion"@ {
                    Ok((send, true))
                } else if a == ""@ {
                    Ok((send, recursion))
                } else {
                    Err(args.len() - 1)
                }
            },
        }
    }
}

/// The parsed dual-mode flags: the capability defaults to concurrency-safe
/// where no word chose one.
pub open spec fn spec_dual_flags(args: Seq<NameView>) -> Result<ModeFlags, int> {
    match spec_parse_dual_flags(args) {
        Err(i) => Err(i),
        Ok((send, recursion)) => Ok(
            ModeFlags {
                cap: if send == Some(false) {
                    Capability::Unconstrained
                } else {
                    Capability::ConcurrencySafe
                },
                recursion,
            },
        ),
    }
}

/// A flag-list error stays whatever follows it: parsing is refused at the
/// first unaccepted word.
proof fn lemma_dual_flags_error_persists(args: Seq<NameView>, j: int)
    requires
        0 <= j <= args.len(),
        spec_parse_dual_flags(args.take(j)) is Err,
    ensures
        spec_parse_dual_flags(args) == spec_parse_dual_flags(args.take(j)),
    decreases args.len(),
{
    if args.len() > j {
        assert(args.drop_last().take(j) =~= args.take(j));
        lemma_dual_flags_error_persists(args.drop_last(), j);
    } else {
        assert(args.take(j) =~= args);
    }
}

/// Parse one capability flag word.
pub fn parse_send_flag(arg: &String) -> (r: Result<Capability, ModeError>)
    ensures
        match r {
            Ok(cap) => spec_parse_send(arg@) == Some(cap),
            Err(e) => spec_parse_send(arg@) is None && e == ModeError::UnknownFlag,
        },
{
    if arg.eq(&String::from_str("")) || arg.eq(&String::from_str("Send")) {
        Ok(Capability::ConcurrencySafe)
    } else if arg.eq(&String::from_str("?Send")) {
        Ok(Capability::Unconstrained)
    } else {
        proof {
            reveal_strlit("");
        }
        Err(ModeError::UnknownFlag)
    }
}

/// Parse the flag list of a dual-mode invocation.
pub fn parse_dual_flags(args: &Vec<String>) -> (r: Result<ModeFlags, ModeError>)
    ensures
        match r {
            Ok(f) => spec_dual_flags(path_view(args@)) == Ok::<ModeFlags, int>(f),
            Err(e) => e matches ModeError::UnknownDualFlag { index } && spec_dual_flags(
                path_view(args@),
            ) == Err::<ModeFlags, int>(index as int),
        },
{
    let ghost pv = path_view(args@);
    let mut send: Option<bool> = None;
    let mut recursion: bool = false;
    let mut i: usize = 0;
    while i < args.len()
        invariant
            i <= args.len(),
            pv == path_view(args@),
            spec_parse_dual_flags(pv.take(i as int)) == Ok::<(Option<bool>, bool), int>(
                (send, recursion),
            ),
        decreases args.len() - i,
    {
        proof {
            assert(pv.take(i + 1).drop_last() =~= pv.take(i as int));
            assert(pv.take(i + 1).last() == args@[i as int]@);
        }
        if args[i].eq(&String::from_str("Send")) {
            send = Some(true);
        } else if args[i].eq(&String::from_str("?Send")) {
            send = Some(false);
        } else if args[i].eq(&String::from_str("Recursion")) {
            recursion = true;
        } else if args[i].eq(&String::from_str("")) {
        } else {
            proof {
                lemma_dual_flags_error_persists(pv, i + 1);
            }
            return Err(ModeError::UnknownDualFlag { index: i });
        }
        i = i + 1;
    }
    proof {
        assert(pv.take(args@.len() as int) =~= pv);
    }
    Ok(
        ModeFlags {
            cap: match send {
                Some(false) => Capability::Unconstrained,
                _ => Capability::ConcurrencySafe,
            },
            recursion,
        },
    )
}

// ------------------------------------------------------------------
// The externally named modes.
// ------------------------------------------------------------------
/// Which projector or projectors an invocation selects: suspension form
/// always, blocking form always, or whichever variants the build
/// materializes — with the recursion-safe adapter on request.
#[derive(Clone, Copy, PartialEq, Eq, Structural, Debug)]
pub enum TransformMode {
    ForceAsync(Capability),
    ForceSync,
    Dual(Capability, bool),
}

/// What dual-mode emission produces: the blocking variant, the suspension
/// variant, both — blocking first — or nothing, per the build
/// configuration.  Renaming for coexistence is active exactly when both
/// are materialized.
pub open spec fn spec_both_output(
    item: SpecItem,
    cap: Capability,
    recursion: bool,
    cfg: BuildConfig,
) -> Seq<SpecEmitted> {
    if cfg.is_sync && cfg.is_async {
        seq![spec_convert_sync(item, true), spec_convert_async(item, cap, recursion)]
    } else if cfg.is_sync {
        seq![spec_convert_sync(item, false)]
    } else if cfg.is_async {
        seq![spec_convert_async(item, cap, recursion)]
    } else {
        Seq::empty()
    }
}

/// What one declaration becomes under a transform mode: the forced modes
/// run their one projector whatever the build materializes, and the dual
/// mode emits per the build configuration.
pub open spec fn spec_apply_mode(item: SpecItem, mode: TransformMode, cfg: BuildConfig) -> Seq<
    SpecEmitted,
> {
    match mode {
        TransformMode::ForceSync => seq![spec_convert_sync(item, false)],
        TransformMode::ForceAsync(cap) => seq![spec_convert_async(item, cap, false)],
        TransformMode::Dual(cap, recursion) => spec_both_output(item, cap, recursion, cfg),
    }
}

/// Run the projector or projectors a transform mode selects over one
/// declaration.
pub fn apply_mode(item: &Item, mode: TransformMode, cfg: BuildConfig) -> (r: Vec<Emitted>)
    ensures
        emitted_list_view(r@) == spec_apply_mode(item@, mode, cfg),
{
    let mut out: Vec<Emitted> = Vec::new();
    match mode {
        TransformMode::ForceSync => {
            out.push(convert_sync(item, false));
        },
        TransformMode::ForceAsync(cap) => {
            out.push(convert_async(item, cap, false));
        },
        TransformMode::Dual(cap, recursion) => {
            if cfg.is_sync && cfg.is_async {
                out.push(convert_sync(item, true));
                out.push(convert_async(item, cap, recursion));
            } else if cfg.is_sync {
                out.push(convert_sync(item, false));
            } else if cfg.is_async {
                out.push(convert_async(item, cap, recursion));
            }
        },
    }
    proof {
        assert(emitted_list_view(out@) =~= spec_apply_mode(item@, mode, cfg));
    }
    out
}

/// Dual-mode emission: project one declaration into whichever of the two
/// variants the build materializes, under the given flag list.
pub fn both(args: &Vec<String>, item: &Item, cfg: BuildConfig) -> (r: Result<
    Vec<Emitted>,
    ModeError,
>)
    ensures
        match r {
            Ok(out) => spec_dual_flags(path_view(args@)) matches Ok(f) && emitted_list_view(out@)
                == spec_both_output(item@, f.cap, f.recursion, cfg),
            Err(e) => e matches ModeError::UnknownDualFlag { index } && spec_dual_flags(
                path_view(args@),
            ) == Err::<ModeFlags, int>(index as int),
        },
{
    let flags = match parse_dual_flags(args) {
        Ok(f) => f,
        Err(e) => {
            return Err(e);
        },
    };
    Ok(apply_mode(item, TransformMode::Dual(flags.cap, flags.recursion), cfg))
}

/// The suspension-capable trait mode: the orchestrator under one
/// capability flag.
pub fn async_trait(arg: &String, item: &Item, cfg: BuildConfig) -> (r: Result<Emitted, ModeError>)
    ensures
        match r {
            Ok(em) => spec_parse_send(arg@) matches Some(cap) && (item@ is Trait || item@ is Impl)
                && em@ == spec_convert_trait_output(item@, cap, cfg),
            Err(e) => (e == ModeError::UnknownFlag && spec_parse_send(arg@) is None) || (e
                == ModeError::NotTraitShaped && spec_parse_send(arg@) is Some && !(item@ is Trait
                || item@ is Impl)),
        },
{
    let cap = match parse_send_flag(arg) {
        Ok(c) => c,
        Err(e) => {
            return Err(e);
        },
    };
    match convert_trait(item, cap, cfg) {
        Ok(em) => Ok(em),
        Err(_) => Err(ModeError::NotTraitShaped),
    }
}

/// The always-suspension mode: project to suspension form, whatever the
/// build configuration.
pub fn must_be_async(arg: &String, item: &Item) -> (r: Result<Emitted, ModeError>)
    ensures
        match r {
            Ok(em) => spec_parse_send(arg@) matches Some(cap) && em@ == spec_convert_async(
                item@,
                cap,
                false,
            ),
            Err(e) => spec_parse_send(arg@) is None && e == ModeError::UnknownFlag,
        },
{
    let cap = match parse_send_flag(arg) {
        Ok(c) => c,
        Err(e) => {
            return Err(e);
        },
    };
    Ok(convert_async(item, cap, false))
}

/// The always-blocking mode: project to blocking form, whatever the build
/// configuration.
pub fn must_be_sync(item: &Item) -> (r: Emitted)
    ensures
        r@ == spec_convert_sync(item@, false),
{
    convert_sync(item, false)
}

/// The condition-gated blocking mode: the blocking projection when the
/// blocking variant is materialized, and nothing otherwise.
pub fn sync_impl(item: &Item, cfg: BuildConfig) -> (r: Option<Emitted>)
    ensures
        match r {
            Some(em) => cfg.is_sync && em@ == spec_convert_sync(item@, false),
            None => !cfg.is_sync,
        },
{
    if cfg.is_sync {
        Some(convert_sync(item, false))
    } else {
        None
    }
}

/// The condition-gated suspension mode: the suspension projection when the
/// suspension variant is materialized, and nothing otherwise.  The flag is
/// checked either way.
pub fn async_impl(arg: &String, item: &Item, cfg: BuildConfig) -> (r: Result<
    Option<Emitted>,
    ModeError,
>)
    ensures
        match r {
            Ok(out) => spec_parse_send(arg@) matches Some(cap) && match out {
                Some(em) => cfg.is_async && em@ == spec_convert_async(item@, cap, false),
                None => !cfg.is_async,
            },
            Err(e) => spec_parse_send(arg@) is None && e == ModeError::UnknownFlag,
        },
{
    let cap = match parse_send_flag(arg) {
        Ok(c) => c,
        Err(e) => {
            return Err(e);
        },
    };
    if cfg.is_async {
        Ok(Some(convert_async(item, cap, false)))
    } else {
        Ok(None)
    }
}

// ------------------------------------------------------------------
// The test fan-out.
// ------------------------------------------------------------------
/// One argument of the test fan-out: a bare build condition, or a named
/// group pairing further conditions with a test-entry name.
#[derive(Debug, PartialEq)]
pub enum TestArg {
    Plain { cond: String },
    Group { name: String, items: Vec<String> },
}

/// The model of one test fan-out argument.
pub enum SpecTestArg {
    Plain { cond: NameView },
    Group { name: NameView, items: Seq<NameView> },
}

impl View for TestArg {
    type V = SpecTestArg;

    open spec fn view(&self) -> SpecTestArg {
        match self {
            TestArg::Plain { cond } => SpecTestArg::Plain { cond: cond@ },
            TestArg::Group { name, items } => SpecTestArg::Group {
                name: name@,
                items: path_view(items@),
            },
        }
    }
}

/// The view of a test fan-out argument list, element by element.
pub open spec fn test_arg_list_view(s: Seq<TestArg>) -> Seq<SpecTestArg> {
    Seq::new(s.len(), |i: int| s[i]@)
}

/// One guarded copy of the test body: its build condition, and the
/// test-entry decoration to run it with — none for the blocking copy,
/// which uses the plain test entry.
#[derive(Debug, PartialEq)]
pub struct GuardedCopy {
    pub cond: String,
    pub entry: Option<String>,
}

/// The model of one guarded copy.
pub struct SpecGuardedCopy {
    pub cond: NameView,
    pub entry: Option<NameView>,
}

impl View for GuardedCopy {
    type V = SpecGuardedCopy;

    open spec fn view(&self) -> SpecGuardedCopy {
        SpecGuardedCopy {
            cond: self.cond@,
            entry: match &self.entry {
                Some(e) => Some(e@),
                None => None,
            },
        }
    }
}

/// The view of a guarded copy list, element by element.
pub open spec fn copy_list_view(s: Seq<GuardedCopy>) -> Seq<SpecGuardedCopy> {
    Seq::new(s.len(), |i: int| s[i]@)
}

/// The test fan-out's result: the guarded copies — one per declared build
/// condition, each gated by its own condition — and the disjunction of all
/// conditions gating the emission as a whole, so that no dead code is
/// produced when every condition is false.
#[derive(Debug, PartialEq)]
pub struct TestExpansion {
    pub copies: Vec<GuardedCopy>,
    pub guard: Vec<String>,
}

/// The model of a test fan-out result.
pub struct SpecTestExpansion {
    pub copies: Seq<SpecGuardedCopy>,
    pub guard: Seq<NameView>,
}

impl View for TestExpansion {
    type V = SpecTestExpansion;

    open spec fn view(&self) -> SpecTestExpansion {
        SpecTestExpansion { copies: copy_list_view(self.copies@), guard: path_view(self.guard@) }
    }
}

/// The name that a suspension group must carry.
pub open spec fn async_group_name() -> NameView {
    "async"@
}

/// The suspension copies and conditions contributed by the arguments
/// before position `i`, the first argument excluded; or the first
/// argument error among them.
pub open spec fn spec_test_groups(args: Seq<SpecTestArg>, i: int) -> Result<
    (Seq<SpecGuardedCopy>, Seq<NameView>),
    ModeError,
>
    decreases i,
{
    if i <= 1 {
        Ok((Seq::empty(), Seq::empty()))
    } else {
        match spec_test_groups(args, i - 1) {
            Err(e) => Err(e),
            Ok((cs, ds)) => match args[i - 1] {
                SpecTestArg::Plain { .. } => Err(
                    ModeError::PlainAfterFirst { index: (i - 1) as usize },
                ),
                SpecTestArg::Group { name, items } => {
                    if name != async_group_name() {
                        Err(ModeError::NotAsyncGroup { index: (i - 1) as usize })
                    } else if items.len() != 2 {
                        Err(
                            ModeError::BadAsyncArity {
                                index: (i - 1) as usize,
                                found: items.len() as usize,
                            },
                        )
                    } else {
                        Ok(
                            (
                                cs.push(SpecGuardedCopy { cond: items[0], entry: Some(items[1]) }),
                                ds.push(items[0]),
                            ),
                        )
                    }
                },
            },
        }
    }
}

/// A group error stays whatever follows it: the fan-out is refused at the
/// first malformed argument.
proof fn lemma_test_groups_error_persists(args: Seq<SpecTestArg>, j: int, i: int)
    requires
        1 <= j <= i,
        spec_test_groups(args, j) is Err,
    ensures
        spec_test_groups(args, i) == spec_test_groups(args, j),
    decreases i,
{
    if i > j {
        lemma_test_groups_error_persists(args, j, i - 1);
    }
}

/// The whole test fan-out over the model: the first argument is the
/// blocking build condition; every further argument pairs a suspension
/// condition with its test-entry name; the copies come out in argument
/// order, blocking first, and the guard holds every condition.
pub open spec fn spec_test_expansion(args: Seq<SpecTestArg>) -> Result<
    SpecTestExpansion,
    ModeError,
> {
    if args.len() == 0 {
        Err(ModeError::EmptyTestArgs)
    } else {
        match args[0] {
            SpecTestArg::Group { .. } => Err(ModeError::FirstArgNotCondition),
            SpecTestArg::Plain { cond } => match spec_test_groups(args, args.len() as int) {
                Err(e) => Err(e),
                Ok((cs, ds)) => Ok(
                    SpecTestExpansion {
                        copies: seq![SpecGuardedCopy { cond, entry: None }] + cs,
                        guard: seq![cond] + ds,
                    },
                ),
            },
        }
    }
}

/// Under dual emission, the set of emitted top-level names contains no
/// duplicates: whenever two declarations come out of one input, any
/// top-level name the one binds differs from any the other binds.  The
/// blocking variant of a type carries the qualifying tag, the suspension
/// variant of a function the deterministic suffix, and each decoration
/// strictly lengthens the name that the sibling keeps or shortens.
pub proof fn lemma_dual_no_name_collision(
    item: SpecItem,
    cap: Capability,
    recursion: bool,
    cfg: BuildConfig,
)
    ensures
        ({
            let out = spec_both_output(item, cap, recursion, cfg);
            forall|a: int, b: int|
                0 <= a < b < out.len() && out[a].item.top_name() is Some
                    && out[b].item.top_name() is Some ==> out[a].item.top_name()
                    != out[b].item.top_name()
        }),
{
    let out = spec_both_output(item, cap, recursion, cfg);
    if cfg.is_sync && cfg.is_async {
        reveal_strlit("Sync");
        reveal_strlit("_async");
        crate::suffix::lemma_suffix_lengths(item.top_name()->0, crate::suffix::sync_tag());
        match item {
            SpecItem::Fn { f } => {
                crate::suffix::lemma_suffix_lengths(f.name, crate::suffix::async_suffix());
                crate::suffix::lemma_suffix_lengths(
                    spec_add_suffix(f.name, crate::suffix::async_suffix()),
                    crate::suffix::async_suffix(),
                );
                assert(out[0].item.top_name()->0.len() <= f.name.len());
                assert(out[1].item.top_name()->0.len() > f.name.len());
            },
            _ => {},
        }
    }
}

/// Fan one test declaration out into guarded per-condition copies: one
/// blocking copy under the first argument's condition, and one suspension
/// copy per `async(condition, test_entry)` group.
pub fn test(args: &Vec<TestArg>) -> (r: Result<TestExpansion, ModeError>)
    ensures
        match r {
            Ok(out) => spec_test_expansion(test_arg_list_view(args@)) == Ok::<
                SpecTestExpansion,
                ModeError,
            >(out@),
            Err(e) => spec_test_expansion(test_arg_list_view(args@)) == Err::<
                SpecTestExpansion,
                ModeError,
            >(e),
        },
{
    let ghost av = test_arg_list_view(args@);
    if args.len() == 0 {
        return Err(ModeError::EmptyTestArgs);
    }
    let sync_cond = match &args[0] {
        TestArg::Group { .. } => {
            return Err(ModeError::FirstArgNotCondition);
        },
        TestArg::Plain { cond } => cond.clone(),
    };
    let mut copies: Vec<GuardedCopy> = Vec::new();
    let mut guard: Vec<String> = Vec::new();
    copies.push(GuardedCopy { cond: sync_cond.clone(), entry: None });
    guard.push(sync_cond);
    let mut i: usize = 1;
    while i < args.len()
        invariant
            1 <= i <= args.len(),
            av == test_arg_list_view(args@),
            av.len() == args@.len(),
            copies@.len() > 0,
            guard@.len() > 0,
            av[0] matches SpecTestArg::Plain { cond } && copies@[0]@ == (SpecGuardedCopy {
                cond,
                entry: None,
            }) && guard@[0]@ == cond,
            spec_test_groups(av, i as int) matches Ok(p) && copy_list_view(copies@.drop_first())
                == p.0 && path_view(guard@.drop_first()) == p.1,
        decreases args.len() - i,
    {
        match &args[i] {
            TestArg::Plain { .. } => {
                proof {
                    lemma_test_groups_error_persists(av, i + 1, av.len() as int);
                }
                return Err(ModeError::PlainAfterFirst { index: i });
            },
            TestArg::Group { name, items } => {
                if !name.eq(&String::from_str("async")) {
                    proof {
                        lemma_test_groups_error_persists(av, i + 1, av.len() as int);
                    }
                    return Err(ModeError::NotAsyncGroup { index: i });
                }
                if items.len() != 2 {
                    proof {
                        lemma_test_groups_error_persists(av, i + 1, av.len() as int);
                    }
                    return Err(ModeError::BadAsyncArity { index: i, found: items.len() });
                }
                copies.push(GuardedCopy { cond: items[0].clone(), entry: Some(items[1].clone()) });
                guard.push(items[0].clone());
                proof {
                    let p = spec_test_groups(av, i as int)->Ok_0;
                    assert(copy_list_view(copies@.drop_first()) =~= p.0.push(
                        SpecGuardedCopy {
                            cond: av[i as int]->Group_items[0],
                            entry: Some(av[i as int]->Group_items[1]),
                        },
                    ));
                    assert(path_view(guard@.drop_first()) =~= p.1.push(
                        av[i as int]->Group_items[0],
                    ));
                }
            },
        }
        i = i + 1;
    }
    let r = TestExpansion { copies, guard };
    proof {
        let exp = spec_test_expansion(av)->Ok_0;
        assert(copy_list_view(r.copies@) =~= exp.copies);
        assert(path_view(r.guard@) =~= exp.guard);
    }
    Ok(r)
}

} // verus!
