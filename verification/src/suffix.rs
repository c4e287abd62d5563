//! The deterministic suffix convention: reversible identifier decoration.
//!
//! `ident_add_suffix` appends a fixed suffix to an identifier;
//! `ident_try_remove_suffix` strips it again, and reports `None` when the
//! literal suffix is absent.  Every renaming rule of the projectors goes
//! through these two functions.

use vstd::prelude::*;

verus! {

/// The decorated form of `s`: `s` followed by `suffix`.
pub open spec fn spec_add_suffix(s: Seq<char>, suffix: Seq<char>) -> Seq<char> {
    s + suffix
}

/// Does `s` literally end in `suffix`?
pub open spec fn spec_has_suffix(s: Seq<char>, suffix: Seq<char>) -> bool {
    s.len() >= suffix.len() && s.subrange(s.len() - suffix.len(), s.len() as int) == suffix
}

/// The undecorated form of `s`: `s` without its trailing `suffix`, or `None`
/// when the literal suffix is absent.
pub open spec fn spec_try_remove_suffix(s: Seq<char>, suffix: Seq<char>) -> Option<Seq<char>> {
    if spec_has_suffix(s, suffix) {
        Some(s.subrange(0, s.len() - suffix.len()))
    } else {
        None
    }
}

/// The deterministic suffix that marks the suspension-capable sibling of a
/// function or method name.
pub open spec fn async_suffix() -> Seq<char> {
    "_async"@
}

/// The `async_suffix` characters, for executable callers.
pub fn async_suffix_str() -> (r: &'static str)
    ensures
        r@ == async_suffix(),
{
    "_async"
}

/// The qualifying tag that keeps a blocking type variant from colliding with
/// its suspension-capable counterpart under dual-mode emission.
pub open spec fn sync_tag() -> Seq<char> {
    "Sync"@
}

/// The `sync_tag` characters, for executable callers.
pub fn sync_tag_str() -> (r: &'static str)
    ensures
        r@ == sync_tag(),
{
    "Sync"
}

/// A name with the deterministic suffix stripped when it is present, and
/// unchanged otherwise.
pub open spec fn spec_strip_name(n: Seq<char>) -> Seq<char> {
    match spec_try_remove_suffix(n, async_suffix()) {
        Some(s) => s,
        None => n,
    }
}

/// Append `suffix` to `ident`.
pub fn ident_add_suffix(ident: &String, suffix: &str) -> (r: String)
    ensures
        r@ == spec_add_suffix(ident@, suffix@),
{
    let r = ident.clone();
    r.concat(suffix)
}

/// Strip a trailing `suffix` from `ident`; `None` when `ident` does not end
/// in it.
pub fn ident_try_remove_suffix(ident: &String, suffix: &str) -> (r: Option<String>)
    ensures
        match r {
            Some(s) => spec_try_remove_suffix(ident@, suffix@) == Some(s@),
            None => spec_try_remove_suffix(ident@, suffix@) is None,
        },
{
    let n = ident.as_str().unicode_len();
    let m = suffix.unicode_len();
    if n < m {
        return None;
    }
    let tail = ident.as_str().substring_char(n - m, n);
    if String::from_str(tail).eq(&String::from_str(suffix)) {
        assert(spec_has_suffix(ident@, suffix@));
        Some(String::from_str(ident.as_str().substring_char(0, n - m)))
    } else {
        assert(!spec_has_suffix(ident@, suffix@)) by {
            assert(tail@ == ident@.subrange(n - m, n as int));
        }
        None
    }
}

/// Removing a freshly added suffix gives the original name back, whatever the
/// name was; and a name that does not end in the suffix is refused.
pub proof fn lemma_suffix_round_trip(s: Seq<char>, suffix: Seq<char>)
    ensures
        spec_try_remove_suffix(spec_add_suffix(s, suffix), suffix) == Some(s),
        !spec_has_suffix(s, suffix) ==> spec_try_remove_suffix(s, suffix) is None,
{
    let d = spec_add_suffix(s, suffix);
    assert(d.subrange(d.len() - suffix.len(), d.len() as int) =~= suffix);
    assert(d.subrange(0, d.len() - suffix.len()) =~= s);
}

/// Adding a non-empty suffix strictly lengthens a name, while removal never
/// lengthens it; the two decorated and undecorated forms of one name can
/// therefore never collide.
pub proof fn lemma_suffix_lengths(s: Seq<char>, suffix: Seq<char>)
    ensures
        spec_add_suffix(s, suffix).len() == s.len() + suffix.len(),
        spec_try_remove_suffix(s, suffix) matches Some(t) ==> t.len() + suffix.len() == s.len(),
{
}

} // verus!
