//! Stable identifiers: a derivation's store path with the store directory and
//! the `.drv` extension taken off. The same rule names a note's file and every
//! link that points at it.
use vstd::prelude::*;

verus! {

/// The store directory that every derivation path starts with.
pub open spec fn store_prefix() -> Seq<char> {
    "/nix/store/"@
}

/// The extension of a derivation file.
pub open spec fn drv_suffix() -> Seq<char> {
    ".drv"@
}

/// `p` is a suffix of `s`.
pub open spec fn has_suffix(s: Seq<char>, p: Seq<char>) -> bool {
    p.len() <= s.len() && s.subrange(s.len() - p.len(), s.len() as int) == p
}

/// `id` without the store directory in front, where it has one.
pub open spec fn without_store_prefix(id: Seq<char>) -> Seq<char> {
    if store_prefix().is_prefix_of(id) {
        id.subrange(store_prefix().len() as int, id.len() as int)
    } else {
        id
    }
}

/// The stable identifier of a store path: the store directory is taken off the
/// front, then the derivation extension off the end, each where present.
pub open spec fn normalized(id: Seq<char>) -> Seq<char> {
    let a = without_store_prefix(id);
    if has_suffix(a, drv_suffix()) {
        a.subrange(0, a.len() - drv_suffix().len())
    } else {
        a
    }
}

/// The name part of a store derivation path: not empty, without a slash
/// (store entries are flat), and not itself ending in the derivation extension.
pub open spec fn is_store_name(name: Seq<char>) -> bool {
    &&& name.len() > 0
    &&& forall|i: int| 0 <= i < name.len() ==> name[i] != '/'
    &&& !has_suffix(name, drv_suffix())
}

/// A build identifier as the build system hands it out: store directory,
/// name, derivation extension.
pub open spec fn is_build_id(id: Seq<char>) -> bool {
    exists|name: Seq<char>| is_store_name(name) && id == store_prefix() + name + drv_suffix()
}

/// Whether `s` starts with `p`.
pub fn starts_with_text(s: &str, p: &str) -> (r: bool)
    ensures
        r == p@.is_prefix_of(s@),
{
    let n = p.unicode_len();
    let m = s.unicode_len();
    if n > m {
        return false;
    }
    let mut i: usize = 0;
    while i < n
        invariant
            n == p@.len(),
            m == s@.len(),
            n <= m,
            i <= n,
            forall|j: int| 0 <= j < i ==> s@[j] == p@[j],
        decreases n - i,
    {
        if s.get_char(i) != p.get_char(i) {
            assert(s@.subrange(0, n as int)[i as int] != p@[i as int]);
            return false;
        }
        i = i + 1;
    }
    assert(p@ =~= s@.subrange(0, n as int));
    true
}

/// Whether `s` ends with `p`.
pub fn ends_with_text(s: &str, p: &str) -> (r: bool)
    ensures
        r == has_suffix(s@, p@),
{
    let n = p.unicode_len();
    let m = s.unicode_len();
    if n > m {
        return false;
    }
    let off = m - n;
    let mut i: usize = 0;
    while i < n
        invariant
            n == p@.len(),
            m == s@.len(),
            n <= m,
            off == m - n,
            i <= n,
            forall|j: int| 0 <= j < i ==> s@[off + j] == p@[j],
        decreases n - i,
    {
        if s.get_char(off + i) != p.get_char(i) {
            assert(s@.subrange(off as int, m as int)[i as int] != p@[i as int]);
            return false;
        }
        i = i + 1;
    }
    assert(p@ =~= s@.subrange(off as int, m as int));
    true
}

/// The stable identifier of a store path (see `normalized`).
pub fn normalize_id(id: &str) -> (r: String)
    ensures
        r@ == normalized(id@),
{
    let prefix = "/nix/store/";
    let suffix = ".drv";
    let len = id.unicode_len();
    let rest: &str = if starts_with_text(id, prefix) {
        id.substring_char(prefix.unicode_len(), len)
    } else {
        id
    };
    assert(rest@ == without_store_prefix(id@));
    if ends_with_text(rest, suffix) {
        let k = rest.unicode_len() - suffix.unicode_len();
        String::from_str(rest.substring_char(0, k))
    } else {
        String::from_str(rest)
    }
}

/// Normalizing a build identifier leaves exactly its name part.
pub proof fn lemma_normalized_build_id(name: Seq<char>)
    ensures
        normalized(store_prefix() + name + drv_suffix()) == name,
{
    let id = store_prefix() + name + drv_suffix();
    assert(store_prefix().is_prefix_of(id)) by {
        assert(id.subrange(0, store_prefix().len() as int) =~= store_prefix());
    }
    let a = without_store_prefix(id);
    assert(a =~= name + drv_suffix());
    assert(a.subrange(a.len() - drv_suffix().len(), a.len() as int) =~= drv_suffix());
    assert(a.subrange(0, a.len() - drv_suffix().len()) =~= name);
}

/// Normalization is idempotent on build identifiers: normalizing the stable
/// identifier again changes nothing.
pub proof fn lemma_normalize_idempotent(id: Seq<char>)
    requires
        is_build_id(id),
    ensures
        normalized(normalized(id)) == normalized(id),
{
    let name = choose|name: Seq<char>| is_store_name(name) && id == store_prefix() + name + drv_suffix();
    lemma_normalized_build_id(name);
    reveal_strlit("/nix/store/");
    if store_prefix().is_prefix_of(name) {
        assert(name[0] == store_prefix()[0]);
    }
}

/// Normalization is injective on build identifiers: two distinct identifiers
/// never share a stable identifier, so no two notes share a file.
pub proof fn lemma_normalize_injective(a: Seq<char>, b: Seq<char>)
    requires
        is_build_id(a),
        is_build_id(b),
        a != b,
    ensures
        normalized(a) != normalized(b),
{
    let na = choose|name: Seq<char>| is_store_name(name) && a == store_prefix() + name + drv_suffix();
    let nb = choose|name: Seq<char>| is_store_name(name) && b == store_prefix() + name + drv_suffix();
    lemma_normalized_build_id(na);
    lemma_normalized_build_id(nb);
}

} // verus!
