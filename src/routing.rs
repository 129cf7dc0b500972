//! The routing rule: first registered base path that prefixes the request path wins.

use vstd::prelude::*;

verus! {

/// Whether `base` is a literal prefix of `path`, compared character by character,
/// case-sensitive and without normalisation.
pub open spec fn is_base_of(base: Seq<char>, path: Seq<char>) -> bool {
    base.is_prefix_of(path)
}

/// No base path before position `i` prefixes `path`.
pub open spec fn none_before(bases: Seq<Seq<char>>, path: Seq<char>, i: int) -> bool {
    forall|j: int| 0 <= j < i ==> !is_base_of(#[trigger] bases[j], path)
}

/// Position `i` holds the first base path of `bases` that prefixes `path`.
pub open spec fn dispatches_to(bases: Seq<Seq<char>>, path: Seq<char>, i: int) -> bool {
    &&& 0 <= i < bases.len()
    &&& is_base_of(bases[i], path)
    &&& none_before(bases, path, i)
}

/// No base path of `bases` prefixes `path`.
pub open spec fn unmatched(bases: Seq<Seq<char>>, path: Seq<char>) -> bool {
    none_before(bases, path, bases.len() as int)
}

/// The outcome of routing `path` over `bases`: the position of the first match,
/// or `None` where nothing matches.
pub open spec fn routes_to(bases: Seq<Seq<char>>, path: Seq<char>, r: Option<usize>) -> bool {
    match r {
        Some(i) => dispatches_to(bases, path, i as int),
        None => unmatched(bases, path),
    }
}

/// Relies on `str::starts_with` with a `&str` pattern: true exactly when `base`
/// is a prefix of `path`.
#[verifier::external_body]
pub(crate) fn starts_with(path: &str, base: &str) -> (r: bool)
    ensures
        r == is_base_of(base@, path@),
{
    path.starts_with(base)
}

/// A request whose path can be read. Implemented by the request types of the
/// surrounding server; the router reads the path once per request.
pub trait HasPath {
    /// Retrieve the path.
    fn path(&self) -> &str;
}

/// A response type with a canonical "not found" value, returned where no base
/// path matches.
pub trait HasNotFound: Sized {
    /// Return a "not found" response.
    fn not_found() -> Self;
}

/// Where the base paths are pairwise unrelated by the prefix order, a request
/// path that one of them prefixes goes to that one.
pub proof fn lemma_disjoint_bases_route_to_owner(bases: Seq<Seq<char>>, path: Seq<char>, k: int)
    requires
        0 <= k < bases.len(),
        is_base_of(bases[k], path),
        forall|i: int, j: int|
            0 <= i < bases.len() && 0 <= j < bases.len() && i != j ==> !is_base_of(
                #[trigger] bases[i],
                #[trigger] bases[j],
            ),
    ensures
        dispatches_to(bases, path, k),
{
    assert forall|j: int| 0 <= j < k implies !is_base_of(#[trigger] bases[j], path) by {
        if is_base_of(bases[j], path) {
            // two prefixes of one path: the shorter prefixes the longer
            if bases[j].len() <= bases[k].len() {
                assert(bases[j] =~= bases[k].subrange(0, bases[j].len() as int));
                assert(is_base_of(bases[j], bases[k]));
            } else {
                assert(bases[k] =~= bases[j].subrange(0, bases[k].len() as int));
                assert(is_base_of(bases[k], bases[j]));
            }
        }
    }
}

/// Where two base paths both prefix the request path, the one registered first
/// wins, whatever their lengths: swapping their order swaps the winner.
pub proof fn lemma_first_registered_wins(a: Seq<char>, b: Seq<char>, path: Seq<char>)
    requires
        is_base_of(a, path),
        is_base_of(b, path),
    ensures
        dispatches_to(seq![a, b], path, 0),
        dispatches_to(seq![b, a], path, 0),
        !dispatches_to(seq![a, b], path, 1),
        !dispatches_to(seq![b, a], path, 1),
{
    assert(seq![a, b][0] == a);
    assert(seq![b, a][0] == b);
}

/// An empty base path registered first takes every request, whatever follows it.
pub proof fn lemma_empty_base_first_shadows(bases: Seq<Seq<char>>, path: Seq<char>)
    requires
        bases.len() > 0,
        bases[0].len() == 0,
    ensures
        dispatches_to(bases, path, 0),
        forall|i: int| 0 < i < bases.len() ==> !dispatches_to(bases, path, i),
{
    assert(bases[0] =~= path.subrange(0, 0));
}

/// An empty base path anywhere in the table leaves no request unmatched: the
/// request goes to it or to an earlier match.
pub proof fn lemma_empty_base_catches_rest(bases: Seq<Seq<char>>, path: Seq<char>, k: int)
    requires
        0 <= k < bases.len(),
        bases[k].len() == 0,
    ensures
        !unmatched(bases, path),
{
    assert(bases[k] =~= path.subrange(0, 0));
    assert(is_base_of(bases[k], path));
}

} // verus!
