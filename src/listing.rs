//! Human-readable listings of registered base paths, for diagnostics.

use vstd::prelude::*;

verus! {

/// The text that `{:?}` writes for a string: the string quoted, with escapes.
pub uninterp spec fn debug_str(s: Seq<char>) -> Seq<char>;

/// Relies on `<str as Debug>::fmt`: the quoted, escaped form of `s`, which
/// depends on the characters of `s` alone.
#[verifier::external_body]
fn debug_quoted(s: &str) -> (r: String)
    ensures
        r@ == debug_str(s@),
{
    format!("{:?}", s)
}

/// The quoted base paths, separated by a comma and a space.
pub open spec fn quoted_list(paths: Seq<Seq<char>>) -> Seq<char>
    decreases paths.len(),
{
    if paths.len() == 0 {
        Seq::empty()
    } else if paths.len() == 1 {
        debug_str(paths[0])
    } else {
        quoted_list(paths.drop_last()) + ", "@ + debug_str(paths.last())
    }
}

/// The listing of `paths` under the name `heading`:
/// `<heading> accepting base paths: ["/a", "/b"]`.
pub open spec fn listing(heading: Seq<char>, paths: Seq<Seq<char>>) -> Seq<char> {
    heading + " accepting base paths: ["@ + quoted_list(paths) + "]"@
}

/// The base paths of a route table, in order.
pub open spec fn bases_of<T>(routes: Seq<(&'static str, T)>) -> Seq<Seq<char>> {
    routes.map_values(|e: (&'static str, T)| e.0@)
}

/// Writes the listing of the base paths of `routes` under `heading`.
pub(crate) fn list_base_paths<T>(heading: &str, routes: &Vec<(&'static str, T)>) -> (r: String)
    ensures
        r@ == listing(heading@, bases_of(routes@)),
{
    let mut s = String::from_str(heading);
    s.append(" accepting base paths: [");
    let ghost start = s@;
    let ghost paths = bases_of(routes@);
    let mut i: usize = 0;
    while i < routes.len()
        invariant
            i <= routes.len(),
            paths == bases_of(routes@),
            start == heading@ + " accepting base paths: ["@,
            s@ == start + quoted_list(paths.take(i as int)),
        decreases routes.len() - i,
    {
        if i > 0 {
            s.append(", ");
        }
        let q = debug_quoted(routes[i].0);
        s.append(q.as_str());
        proof {
            assert(paths.take(i + 1).drop_last() =~= paths.take(i as int));
            assert(paths.take(i + 1).last() == paths[i as int]);
            if i == 0 {
                assert(paths.take(0) =~= Seq::<Seq<char>>::empty());
            }
        }
        i += 1;
    }
    s.append("]");
    assert(paths.take(routes.len() as int) =~= paths);
    s
}

} // verus!
