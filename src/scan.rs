use vstd::prelude::*;

verus! {

/// The address of the advisory search for a path.
pub open spec fn advisories_url_of(path: Seq<char>) -> Seq<char> {
    "https://api.github.com/advisories?path="@ + path
}

/// The URL that looks up the security advisories for `path`; the path is
/// put in as it is.
pub fn advisories_url(path: &str) -> (r: String)
    ensures
        r@ == advisories_url_of(path@),
{
    let mut r = String::from_str("https://api.github.com/advisories?path=");
    r.append(path);
    r
}

} // verus!
