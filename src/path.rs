//! Conversion between absolute file paths and `file://` URIs.

use vstd::prelude::*;
use crate::error::AmpError;

verus! {

/// The characters of the URI scheme prefix, `file://`.
pub open spec fn scheme() -> Seq<char> {
    seq!['f', 'i', 'l', 'e', ':', '/', '/']
}

/// A path is absolute when it starts at the root directory.
pub open spec fn is_absolute(p: Seq<char>) -> bool {
    p.len() > 0 && p[0] == '/'
}

/// The URI that names path `p`: the scheme followed by the path text.
pub open spec fn uri_of(p: Seq<char>) -> Seq<char> {
    scheme() + p
}

/// Whether `u` begins with the scheme prefix.
pub open spec fn has_scheme(u: Seq<char>) -> bool {
    u.len() >= scheme().len() && u.subrange(0, scheme().len() as int) == scheme()
}

/// The path that URI `u` names, if `u` is a `file://` URI.
pub open spec fn path_of(u: Seq<char>) -> Option<Seq<char>> {
    if has_scheme(u) {
        Some(u.subrange(scheme().len() as int, u.len() as int))
    } else {
        None
    }
}

/// Whether the path text `p` is absolute (starts with `/`).
pub fn is_absolute_path(p: &str) -> (r: bool)
    ensures
        r == is_absolute(p@),
{
    if p.unicode_len() == 0 {
        false
    } else {
        p.get_char(0) == '/'
    }
}

/// Converts a path to a `file://` URI by prefixing the scheme.
pub fn to_uri(path: &str) -> (r: String)
    ensures
        r@ == uri_of(path@),
{
    let mut r = String::from_str("file://");
    proof {
        reveal_strlit("file://");
    }
    assert(r@ =~= scheme());
    r.append(path);
    r
}

/// Converts a `file://` URI back to its path, or `None` for any other text.
pub fn from_uri(uri: &str) -> (r: Option<String>)
    ensures
        r matches Some(p) ==> path_of(uri@) == Some(p@),
        r is None <==> path_of(uri@) is None,
{
    let n = uri.unicode_len();
    let prefix = "file://";
    proof {
        reveal_strlit("file://");
    }
    if n < 7 {
        return None;
    }
    let mut i: usize = 0;
    while i < 7
        invariant
            n == uri@.len(),
            7 <= n,
            prefix@ == scheme(),
            i <= 7,
            forall|j: int| 0 <= j < i ==> uri@[j] == scheme()[j],
        decreases 7 - i,
    {
        if uri.get_char(i) != prefix.get_char(i) {
            assert(uri@.subrange(0, 7)[i as int] != scheme()[i as int]);
            return None;
        }
        i = i + 1;
    }
    assert(uri@.subrange(0, 7) =~= scheme());
    let rest = uri.substring_char(7, n);
    Some(rest.to_string())
}

/// Whether `r` is a usable relative path from the editor: not empty, and
/// not one of its `v:` special values such as `v:null`.
pub open spec fn usable_relative(r: Seq<char>) -> bool {
    r.len() > 0 && !(r.len() >= 2 && r[0] == 'v' && r[1] == ':')
}

/// The workspace-relative form of `path`, given `relative`, what the
/// editor computed for it relative to its working directory (`None` when
/// that failed).
///
/// An empty path is an error. A usable editor answer is taken as it is;
/// failing that, an absolute path is kept unchanged, and a relative one is
/// an error.
pub fn to_relative(path: &str, relative: Option<String>) -> (r: Result<String, AmpError>)
    ensures
        path@.len() == 0 ==> (r matches Err(AmpError::Other(m)) && m@ == "Empty path provided"@),
        path@.len() > 0 && relative is Some && usable_relative(relative->Some_0@) ==> (r matches Ok(
            p,
        ) && p@ == relative->Some_0@),
        path@.len() > 0 && !(relative is Some && usable_relative(relative->Some_0@)) ==> {
            &&& is_absolute(path@) ==> (r matches Ok(p) && p@ == path@)
            &&& !is_absolute(path@) ==> (r matches Err(AmpError::Other(m)) && m@
                == "Failed to get relative path for: "@ + path@)
        },
{
    if path.unicode_len() == 0 {
        return Err(AmpError::Other(String::from_str("Empty path provided")));
    }
    if let Some(rel) = relative {
        let n = rel.as_str().unicode_len();
        let special = n >= 2 && rel.as_str().get_char(0) == 'v' && rel.as_str().get_char(1) == ':';
        if n > 0 && !special {
            return Ok(rel);
        }
    }
    if is_absolute_path(path) {
        Ok(path.to_string())
    } else {
        let mut m = String::from_str("Failed to get relative path for: ");
        m.append(path);
        Err(AmpError::Other(m))
    }
}

/// Converting a path to a URI and back gives the path again.
pub proof fn lemma_uri_round_trip(p: Seq<char>)
    ensures
        path_of(uri_of(p)) == Some(p),
{
    assert(uri_of(p).subrange(0, 7) =~= scheme());
    assert(uri_of(p).subrange(7, uri_of(p).len() as int) =~= p);
}

} // verus!
