//! Path-string normalization: home-directory shorthand expansion.

use vstd::prelude::*;

verus! {

/// The view of an optional home directory string.
pub open spec fn home_view(home: Option<String>) -> Option<Seq<char>> {
    match home {
        Some(h) => Some(h@),
        None => None,
    }
}

/// One path joined under another, rendered as the standard path join does:
/// an absolute remainder stands alone, an empty base leaves the remainder
/// as it was, and exactly one separator stands between the two otherwise.
pub open spec fn join_path(base: Seq<char>, rest: Seq<char>) -> Seq<char> {
    if rest.len() > 0 && rest[0] == '/' {
        rest
    } else if base.len() == 0 {
        rest
    } else if base.last() == '/' {
        base + rest
    } else {
        base + seq!['/'] + rest
    }
}

/// A path that starts with the home shorthand `~/` has the shorthand
/// stripped and the remainder joined under the home directory; any other
/// path — and any path when no home directory is known — is returned
/// unchanged.
pub open spec fn expand_home_spec(path: Seq<char>, home: Option<Seq<char>>) -> Seq<char> {
    match home {
        Some(h) => if path.len() >= 2 && path[0] == '~' && path[1] == '/' {
            join_path(h, path.skip(2))
        } else {
            path
        },
        None => path,
    }
}

/// Expands the leading home-directory shorthand of a path, if the given
/// home directory allows it.
pub fn expand_home(path: &str, home: &Option<String>) -> (r: String)
    ensures
        r@ == expand_home_spec(path@, home_view(*home)),
{
    match home {
        Some(h) => {
            let n = path.unicode_len();
            if n >= 2 && path.get_char(0) == '~' && path.get_char(1) == '/' {
                let rest = path.substring_char(2, n);
                proof {
                    assert(rest@ =~= path@.skip(2));
                }
                let rest_len = rest.unicode_len();
                let base = h.as_str();
                let base_len = base.unicode_len();
                if rest_len > 0 && rest.get_char(0) == '/' {
                    rest.to_owned()
                } else if base_len == 0 {
                    rest.to_owned()
                } else if base.get_char(base_len - 1) == '/' {
                    let mut out = h.clone();
                    out.append(rest);
                    out
                } else {
                    let mut out = h.clone();
                    out.append("/");
                    out.append(rest);
                    proof {
                        reveal_strlit("/");
                        assert(out@ =~= h@ + seq!['/'] + rest@);
                    }
                    out
                }
            } else {
                path.to_owned()
            }
        },
        None => path.to_owned(),
    }
}

} // verus!
