//! Data-directory paths: a leading `~/` stands for the home directory.

use crate::text::{from_chars, slice_of, to_chars};
use vstd::prelude::*;

verus! {

/// `std::path::Path::join`, on paths given and returned as text. How the two
/// are joined depends on the platform's path rules, so nothing is stated of
/// the result.
#[verifier::external_body]
pub(crate) fn join_path(base: &str, rest: &str) -> String {
    std::path::Path::new(base).join(rest).to_string_lossy().into_owned()
}

/// The path begins with `~/`.
pub open spec fn has_tilde_prefix(path: Seq<char>) -> bool {
    path.len() >= 2 && path[0] == '~' && path[1] == '/'
}

/// What follows the `~/` at the start of a path, where the path starts so.
pub fn tilde_rest(path: &str) -> (r: Option<String>)
    ensures
        has_tilde_prefix(path@) ==> r is Some && r->0@ == path@.skip(2),
        !has_tilde_prefix(path@) ==> r is None,
{
    let chars = to_chars(path);
    if chars.len() >= 2 && chars[0] == '~' && chars[1] == '/' {
        let rest = slice_of(&chars, 2, chars.len());
        assert(chars@.subrange(2, chars@.len() as int) =~= chars@.skip(2));
        Some(from_chars(&rest))
    } else {
        None
    }
}

/// Expands a leading `~/` to the home directory. A path without that start,
/// and any path where no home directory is known, is returned as it is;
/// otherwise the result is the home directory joined, by the platform's
/// rules, with what follows the `~/`.
pub fn expand_tilde(path: &str, home: Option<&str>) -> (r: String)
    ensures
        !has_tilde_prefix(path@) || home is None ==> r@ == path@,
{
    match tilde_rest(path) {
        Some(rest) => match home {
            Some(base) => join_path(base, rest.as_str()),
            None => path.to_owned(),
        },
        None => path.to_owned(),
    }
}

} // verus!
