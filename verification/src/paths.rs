//! Path arithmetic of the standard library, on paths held as strings.
use vstd::prelude::*;

use vstd::string::StringExecFns;

use crate::strings::{has_prefix, starts_with};

verus! {

/// What `Path::join` gives for `base` and `rest` on Unix, written back as a string: an
/// absolute `rest` replaces `base`; otherwise `rest` follows `base`, after a `/` when
/// `base` is not empty and does not end with one.
pub open spec fn joined_path(base: Seq<char>, rest: Seq<char>) -> Seq<char> {
    if has_prefix(rest, seq!['/']) {
        rest
    } else if base.len() == 0 || base.last() == '/' {
        base + rest
    } else {
        base + seq!['/'] + rest
    }
}

/// What `Path::with_extension` gives for `path` and `extension`, written back as a string.
pub uninterp spec fn path_with_extension(path: Seq<char>, extension: Seq<char>) -> Seq<char>;

/// Joins `rest` to `base` as `Path::join` does on Unix (see `joined_path`).
pub(crate) fn path_join(base: &str, rest: &str) -> (r: String)
    ensures
        r@ == joined_path(base@, rest@),
{
    proof {
        reveal_strlit("/");
        assert("/"@ =~= seq!['/']);
    }
    if starts_with(rest, "/") {
        return String::from_str(rest);
    }
    let n = base.unicode_len();
    let mut r = String::from_str(base);
    if n > 0 && base.get_char(n - 1) != '/' {
        r.append("/");
    }
    r.append(rest);
    r
}

/// `std::path::Path::new(path).with_extension(extension)`, as a string.
///
/// The result is named and nothing more is stated: how the file name and its old
/// extension are found is left to the name. Recent versions of the standard library
/// panic on an extension that holds a path separator, so such an extension is not
/// admitted.
#[verifier::external_body]
pub(crate) fn with_extension(path: &str, extension: &str) -> (r: String)
    requires
        !extension@.contains('/'),
    ensures
        r@ == path_with_extension(path@, extension@),
{
    std::path::Path::new(path).with_extension(extension).to_string_lossy().into_owned()
}

} // verus!
