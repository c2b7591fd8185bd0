use vstd::prelude::*;

use camino::Utf8Path;

verus! {

/// What `camino::Utf8Path::starts_with` answers: whether `base` is a prefix
/// of `path`, compared whole component by whole component.
pub uninterp spec fn path_starts_with(path: Seq<char>, base: Seq<char>) -> bool;

/// What `camino::Utf8Path::strip_prefix` gives: the rest of `path` after the
/// components of `base`, or `None` when `base` is not a prefix.
pub uninterp spec fn path_strip_prefix(path: Seq<char>, base: Seq<char>) -> Option<Seq<char>>;

/// `part` adjoined to `base` as `Utf8PathBuf::push` does on Unix: an
/// absolute `part` replaces `base`; otherwise a `/` separates them unless
/// `base` is empty or already ends in `/`.
pub open spec fn path_join(base: Seq<char>, part: Seq<char>) -> Seq<char> {
    if part.len() > 0 && part[0] == '/' {
        part
    } else if base.len() == 0 || base.last() == '/' {
        base + part
    } else {
        base + seq!['/'] + part
    }
}

/// Component-wise prefix test.
///
/// Trusted: wraps `Utf8Path::starts_with`; the answer is named by
/// `path_starts_with`.
#[verifier::external_body]
fn utf8_path_starts_with(path: &str, base: &str) -> (r: bool)
    ensures
        r == path_starts_with(path@, base@),
{
    Utf8Path::new(path).starts_with(base)
}

/// Component-wise prefix removal.
///
/// Trusted: wraps `Utf8Path::strip_prefix`; the answer is named by
/// `path_strip_prefix`.
#[verifier::external_body]
pub(crate) fn utf8_path_strip_prefix(path: &str, base: &str) -> (r: Option<String>)
    ensures
        r is Some <==> path_strip_prefix(path@, base@) is Some,
        r is Some ==> path_strip_prefix(path@, base@) == Some(r->0@),
{
    match Utf8Path::new(path).strip_prefix(base) {
        Ok(rest) => Some(rest.as_str().to_string()),
        Err(_) => None,
    }
}

/// Whether a path is absolute.
///
/// Trusted: wraps `Utf8Path::is_absolute`, which (through `std::path::Path`)
/// is documented to be, on Unix, the same as starting with the root `/`.
#[verifier::external_body]
pub(crate) fn utf8_path_is_absolute(path: &str) -> (r: bool)
    ensures
        r == (path@.len() > 0 && path@[0] == '/'),
{
    Utf8Path::new(path).is_absolute()
}

/// Adjoins a path.
///
/// Trusted: wraps `Utf8Path::join`, which camino documents as adjoining
/// `part` the way `Utf8PathBuf::push` does (see `path_join`).
#[verifier::external_body]
pub(crate) fn utf8_path_join(base: &str, part: &str) -> (r: String)
    ensures
        r@ == path_join(base@, part@),
{
    Utf8Path::new(base).join(part).into_string()
}

/// Is `path` lexically inside one of `roots`?
pub open spec fn inside_some_root(path: Seq<char>, roots: Seq<String>) -> bool {
    exists|i: int| 0 <= i < roots.len() && path_starts_with(path, #[trigger] roots[i]@)
}

/// Whether `path` lies under one of `roots`, judged on the text of the paths
/// alone (no file system access, no symlink resolution).
pub fn lexical_child_of(path: &str, roots: &[String]) -> (r: bool)
    ensures
        r == inside_some_root(path@, roots@),
{
    let mut i: usize = 0;
    while i < roots.len()
        invariant
            i <= roots@.len(),
            forall|j: int| 0 <= j < i ==> !path_starts_with(path@, #[trigger] roots@[j]@),
        decreases roots@.len() - i,
    {
        if utf8_path_starts_with(path, roots[i].as_str()) {
            return true;
        }
        i = i + 1;
    }
    false
}

} // verus!
