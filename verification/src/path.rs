//! Paths, held as strings, and the two things the cache does with them:
//! adjoin a relative part to a directory, and name the temporary sibling of
//! an entry file.

use vstd::prelude::*;
use vstd::string::StringExecFns;

verus! {

/// The path that results from extending the path `base` by `rel` under the
/// platform's rule for joining paths. It is left uninterpreted: the contracts
/// of this crate need only that the same two paths always give the same one.
pub uninterp spec fn adjoined(base: Seq<char>, rel: Seq<char>) -> Seq<char>;

/// Trusted: `std::path::PathBuf::push`, on a buffer that holds `base`.
///
/// The claim is that the outcome is a function of the two paths alone, which
/// `adjoined` names. Both arguments are valid Unicode, and pushing only puts
/// them together with a separator (or keeps `rel` alone when it is absolute),
/// so turning the buffer back into a `String` loses nothing.
#[verifier::external_body]
pub(crate) fn join(base: &str, rel: &str) -> (joined: String)
    ensures
        joined@ == adjoined(base@, rel@),
{
    let mut buf = std::path::PathBuf::from(base);
    buf.push(rel);
    buf.to_string_lossy().into_owned()
}

/// Trusted: `dirs::cache_dir`, the user's cache directory on this platform.
///
/// Nothing is claimed of the outcome: it depends on the environment of the
/// process, and may be absent. A directory whose name is not valid Unicode
/// cannot be held as a `String` and counts as absent too.
#[verifier::external_body]
pub(crate) fn platform_cache_dir() -> Option<String> {
    match dirs::cache_dir() {
        Some(dir) => dir.into_os_string().into_string().ok(),
        None => None,
    }
}

/// What is appended to an entry's path to name its temporary sibling.
pub open spec fn temp_suffix() -> Seq<char> {
    seq!['.', 's', 'a', 'v', 'e']
}

/// The path of the temporary file through which the entry at `path` is
/// written.
pub open spec fn temp_of(path: Seq<char>) -> Seq<char> {
    path + temp_suffix()
}

/// The temporary sibling of `path`: `path` with `.save` appended.
pub fn temp_sibling(path: &String) -> (temp: String)
    ensures
        temp@ == temp_of(path@),
{
    proof {
        reveal_strlit(".save");
    }
    let temp = path.clone().concat(".save");
    assert(".save"@ =~= temp_suffix());
    temp
}

/// A temporary sibling never has the name of the file it stands in for.
pub proof fn lemma_temp_differs(path: Seq<char>)
    ensures
        temp_of(path) != path,
{
    assert(temp_of(path).len() == path.len() + 5);
}

} // verus!
