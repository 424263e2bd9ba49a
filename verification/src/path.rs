//! Paths cut short, so that a deep directory still fits in a prompt.

use vstd::prelude::*;
use crate::text::str_of;

verus! {

/// The short form of `path`, given the home directory `home_dir` where there is
/// one: what `tico` returns for the two. `tico` writes `~` for the home directory
/// and keeps only the first letter of each directory but the last, as in
/// `~/s/project` for `/home/me/src/project`.
pub uninterp spec fn short_path(path: Seq<char>, home_dir: Option<Seq<char>>) -> Seq<char>;

/// Calls `tico::tico`, which shortens `path`.
///
/// Trusted: what `tico` returns depends on the two arguments alone; it reads
/// nothing else and keeps nothing between calls.
#[verifier::external_body]
pub(crate) fn shorten(path: &str, home_dir: Option<&str>) -> (short: String)
    ensures
        short@ == short_path(path@, str_of(home_dir)),
{
    tico::tico(path, home_dir)
}

} // verus!
