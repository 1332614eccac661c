//! Project-root discovery and manifest validation for typst projects.
//!
//! The root of a project is found from the listings of the directories on a
//! path's ancestor chain, nearest first (see [heuristics]). The manifest's
//! identity fields follow small grammars (see [manifest]).

pub mod heuristics;
pub mod manifest;
pub mod text;

use heuristics::{directory_heuristics, DirListing, Heuristics, RECOMMENDED_BITS};
use vstd::prelude::*;

verus! {

/// Looks through the listings of a path's ancestors, nearest first, for the
/// first directory that matches any of the recommended heuristics, and
/// returns its index. See [heuristics::try_find_project_root] for more info.
pub fn try_find_project_root(ancestors: &Vec<DirListing>) -> (r: Option<usize>)
    ensures
        match r {
            Some(i) => {
                &&& i < ancestors@.len()
                &&& !directory_heuristics(
                    ancestors@[i as int],
                    Heuristics { bits: RECOMMENDED_BITS },
                    true,
                ).none()
                &&& forall|j: int|
                    0 <= j < i ==> directory_heuristics(
                        ancestors@[j],
                        Heuristics { bits: RECOMMENDED_BITS },
                        true,
                    ).none()
            },
            None => forall|j: int|
                0 <= j < ancestors@.len() ==> directory_heuristics(
                    ancestors@[j],
                    Heuristics { bits: RECOMMENDED_BITS },
                    true,
                ).none(),
        },
{
    match heuristics::try_find_project_root(ancestors, Heuristics::recommended(), true) {
        Some((i, _)) => Some(i),
        None => None,
    }
}

/// Checks if a directory matches any of the recommended heuristics. See
/// [heuristics::is_project_root] to choose the heuristics.
pub fn is_project_root(listing: &DirListing) -> (r: bool)
    ensures
        r == !directory_heuristics(*listing, Heuristics { bits: RECOMMENDED_BITS }, true).none(),
{
    heuristics::is_project_root(listing, Heuristics::recommended())
}

} // verus!
