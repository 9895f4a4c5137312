//! The fixed, ordered list of filesystem locations where the package
//! manager's executable is looked for. Probing each candidate is I/O and
//! happens outside the library; the first candidate whose probe succeeds
//! wins.

use vstd::prelude::*;

verus! {

/// The candidate locations, in the order they are tried.
pub open spec fn candidate_paths() -> Seq<Seq<char>> {
    seq![
        "/home/linuxbrew/.linuxbrew/bin/brew"@,
        "/linuxbrew/.linuxbrew/bin/brew"@,
        "/usr/local/bin/brew"@,
        "/opt/homebrew/bin/brew"@,
        "brew"@,
    ]
}

/// Builds the candidate list handed to the prober, in priority order.
pub fn brew_candidates() -> (r: Vec<String>)
    ensures
        r@.map_values(|s: String| s@) == candidate_paths(),
{
    let r: Vec<String> = vec![
        "/home/linuxbrew/.linuxbrew/bin/brew".to_owned(),
        "/linuxbrew/.linuxbrew/bin/brew".to_owned(),
        "/usr/local/bin/brew".to_owned(),
        "/opt/homebrew/bin/brew".to_owned(),
        "brew".to_owned(),
    ];
    proof {
        assert(r@.map_values(|s: String| s@) =~= candidate_paths());
    }
    r
}

} // verus!
