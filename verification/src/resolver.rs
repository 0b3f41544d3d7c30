//! Locating the runtime executable.
//!
//! A desktop launch may not inherit the search path of an interactive shell,
//! so the conventional install locations are tried in a fixed order before
//! falling back to a bare command name.

use crate::environment::{Environment, EnvironmentView};
use vstd::prelude::*;
use vstd::string::StringExecFns;

verus! {

/// Where the executable lies below the installation root.
pub const INSTALL_ROOT_BINARY: &'static str = "/bin/bun";

/// Where the executable lies below the home directory by default.
pub const HOME_BINARY: &'static str = "/.bun/bin/bun";

/// The system-wide location for locally installed software.
pub const SYSTEM_LOCAL_BINARY: &'static str = "/usr/local/bin/bun";

/// The system-wide location for packaged software.
pub const SYSTEM_BINARY: &'static str = "/usr/bin/bun";

/// The bare command name, left to the operating system's search path.
pub const FALLBACK_COMMAND: &'static str = "bun";

/// The install locations to try, in order of preference.
///
/// The first entry is empty when no installation root is set, which marks
/// it as not to be tried.
pub open spec fn candidate_paths(env: EnvironmentView) -> Seq<Seq<char>> {
    seq![
        match env.install_root {
            Some(root) => root + INSTALL_ROOT_BINARY@,
            None => Seq::empty(),
        },
        env.home_dir() + HOME_BINARY@,
        SYSTEM_LOCAL_BINARY@,
        SYSTEM_BINARY@,
    ]
}

/// Candidate `i` can be used: it names a path, and the path was seen on
/// disk. A candidate without an observation counts as not seen.
pub open spec fn usable(candidates: Seq<Seq<char>>, present: Seq<bool>, i: int) -> bool {
    &&& 0 <= i < candidates.len()
    &&& candidates[i].len() > 0
    &&& i < present.len()
    &&& present[i]
}

/// Candidate `i` is usable and no candidate before it is.
pub open spec fn first_usable(candidates: Seq<Seq<char>>, present: Seq<bool>, i: int) -> bool {
    &&& usable(candidates, present, i)
    &&& forall|j: int| 0 <= j < i ==> !usable(candidates, present, j)
}

/// The path that resolution settles on: the first usable candidate, or the
/// bare command name when no candidate is usable.
pub open spec fn resolved_path(candidates: Seq<Seq<char>>, present: Seq<bool>) -> Seq<char> {
    if exists|i: int| first_usable(candidates, present, i) {
        candidates[choose|i: int| first_usable(candidates, present, i)]
    } else {
        FALLBACK_COMMAND@
    }
}

/// At most one candidate is the first usable one.
pub proof fn lemma_first_usable_unique(
    candidates: Seq<Seq<char>>,
    present: Seq<bool>,
    i: int,
    k: int,
)
    requires
        first_usable(candidates, present, i),
        first_usable(candidates, present, k),
    ensures
        i == k,
{
    if i < k {
        assert(!usable(candidates, present, i));
    } else if k < i {
        assert(!usable(candidates, present, k));
    }
}

/// Resolution settles on a usable candidate that no usable candidate
/// precedes: an earlier location is always preferred over a later one.
pub proof fn lemma_resolves_to_first_usable(
    candidates: Seq<Seq<char>>,
    present: Seq<bool>,
    i: int,
)
    requires
        first_usable(candidates, present, i),
    ensures
        resolved_path(candidates, present) == candidates[i],
{
    let k = choose|k: int| first_usable(candidates, present, k);
    lemma_first_usable_unique(candidates, present, i, k);
}

/// When no candidate is usable, resolution degrades to the bare command
/// name.
pub proof fn lemma_resolves_to_fallback(candidates: Seq<Seq<char>>, present: Seq<bool>)
    requires
        forall|i: int| !usable(candidates, present, i),
    ensures
        resolved_path(candidates, present) == FALLBACK_COMMAND@,
{
}

/// A usable candidate is never passed over for the bare command name:
/// resolution settles on it, or on a usable candidate that precedes it.
pub proof fn lemma_usable_is_found(candidates: Seq<Seq<char>>, present: Seq<bool>, i: int)
    requires
        usable(candidates, present, i),
    ensures
        exists|k: int|
            0 <= k <= i && #[trigger] first_usable(candidates, present, k) && resolved_path(
                candidates,
                present,
            ) == candidates[k],
    decreases i,
{
    if exists|j: int| 0 <= j < i && usable(candidates, present, j) {
        let j = choose|j: int| 0 <= j < i && usable(candidates, present, j);
        lemma_usable_is_found(candidates, present, j);
    } else {
        assert(first_usable(candidates, present, i));
        lemma_resolves_to_first_usable(candidates, present, i);
    }
}

/// Resolution never fails: the result is one of the candidates that were
/// seen on disk, or the bare command name.
pub proof fn lemma_resolution_is_total(candidates: Seq<Seq<char>>, present: Seq<bool>)
    ensures
        resolved_path(candidates, present) == FALLBACK_COMMAND@ || exists|i: int|
            usable(candidates, present, i) && resolved_path(candidates, present) == candidates[i],
{
    if exists|i: int| first_usable(candidates, present, i) {
        let k = choose|k: int| first_usable(candidates, present, k);
        assert(usable(candidates, present, k));
    }
}

/// An executable found below the installation root is preferred over the
/// home directory and over every system-wide location.
pub proof fn lemma_install_root_preferred(env: EnvironmentView, present: Seq<bool>)
    requires
        env.install_root is Some,
        present.len() > 0,
        present[0],
    ensures
        resolved_path(candidate_paths(env), present) == env.install_root->0 + INSTALL_ROOT_BINARY@,
{
    reveal_strlit("/bin/bun");
    assert(first_usable(candidate_paths(env), present, 0));
    lemma_resolves_to_first_usable(candidate_paths(env), present, 0);
}

/// When none of the install locations exists, resolution returns the bare
/// command name, whatever the environment names.
pub proof fn lemma_nothing_present_falls_back(env: EnvironmentView, present: Seq<bool>)
    requires
        forall|i: int| 0 <= i < present.len() ==> !present[i],
    ensures
        resolved_path(candidate_paths(env), present) == FALLBACK_COMMAND@,
{
    lemma_resolves_to_fallback(candidate_paths(env), present);
}

/// The install locations for `env`, in order of preference.
pub fn bun_candidates(env: &Environment) -> (candidates: Vec<String>)
    ensures
        candidates.deep_view() == candidate_paths(env@),
{
    let from_root = match &env.install_root {
        Some(root) => root.clone().concat(INSTALL_ROOT_BINARY),
        None => String::new(),
    };
    let mut candidates: Vec<String> = Vec::new();
    candidates.push(from_root);
    candidates.push(env.home_dir().concat(HOME_BINARY));
    candidates.push(String::from_str(SYSTEM_LOCAL_BINARY));
    candidates.push(String::from_str(SYSTEM_BINARY));
    assert(candidates.deep_view() =~= candidate_paths(env@));
    candidates
}

/// Picks the executable: the first candidate that names a path and was seen
/// on disk, or [`FALLBACK_COMMAND`] when there is none. Resolution never
/// fails.
///
/// `present[i]` says whether `candidates[i]` exists on disk.
pub fn find_bun(candidates: &Vec<String>, present: &Vec<bool>) -> (path: String)
    ensures
        path@ == resolved_path(candidates.deep_view(), present@),
{
    let ghost paths = candidates.deep_view();
    let mut i: usize = 0;
    while i < candidates.len()
        invariant
            0 <= i <= candidates.len(),
            paths == candidates.deep_view(),
            forall|j: int| 0 <= j < i ==> !usable(paths, present@, j),
        decreases candidates.len() - i,
    {
        if !candidates[i].as_str().is_empty() && i < present.len() && present[i] {
            proof {
                lemma_resolves_to_first_usable(paths, present@, i as int);
            }
            return candidates[i].clone();
        }
        i += 1;
    }
    String::from_str(FALLBACK_COMMAND)
}

} // verus!
