use vstd::prelude::*;

use crate::entry::PathEntry;

verus! {

/// Why a search could not run.
#[derive(Clone, Copy, Debug, PartialEq, Eq, Structural)]
pub enum SearchError {
    /// The pattern is syntactically malformed (for instance an unbalanced
    /// bracket), so it cannot be compiled at all.
    InvalidPattern,
}

/// Whether the glob matcher accepts `pattern` as syntactically well formed.
/// This is a property of the pattern text alone: the matcher rejects a
/// pattern before it ever looks at the filesystem.
pub uninterp spec fn glob_pattern_ok(pattern: Seq<char>) -> bool;

/// Relies on glob::glob_with: it returns `Err` exactly when compiling the
/// pattern fails (`glob::Pattern::new` rejects the pattern or one of its
/// path components), which depends on the pattern text alone; on success it
/// yields the matching paths in traversal order, and entries the walk could
/// not read are dropped. Which paths come back depends on what is on disk, so
/// nothing is stated of the `Ok` contents.
#[verifier::external_body]
fn glob_paths(pattern: &str, case_sensitive: bool) -> (r: Result<Vec<String>, SearchError>)
    ensures
        r is Ok <==> glob_pattern_ok(pattern@),
{
    let mut options = glob::MatchOptions::new();
    options.case_sensitive = case_sensitive;
    match glob::glob_with(pattern, options) {
        Ok(paths) => Ok(
            paths.filter_map(|outcome| outcome.ok().map(|p| p.display().to_string())).collect(),
        ),
        Err(_) => Err(SearchError::InvalidPattern),
    }
}

/// Relies on std::path::Path::is_file: probes the filesystem once for whether
/// the path currently names an existing regular file. The answer depends on
/// what is on disk, so nothing is stated of it.
#[verifier::external_body]
fn path_is_file(path: &str) -> bool {
    std::path::Path::new(path).is_file()
}

/// Builds the fresh entry set for the paths the matcher produced: exactly one
/// entry per path, in the given order, entry `j` carrying `paths[j]` and
/// starting marked for deletion. Each entry's classification comes from one
/// filesystem probe of its path, so nothing is stated of `is_file`.
pub fn entries_from_paths(paths: Vec<String>) -> (es: Vec<PathEntry>)
    ensures
        es@.len() == paths@.len(),
        forall|j: int|
            0 <= j < paths@.len() ==> (#[trigger] es@[j]).path == paths@[j]
                && es@[j].marked_for_delete,
{
    let mut entries: Vec<PathEntry> = Vec::new();
    let mut k: usize = 0;
    while k < paths.len()
        invariant
            k <= paths@.len(),
            entries@.len() == k,
            forall|j: int|
                0 <= j < k ==> (#[trigger] entries@[j]).path == paths@[j]
                    && entries@[j].marked_for_delete,
        decreases paths@.len() - k,
    {
        let path = paths[k].clone();
        let is_file = path_is_file(path.as_str());
        entries.push(PathEntry::new(path, is_file));
        k = k + 1;
    }
    entries
}

/// Expands `pattern` against the filesystem and returns, via
/// `entries_from_paths`, one fresh entry per matched path in the matcher's
/// order, each already marked for deletion. Fails, with the filesystem
/// untouched, exactly when the pattern is malformed. Which paths match
/// depends on what is on disk, so the correspondence between the entries and
/// the matcher's paths is stated on `entries_from_paths`, which takes those
/// paths as an argument.
pub fn search(pattern: &str, case_sensitive: bool) -> (r: Result<Vec<PathEntry>, SearchError>)
    ensures
        r is Ok <==> glob_pattern_ok(pattern@),
        r matches Err(e) ==> e == SearchError::InvalidPattern,
        r matches Ok(es) ==> forall|j: int|
            0 <= j < es@.len() ==> (#[trigger] es@[j]).marked_for_delete,
{
    match glob_paths(pattern, case_sensitive) {
        Ok(paths) => Ok(entries_from_paths(paths)),
        Err(e) => Err(e),
    }
}

} // verus!
