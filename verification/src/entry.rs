use vstd::prelude::*;

verus! {

/// One matched filesystem path, its file-or-directory classification, and its
/// deletion mark.
///
/// The classification is probed once when the entry is created and never
/// re-probed. A fresh entry starts marked for deletion: the user actively
/// unmarks the entries that should survive. The mark changes only through an
/// explicit toggle.
#[derive(Debug, PartialEq)]
pub struct PathEntry {
    /// The matched path, exactly as the matcher produced it.
    pub path: String,
    /// Whether the path named a regular file when the entry was created.
    pub is_file: bool,
    /// Whether a commit-delete would remove this entry.
    pub marked_for_delete: bool,
}

/// The entry as it stands after one toggle of its deletion mark.
pub open spec fn spec_toggled(e: PathEntry) -> PathEntry {
    PathEntry { marked_for_delete: !e.marked_for_delete, ..e }
}

impl PathEntry {
    /// Creates a fresh entry for a matched path, already marked for deletion.
    pub fn new(path: String, is_file: bool) -> (e: PathEntry)
        ensures
            e.path == path,
            e.is_file == is_file,
            e.marked_for_delete,
    {
        PathEntry { path, is_file, marked_for_delete: true }
    }

    /// Flips the deletion mark and changes nothing else.
    pub fn toggle_delete(&mut self)
        ensures
            *final(self) == spec_toggled(*old(self)),
    {
        self.marked_for_delete = !self.marked_for_delete;
    }

    /// Whether this entry is currently marked for deletion.
    pub fn is_delete(&self) -> (r: bool)
        ensures
            r == self.marked_for_delete,
    {
        self.marked_for_delete
    }
}

impl Clone for PathEntry {
    fn clone(&self) -> (r: Self)
        ensures
            r == *self,
    {
        PathEntry {
            path: self.path.clone(),
            is_file: self.is_file,
            marked_for_delete: self.marked_for_delete,
        }
    }
}

/// Toggling the deletion mark twice returns the entry to its original value.
pub proof fn lemma_toggle_twice(e: PathEntry)
    ensures
        spec_toggled(spec_toggled(e)) == e,
{
}

} // verus!
