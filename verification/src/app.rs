use vstd::prelude::*;

use crate::entry::PathEntry;
use crate::entry::spec_toggled;
use crate::list::StatefulList;
use crate::search::SearchError;
use crate::search::glob_pattern_ok;
use crate::search::search;

verus! {

/// The interaction mode: `Normal` browses, marks and deletes entries;
/// `Insert` composes a new search pattern. Exactly one holds at any time and
/// transitions are explicit.
#[derive(Clone, Copy, Debug, PartialEq, Eq, Structural)]
pub enum AppMode {
    Normal,
    Insert,
}

/// A named text accumulator for the pattern being composed. Its content
/// persists across mode switches and takes effect only when a search is
/// committed.
#[derive(Debug, PartialEq)]
pub struct Input {
    /// The label under which the field is shown.
    pub name: String,
    /// The text accumulated so far.
    pub content: String,
}

/// Relies on String::push: appends the character to the end of the string.
#[verifier::external_body]
fn string_push(s: &mut String, ch: char)
    ensures
        final(s)@ == old(s)@.push(ch),
{
    s.push(ch);
}

/// Relies on String::pop: removes and returns the last character, or returns
/// `None` and leaves the string untouched when it is empty.
#[verifier::external_body]
fn string_pop(s: &mut String) -> (r: Option<char>)
    ensures
        old(s)@.len() == 0 ==> final(s)@ == old(s)@ && r is None,
        old(s)@.len() > 0 ==> final(s)@ == old(s)@.drop_last() && r == Option::Some(
            old(s)@.last(),
        ),
{
    s.pop()
}

impl Input {
    /// An empty accumulator under the given label.
    pub fn new(name: &str) -> (r: Input)
        ensures
            r.name@ == name@,
            r.content@ == Seq::<char>::empty(),
    {
        Input { name: name.to_owned(), content: String::new() }
    }

    /// Appends one character to the content.
    pub fn push_ch(&mut self, ch: char)
        ensures
            final(self).name == old(self).name,
            final(self).content@ == old(self).content@.push(ch),
    {
        string_push(&mut self.content, ch);
    }

    /// Removes the last character of the content; a no-op when it is empty.
    pub fn pop_ch(&mut self)
        ensures
            final(self).name == old(self).name,
            old(self).content@.len() == 0 ==> final(self).content@ == old(self).content@,
            old(self).content@.len() > 0 ==> final(self).content@ == old(self).content@.drop_last(),
    {
        string_pop(&mut self.content);
    }
}

/// The predicate that keeps exactly the entries whose deletion mark is `m`.
pub open spec fn marked_eq(m: bool) -> spec_fn(PathEntry) -> bool {
    |e: PathEntry| e.marked_for_delete == m
}

/// The whole application state: the entry list currently displayed, the
/// interaction mode, the pattern accumulator, and the case-sensitivity option
/// the search engine consults.
#[derive(Debug, PartialEq)]
pub struct App {
    /// The entries of the last committed search, with the selection cursor.
    pub list: StatefulList<PathEntry>,
    /// The current interaction mode.
    pub app_mode: AppMode,
    /// The pattern being composed.
    pub pattern: Input,
    /// Whether searches match case-sensitively.
    pub case_sensitive: bool,
}

impl App {
    /// Well-formedness: the entry list's selection lies inside the list.
    pub open spec fn wf(self) -> bool {
        self.list.wf()
    }

    /// A fresh application: empty list, `Normal` mode, empty pattern, and
    /// case-sensitive matching, the glob matcher's default.
    pub fn new() -> (a: App)
        ensures
            a.wf(),
            a.list.items@ == Seq::<PathEntry>::empty(),
            a.list.selected is None,
            a.app_mode == AppMode::Normal,
            a.pattern.name@ == "Pattern"@,
            a.pattern.content@ == Seq::<char>::empty(),
            a.case_sensitive,
    {
        App {
            list: StatefulList::new(),
            app_mode: AppMode::Normal,
            pattern: Input::new("Pattern"),
            case_sensitive: true,
        }
    }

    /// Switches the interaction mode and changes nothing else.
    pub fn set_app_mode(&mut self, app_mode: AppMode)
        ensures
            final(self).app_mode == app_mode,
            final(self).list == old(self).list,
            final(self).pattern == old(self).pattern,
            final(self).case_sensitive == old(self).case_sensitive,
    {
        self.app_mode = app_mode;
    }

    /// Appends one character to the pattern accumulator.
    pub fn push_ch(&mut self, ch: char)
        ensures
            final(self).pattern.content@ == old(self).pattern.content@.push(ch),
            final(self).pattern.name == old(self).pattern.name,
            final(self).list == old(self).list,
            final(self).app_mode == old(self).app_mode,
            final(self).case_sensitive == old(self).case_sensitive,
    {
        self.pattern.push_ch(ch)
    }

    /// Removes the last character of the pattern accumulator; a no-op when it
    /// is empty.
    pub fn pop_ch(&mut self)
        ensures
            old(self).pattern.content@.len() == 0 ==> final(self).pattern.content@ == old(self).pattern.content@,
            old(self).pattern.content@.len() > 0 ==> final(self).pattern.content@ == old(self).pattern.content@.drop_last(),
            final(self).pattern.name == old(self).pattern.name,
            final(self).list == old(self).list,
            final(self).app_mode == old(self).app_mode,
            final(self).case_sensitive == old(self).case_sensitive,
    {
        self.pattern.pop_ch()
    }

    /// Whether searches match case-sensitively.
    pub fn is_case_sensitive(&self) -> (r: bool)
        ensures
            r == self.case_sensitive,
    {
        self.case_sensitive
    }

    /// Flips the case-sensitivity option and changes nothing else.
    pub fn toggle_case_sensitive(&mut self)
        ensures
            final(self).case_sensitive == !old(self).case_sensitive,
            final(self).list == old(self).list,
            final(self).app_mode == old(self).app_mode,
            final(self).pattern == old(self).pattern,
    {
        self.case_sensitive = !self.case_sensitive;
    }

    /// Runs the search engine on the current pattern.
    fn search_with_pattern(&self) -> (r: Result<Vec<PathEntry>, SearchError>)
        ensures
            r is Ok <==> glob_pattern_ok(self.pattern.content@),
            r matches Err(e) ==> e == SearchError::InvalidPattern,
            r matches Ok(es) ==> forall|j: int|
                0 <= j < es@.len() ==> (#[trigger] es@[j]).marked_for_delete,
    {
        search(self.pattern.content.as_str(), self.case_sensitive)
    }

    /// Replaces the displayed list with fresh entries, selection reset to the
    /// first entry when there is one.
    fn update_list(&mut self, entries: Vec<PathEntry>)
        ensures
            final(self).wf(),
            final(self).list.items == entries,
            entries@.len() > 0 ==> final(self).list.selected == Option::Some(0usize),
            entries@.len() == 0 ==> final(self).list.selected is None,
            final(self).app_mode == old(self).app_mode,
            final(self).pattern == old(self).pattern,
            final(self).case_sensitive == old(self).case_sensitive,
    {
        self.list = StatefulList::with_items(entries);
    }

    /// Commits the composed pattern: reverts to `Normal` mode, runs the
    /// search, and on success replaces the displayed list with the fresh
    /// entries, all marked for deletion and with the first one selected. On a
    /// malformed pattern the list and its selection are left exactly as they
    /// were and the error is returned, so the user is not stranded in insert
    /// mode by a bad pattern.
    pub fn set_pattern(&mut self) -> (r: Result<(), SearchError>)
        requires
            old(self).wf(),
        ensures
            final(self).wf(),
            final(self).app_mode == AppMode::Normal,
            final(self).pattern == old(self).pattern,
            final(self).case_sensitive == old(self).case_sensitive,
            r is Ok <==> glob_pattern_ok(old(self).pattern.content@),
            r matches Err(e) ==> e == SearchError::InvalidPattern && final(self).list == old(self).list,
            r is Ok ==> forall|j: int|
                0 <= j < final(self).list.items@.len() ==> (#[trigger] final(self).list.items@[j]).marked_for_delete,
            r is Ok ==> (final(self).list.items@.len() > 0 ==> final(self).list.selected
                == Option::Some(0usize)),
            r is Ok ==> (final(self).list.items@.len() == 0 ==> final(self).list.selected is None),
    {
        self.app_mode = AppMode::Normal;
        match self.search_with_pattern() {
            Ok(entries) => {
                self.update_list(entries);
                Ok(())
            },
            Err(e) => Err(e),
        }
    }

    /// Flips the deletion mark of the selected entry; a no-op when nothing is
    /// selected. The selection itself does not move.
    pub fn toggle_delete(&mut self)
        requires
            old(self).wf(),
        ensures
            final(self).wf(),
            final(self).list.selected == old(self).list.selected,
            final(self).app_mode == old(self).app_mode,
            final(self).pattern == old(self).pattern,
            final(self).case_sensitive == old(self).case_sensitive,
            old(self).list.selected is None ==> final(self).list == old(self).list,
            old(self).list.selected matches Some(i) ==> final(self).list.items@ == old(self).list.items@.update(i as int, spec_toggled(old(self).list.items@[i as int])),
    {
        let idx = self.list.get_index();
        match idx {
            None => {},
            Some(i) => {
                self.list.items[i].toggle_delete();
            },
        }
    }

    /// The entries whose deletion mark equals `marked`, in list order.
    pub fn get_entries_by(&self, marked: bool) -> (r: Vec<PathEntry>)
        ensures
            r@ == self.list.items@.filter(marked_eq(marked)),
    {
        let mut r: Vec<PathEntry> = Vec::new();
        let n = self.list.items.len();
        let mut k: usize = 0;
        proof {
            reveal(Seq::filter);
            assert(self.list.items@.take(0int) =~= Seq::<PathEntry>::empty());
        }
        while k < n
            invariant
                n == self.list.items@.len(),
                k <= n,
                r@ == self.list.items@.take(k as int).filter(marked_eq(marked)),
            decreases n - k,
        {
            proof {
                reveal(Seq::filter);
                let s = self.list.items@;
                assert(s.take(k as int + 1).drop_last() =~= s.take(k as int));
                assert(s.take(k as int + 1).last() == s[k as int]);
            }
            let e = &self.list.items[k];
            if e.is_delete() == marked {
                r.push(e.clone());
            }
            k = k + 1;
        }
        proof {
            assert(self.list.items@.take(n as int) =~= self.list.items@);
        }
        r
    }

    /// Applies the visible half of a commit-delete. The caller owns the
    /// filesystem half: it removes the paths of `get_entries_by(true)` from
    /// disk in list order, stops at the first failure, and reports through
    /// `removed_all` whether every removal succeeded. On success the list is
    /// replaced by the surviving, unmarked entries in their original order,
    /// with the selection reset to the first of them; on any failure the list
    /// and its selection are left exactly as they were, so the user can
    /// inspect what failed and retry.
    pub fn delete_active_entries(&mut self, removed_all: bool)
        requires
            old(self).wf(),
        ensures
            final(self).wf(),
            final(self).app_mode == old(self).app_mode,
            final(self).pattern == old(self).pattern,
            final(self).case_sensitive == old(self).case_sensitive,
            !removed_all ==> final(self).list == old(self).list,
            removed_all ==> final(self).list.items@ == old(self).list.items@.filter(
                marked_eq(false),
            ),
            removed_all ==> forall|j: int|
                0 <= j < final(self).list.items@.len() ==> !(#[trigger] final(self).list.items@[j]).marked_for_delete,
            removed_all ==> (final(self).list.items@.len() > 0 ==> final(self).list.selected
                == Option::Some(0usize)),
            removed_all ==> (final(self).list.items@.len() == 0 ==> final(self).list.selected is None),
    {
        if removed_all {
            let survivors = self.get_entries_by(false);
            self.update_list(survivors);
            proof {
                let s = old(self).list.items@;
                let f = s.filter(marked_eq(false));
                assert forall|j: int| 0 <= j < f.len() implies !(#[trigger] f[j]).marked_for_delete by {
                    s.lemma_filter_pred(marked_eq(false), j);
                }
            }
        }
    }
}

/// No path that a successful commit-delete removed reappears among the
/// survivors: when every entry carrying a given path is marked for deletion,
/// the surviving, unmarked subset holds no entry with that path.
pub proof fn lemma_no_deleted_path_survives(entries: Seq<PathEntry>, p: Seq<char>)
    requires
        forall|i: int|
            0 <= i < entries.len() && (#[trigger] entries[i]).path@ == p
                ==> entries[i].marked_for_delete,
    ensures
        forall|j: int|
            0 <= j < entries.filter(marked_eq(false)).len() ==> (#[trigger] entries.filter(
                marked_eq(false),
            )[j]).path@ != p,
    decreases entries.len(),
{
    reveal(Seq::filter);
    if entries.len() > 0 {
        let d = entries.drop_last();
        let last = entries.last();
        assert(forall|i: int|
            0 <= i < d.len() && (#[trigger] d[i]).path@ == p ==> d[i].marked_for_delete);
        lemma_no_deleted_path_survives(d, p);
        let f = entries.filter(marked_eq(false));
        let fd = d.filter(marked_eq(false));
        if marked_eq(false)(last) {
            assert(f == fd.push(last));
            assert(entries[entries.len() - 1] == last);
            assert(last.path@ != p);
            assert forall|j: int| 0 <= j < f.len() implies (#[trigger] f[j]).path@ != p by {
                if j < fd.len() {
                    assert(f[j] == fd[j]);
                } else {
                    assert(f[j] == last);
                }
            }
        } else {
            assert(f == fd);
        }
    }
}

} // verus!

