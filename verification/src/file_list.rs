//! One pane: an ordered run of entries plus an optional cursor.
//!
//! Cursor moves clamp to the ends of the list and report whether the index
//! actually changed, so a caller knows when a dependent pane must be
//! re-derived.  An empty pane never holds a cursor and every move on it is a
//! no-op.

use vstd::prelude::*;

use crate::entry::{entries_view, EntryView, FileInfo};

verus! {

/// Mathematical image of one pane.
#[verifier::ext_equal]
pub ghost struct FileListView {
    pub files: Seq<EntryView>,
    pub selected: Option<int>,
}

/// Index of the first entry whose path is `path`, if any.
pub open spec fn find_path(files: Seq<EntryView>, path: Seq<u8>) -> Option<int>
    decreases files.len(),
{
    if files.len() == 0 {
        None
    } else if files[0].path == path {
        Some(0)
    } else {
        match find_path(files.skip(1), path) {
            Some(j) => Some(j + 1),
            None => None,
        }
    }
}

/// What `find_path` returns: the first match when there is one, nothing when
/// there is none.
pub proof fn lemma_find_path_props(files: Seq<EntryView>, path: Seq<u8>)
    ensures
        match find_path(files, path) {
            Some(i) => 0 <= i < files.len() && files[i].path == path && (forall|k: int|
                0 <= k < i ==> files[k].path != path),
            None => forall|k: int| 0 <= k < files.len() ==> files[k].path != path,
        },
    decreases files.len(),
{
    if files.len() > 0 && files[0].path != path {
        let rest = files.skip(1);
        lemma_find_path_props(rest, path);
        assert(forall|k: int| 0 <= k < rest.len() ==> rest[k] == files[k + 1]);
        match find_path(rest, path) {
            Some(j) => {
                assert(rest[j] == files[j + 1]);
                assert forall|k: int| 0 <= k < j + 1 implies files[k].path != path by {
                    if k > 0 {
                        assert(rest[k - 1].path != path);
                    }
                }
            },
            None => {
                assert forall|k: int| 0 <= k < files.len() implies files[k].path != path by {
                    if k > 0 {
                        assert(rest[k - 1].path != path);
                    }
                }
            },
        }
    }
}

/// A first match at `i` pins `find_path` down to `Some(i)`.
pub proof fn lemma_find_path_at(files: Seq<EntryView>, path: Seq<u8>, i: int)
    requires
        0 <= i < files.len(),
        files[i].path == path,
        forall|k: int| 0 <= k < i ==> files[k].path != path,
    ensures
        find_path(files, path) == Some(i),
    decreases i,
{
    if i > 0 {
        assert(forall|k: int| 0 <= k < files.len() - 1 ==> files.skip(1)[k] == files[k + 1]);
        lemma_find_path_at(files.skip(1), path, i - 1);
    }
}

/// No match anywhere means `find_path` finds nothing.
pub proof fn lemma_find_path_none(files: Seq<EntryView>, path: Seq<u8>)
    requires
        forall|k: int| 0 <= k < files.len() ==> files[k].path != path,
    ensures
        find_path(files, path) is None,
    decreases files.len(),
{
    if files.len() > 0 {
        assert(forall|k: int| 0 <= k < files.len() - 1 ==> files.skip(1)[k] == files[k + 1]);
        lemma_find_path_none(files.skip(1), path);
    }
}

impl FileListView {
    /// The cursor, when present, points into the list.
    pub open spec fn wf(self) -> bool {
        match self.selected {
            Some(i) => 0 <= i < self.files.len(),
            None => true,
        }
    }

    pub open spec fn empty() -> FileListView {
        FileListView { files: Seq::empty(), selected: None }
    }

    /// A fresh pane: cursor on the first entry, or absent when there is none.
    pub open spec fn with_first_selected(files: Seq<EntryView>) -> FileListView {
        FileListView {
            files,
            selected: if files.len() == 0 {
                None
            } else {
                Some(0 as int)
            },
        }
    }

    /// A fresh pane with the cursor on the first entry whose path is `path`,
    /// absent when the lookup fails.
    pub open spec fn with_path_selected(files: Seq<EntryView>, path: Seq<u8>) -> FileListView {
        FileListView { files, selected: find_path(files, path) }
    }

    /// The entry under the cursor, if any.
    pub open spec fn selected_entry(self) -> Option<EntryView> {
        match self.selected {
            Some(i) => if 0 <= i < self.files.len() {
                Some(self.files[i])
            } else {
                None
            },
            None => None,
        }
    }

    /// The cursor moved `n` entries down, clamped to the last index.
    pub open spec fn moved_next_by(self, n: nat) -> FileListView {
        match self.selected {
            Some(i) => if self.files.len() > 0 {
                FileListView {
                    files: self.files,
                    selected: Some(
                        if i + n >= self.files.len() {
                            self.files.len() - 1
                        } else {
                            i + n
                        },
                    ),
                }
            } else {
                self
            },
            None => self,
        }
    }

    /// The cursor moved `n` entries up, clamped to the first index.
    pub open spec fn moved_prev_by(self, n: nat) -> FileListView {
        match self.selected {
            Some(i) => FileListView {
                files: self.files,
                selected: Some(
                    if i - n >= 0 {
                        i - n
                    } else {
                        0 as int
                    },
                ),
            },
            None => self,
        }
    }

    /// The same entries with the cursor cleared.
    pub open spec fn unselected(self) -> FileListView {
        FileListView { files: self.files, selected: None }
    }
}

/// Clamped cursor moves stay inside the list and never touch the entries.
pub proof fn lemma_moved_wf(l: FileListView, n: nat)
    requires
        l.wf(),
    ensures
        l.moved_next_by(n).wf(),
        l.moved_next_by(n).files == l.files,
        l.moved_prev_by(n).wf(),
        l.moved_prev_by(n).files == l.files,
{
}

/// A pane selected by path lookup is well formed.
pub proof fn lemma_with_path_selected_wf(files: Seq<EntryView>, path: Seq<u8>)
    ensures
        FileListView::with_path_selected(files, path).wf(),
{
    lemma_find_path_props(files, path);
}

/// One pane's entries and cursor.
pub struct FileList {
    files: Vec<FileInfo>,
    selected_file: Option<usize>,
}

impl View for FileList {
    type V = FileListView;

    closed spec fn view(&self) -> FileListView {
        FileListView {
            files: entries_view(self.files@),
            selected: match self.selected_file {
                Some(i) => Some(i as int),
                None => None,
            },
        }
    }
}

impl FileList {
    /// A pane over `files` with the cursor on the first entry.
    pub fn new(files: Vec<FileInfo>) -> (l: FileList)
        ensures
            l@ == FileListView::with_first_selected(entries_view(files@)),
            l@.wf(),
    {
        let selected_file = if files.len() == 0 {
            None
        } else {
            Some(0)
        };
        FileList { files, selected_file }
    }

    /// A pane over `files` with the cursor on the first entry whose path is
    /// `path`; the cursor is absent when no entry matches.
    pub fn new_with_path_selected(files: Vec<FileInfo>, path: &Vec<u8>) -> (l: FileList)
        ensures
            l@ == FileListView::with_path_selected(entries_view(files@), path@),
            l@.wf(),
    {
        let ghost fv = entries_view(files@);
        let mut i: usize = 0;
        let mut found: Option<usize> = None;
        while i < files.len()
            invariant
                i <= files.len(),
                fv == entries_view(files@),
                match found {
                    Some(j) => 0 <= j < i && fv[j as int].path == path@ && (forall|k: int|
                        0 <= k < j ==> fv[k].path != path@),
                    None => forall|k: int| 0 <= k < i ==> fv[k].path != path@,
                },
            decreases files.len() - i,
        {
            if found.is_none() {
                if crate::order::bytes_eq(files[i].path(), path) {
                    found = Some(i);
                }
            }
            i = i + 1;
        }
        proof {
            match found {
                Some(j) => lemma_find_path_at(fv, path@, j as int),
                None => lemma_find_path_none(fv, path@),
            }
        }
        FileList { files, selected_file: found }
    }

    /// The entries, in pane order.
    pub fn files(&self) -> (r: &Vec<FileInfo>)
        ensures
            entries_view(r@) == self@.files,
    {
        &self.files
    }

    /// The cursor index, if any.
    pub fn selected_file(&self) -> (r: Option<usize>)
        ensures
            match r {
                Some(i) => self@.selected == Some(i as int),
                None => self@.selected is None,
            },
    {
        self.selected_file
    }

    /// The entry under the cursor, if any.
    pub fn get_selected_file(&self) -> (r: Option<&FileInfo>)
        ensures
            match r {
                Some(f) => self@.selected_entry() == Some(f@),
                None => self@.selected_entry() is None,
            },
    {
        match self.selected_file {
            None => None,
            Some(i) => if i < self.files.len() {
                Some(&self.files[i])
            } else {
                None
            },
        }
    }

    /// Puts the cursor on the first entry, or clears it when the pane is
    /// empty.
    pub fn select_first(&mut self)
        ensures
            final(self)@ == FileListView::with_first_selected(old(self)@.files),
    {
        self.selected_file = if self.files.len() == 0 {
            None
        } else {
            Some(0)
        };
    }

    /// Clears the cursor.
    pub fn unselect(&mut self)
        ensures
            final(self)@ == old(self)@.unselected(),
    {
        self.selected_file = None;
    }

    /// Moves the cursor one entry down, clamped to the end; reports whether
    /// the index changed.
    pub fn select_next(&mut self) -> (changed: bool)
        ensures
            final(self)@ == old(self)@.moved_next_by(1),
            changed == (final(self)@.selected != old(self)@.selected),
    {
        self.select_next_by_n(1)
    }

    /// Moves the cursor one entry up, clamped to the start; reports whether
    /// the index changed.
    pub fn select_prev(&mut self) -> (changed: bool)
        ensures
            final(self)@ == old(self)@.moved_prev_by(1),
            changed == (final(self)@.selected != old(self)@.selected),
    {
        self.select_prev_by_n(1)
    }

    /// Moves the cursor `n` entries down, clamped to the end; reports whether
    /// the index changed.
    pub fn select_next_by_n(&mut self, n: usize) -> (changed: bool)
        ensures
            final(self)@ == old(self)@.moved_next_by(n as nat),
            changed == (final(self)@.selected != old(self)@.selected),
    {
        let len = self.files.len();
        match self.selected_file {
            Some(i) => {
                if len > 0 {
                    let ni = if i >= len - 1 {
                        len - 1
                    } else if n > len - 1 - i {
                        len - 1
                    } else {
                        i + n
                    };
                    self.selected_file = Some(ni);
                    ni != i
                } else {
                    false
                }
            },
            None => false,
        }
    }

    /// Moves the cursor `n` entries up, clamped to the start; reports whether
    /// the index changed.
    pub fn select_prev_by_n(&mut self, n: usize) -> (changed: bool)
        ensures
            final(self)@ == old(self)@.moved_prev_by(n as nat),
            changed == (final(self)@.selected != old(self)@.selected),
    {
        match self.selected_file {
            Some(i) => {
                let ni = if n > i {
                    0
                } else {
                    i - n
                };
                self.selected_file = Some(ni);
                ni != i
            },
            None => false,
        }
    }
}

impl Default for FileList {
    /// An empty pane with no cursor.
    fn default() -> (r: FileList)
        ensures
            r@ == FileListView::empty(),
    {
        FileList { files: Vec::new(), selected_file: None }
    }
}

} // verus!
