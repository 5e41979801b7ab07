//! The navigation state machine: a window of two panes, the active pane
//! index, and the base path anchoring the left pane.
//!
//! Directory contents come from the caller.  A mutating operation returns
//! the path whose listing it needs, if any; the caller reads that directory
//! and hands the entries back through `refresh_files_to_right`,
//! `shift_window_left` or `shift_window_right`.  Every transition is pinned
//! to a spec-level function over [`StateView`].

use vstd::prelude::*;

use crate::entry::{entries_view, FileInfo};
use crate::file_list::{FileList, FileListView};
use crate::paths::{parent_of, spec_parent};

verus! {

/// The view of an optional byte vector.
pub open spec fn opt_bytes(r: Option<Vec<u8>>) -> Option<Seq<u8>> {
    match r {
        Some(v) => Some(v@),
        None => None,
    }
}

/// The path of `e` when it is a directory entry, and nothing otherwise.
pub open spec fn dir_target(e: Option<crate::entry::EntryView>) -> Option<Seq<u8>> {
    match e {
        Some(e) => if e.is_dir {
            Some(e.path)
        } else {
            None
        },
        None => None,
    }
}

/// Mathematical image of the whole navigation state.
#[verifier::ext_equal]
pub ghost struct StateView {
    pub base: Seq<u8>,
    pub left: FileListView,
    pub right: FileListView,
    pub active: int,
}

impl StateView {
    pub open spec fn wf(self) -> bool {
        &&& 0 <= self.active < 2
        &&& self.left.wf()
        &&& self.right.wf()
    }

    /// The state right after start-up, before the first preview listing.
    pub open spec fn initial(base: Seq<u8>, files: Seq<crate::entry::EntryView>) -> StateView {
        StateView {
            base,
            left: FileListView::with_first_selected(files),
            right: FileListView::empty(),
            active: 0,
        }
    }

    /// The pane whose cursor responds to vertical moves.
    pub open spec fn active_pane(self) -> FileListView {
        if self.active == 0 {
            self.left
        } else {
            self.right
        }
    }

    /// Whether an unused pane slot remains right of the active pane.
    pub open spec fn space_to_right(self) -> bool {
        self.active == 0
    }

    /// The directory whose listing belongs in the pane right of the active
    /// one: the active pane's selected entry, when that entry is a directory
    /// and a slot exists to show it.
    pub open spec fn preview_target(self) -> Option<Seq<u8>> {
        if self.space_to_right() {
            dir_target(self.active_pane().selected_entry())
        } else {
            None
        }
    }

    /// The same state with the right pane emptied.
    pub open spec fn emptied_right(self) -> StateView {
        StateView {
            base: self.base,
            left: self.left,
            right: FileListView::empty(),
            active: self.active,
        }
    }

    /// The state after the active pane's cursor was recomputed to `moved`:
    /// when the cursor actually moved and a pane slot lies to the right, that
    /// slot is emptied until its listing arrives.
    pub open spec fn vertical_step(self, moved: FileListView) -> StateView {
        if moved.selected == self.active_pane().selected {
            self
        } else if self.active == 0 {
            StateView {
                base: self.base,
                left: moved,
                right: FileListView::empty(),
                active: self.active,
            }
        } else {
            StateView { base: self.base, left: self.left, right: moved, active: self.active }
        }
    }

    /// The listing a vertical move asks for: the newly selected entry's
    /// path, when the cursor moved, a slot lies to the right, and the entry
    /// is a directory.
    pub open spec fn vertical_request(self, moved: FileListView) -> Option<Seq<u8>> {
        if moved.selected != self.active_pane().selected && self.space_to_right() {
            dir_target(moved.selected_entry())
        } else {
            None
        }
    }

    pub open spec fn spec_on_page_up(self, n: nat) -> StateView {
        self.vertical_step(self.active_pane().moved_prev_by(n))
    }

    pub open spec fn page_up_request(self, n: nat) -> Option<Seq<u8>> {
        self.vertical_request(self.active_pane().moved_prev_by(n))
    }

    pub open spec fn spec_on_page_down(self, n: nat) -> StateView {
        self.vertical_step(self.active_pane().moved_next_by(n))
    }

    pub open spec fn page_down_request(self, n: nat) -> Option<Seq<u8>> {
        self.vertical_request(self.active_pane().moved_next_by(n))
    }

    /// Installing the preview listing: the right pane becomes a fresh pane
    /// over `files`.  Nothing happens when the right pane is the active one.
    pub open spec fn spec_refresh(self, files: Seq<crate::entry::EntryView>) -> StateView {
        if self.space_to_right() {
            StateView {
                base: self.base,
                left: self.left,
                right: FileListView::with_first_selected(files),
                active: self.active,
            }
        } else {
            self
        }
    }

    /// Moving left inside the window re-activates the left pane; at the left
    /// edge the state is untouched until the parent listing arrives.
    pub open spec fn spec_on_left(self) -> StateView {
        if self.active != 0 {
            StateView {
                base: self.base,
                left: self.left,
                right: self.right,
                active: self.active - 1,
            }
        } else {
            self
        }
    }

    /// The listing `on_left` asks for: the base path's parent, when the left
    /// pane is active and a parent exists.
    pub open spec fn left_request(self) -> Option<Seq<u8>> {
        if self.active == 0 {
            spec_parent(self.base)
        } else {
            None
        }
    }

    /// The outward window shift: the parent listing becomes the left pane
    /// with the cursor on the directory we came from, the old left pane
    /// moves right, and the base path climbs to the parent.
    pub open spec fn spec_shift_left(self, files: Seq<crate::entry::EntryView>) -> StateView {
        if self.active == 0 {
            match spec_parent(self.base) {
                Some(p) => StateView {
                    base: p,
                    left: FileListView::with_path_selected(files, self.base),
                    right: self.left,
                    active: 0,
                },
                None => self,
            }
        } else {
            self
        }
    }

    /// Moving right onto a selected directory activates the right pane when
    /// a slot remains; at the right edge the state is untouched until the
    /// directory's listing arrives.
    pub open spec fn spec_on_right(self) -> StateView {
        match self.active_pane().selected_entry() {
            Some(e) => if e.is_dir && self.active == 0 {
                StateView {
                    base: self.base,
                    left: self.left,
                    right: self.right,
                    active: 1,
                }
            } else {
                self
            },
            None => self,
        }
    }

    /// The listing `on_right` asks for: the selected directory's contents,
    /// when the right pane is active, its selection is a directory, and that
    /// directory's path has a parent to anchor the shifted window.
    pub open spec fn right_request(self) -> Option<Seq<u8>> {
        match self.active_pane().selected_entry() {
            Some(e) => if e.is_dir && self.active == 1 && spec_parent(e.path) is Some {
                Some(e.path)
            } else {
                None
            },
            None => None,
        }
    }

    /// The inward window shift: the old right pane becomes the left pane,
    /// the entered directory's listing becomes the right pane, and the base
    /// path advances to the entered directory's parent.
    pub open spec fn spec_shift_right(self, files: Seq<crate::entry::EntryView>) -> StateView {
        if self.active == 1 {
            match self.right.selected_entry() {
                Some(e) => if e.is_dir {
                    match spec_parent(e.path) {
                        Some(p) => StateView {
                            base: p,
                            left: self.right,
                            right: FileListView::with_first_selected(files),
                            active: 1,
                        },
                        None => self,
                    }
                } else {
                    self
                },
                None => self,
            }
        } else {
            self
        }
    }

    /// Panes right of the active one keep their cursor only as a memory; a
    /// query shows it solely for panes up to the active one.
    pub open spec fn spec_selected_in_list(self, list: int) -> Option<int> {
        if 0 <= list <= self.active && list < 2 {
            if list == 0 {
                self.left.selected
            } else {
                self.right.selected
            }
        } else {
            None
        }
    }
}

/// The navigation state: base path, two panes, active pane index.
pub struct State {
    base_path: Vec<u8>,
    left: FileList,
    right: FileList,
    selected_flist: usize,
}

impl View for State {
    type V = StateView;

    closed spec fn view(&self) -> StateView {
        StateView {
            base: self.base_path@,
            left: self.left@,
            right: self.right@,
            active: self.selected_flist as int,
        }
    }
}

impl State {
    /// A state anchored at `base_path` showing `files` in the left pane with
    /// the cursor on the first entry; the right pane awaits its first
    /// listing (see [`State::preview_path`]).
    pub fn new(base_path: Vec<u8>, files: Vec<FileInfo>) -> (s: State)
        ensures
            s@ == StateView::initial(base_path@, entries_view(files@)),
            s@.wf(),
    {
        State {
            base_path,
            left: FileList::new(files),
            right: FileList::default(),
            selected_flist: 0,
        }
    }

    /// The path anchoring the left pane.
    pub fn base_path(&self) -> (r: &Vec<u8>)
        ensures
            r@ == self@.base,
    {
        &self.base_path
    }

    /// The index of the active pane.
    pub fn active_pane_index(&self) -> (r: usize)
        ensures
            r as int == self@.active,
    {
        self.selected_flist
    }

    /// The directory whose listing belongs in the right pane now, if any;
    /// the caller lists it and calls [`State::refresh_files_to_right`].
    pub fn preview_path(&self) -> (r: Option<Vec<u8>>)
        ensures
            opt_bytes(r) == self@.preview_target(),
    {
        if self.selected_flist == 0 {
            match self.left.get_selected_file() {
                Some(f) => if f.is_dir() {
                    Some(f.path_owned())
                } else {
                    None
                },
                None => None,
            }
        } else {
            None
        }
    }

    /// Moves the active cursor one entry up; returns the directory whose
    /// listing the right pane now needs, if any.
    pub fn on_up(&mut self) -> (r: Option<Vec<u8>>)
        requires
            old(self)@.wf(),
        ensures
            final(self)@ == old(self)@.spec_on_page_up(1),
            opt_bytes(r) == old(self)@.page_up_request(1),
            final(self)@.wf(),
    {
        self.on_page_up(1)
    }

    /// Moves the active cursor one entry down; returns the directory whose
    /// listing the right pane now needs, if any.
    pub fn on_down(&mut self) -> (r: Option<Vec<u8>>)
        requires
            old(self)@.wf(),
        ensures
            final(self)@ == old(self)@.spec_on_page_down(1),
            opt_bytes(r) == old(self)@.page_down_request(1),
            final(self)@.wf(),
    {
        self.on_page_down(1)
    }

    /// Moves the active cursor `distance` entries up, clamped to the first
    /// entry; returns the directory whose listing the right pane now needs.
    pub fn on_page_up(&mut self, distance: usize) -> (r: Option<Vec<u8>>)
        requires
            old(self)@.wf(),
        ensures
            final(self)@ == old(self)@.spec_on_page_up(distance as nat),
            opt_bytes(r) == old(self)@.page_up_request(distance as nat),
            final(self)@.wf(),
    {
        let changed = if self.selected_flist == 0 {
            self.left.select_prev_by_n(distance)
        } else {
            self.right.select_prev_by_n(distance)
        };
        self.after_vertical(changed)
    }

    /// Moves the active cursor `distance` entries down, clamped to the last
    /// entry; returns the directory whose listing the right pane now needs.
    pub fn on_page_down(&mut self, distance: usize) -> (r: Option<Vec<u8>>)
        requires
            old(self)@.wf(),
        ensures
            final(self)@ == old(self)@.spec_on_page_down(distance as nat),
            opt_bytes(r) == old(self)@.page_down_request(distance as nat),
            final(self)@.wf(),
    {
        let changed = if self.selected_flist == 0 {
            self.left.select_next_by_n(distance)
        } else {
            self.right.select_next_by_n(distance)
        };
        self.after_vertical(changed)
    }

    /// After a cursor move: empties the slot right of the active pane when
    /// the cursor changed, and names the directory whose listing that slot
    /// needs.
    fn after_vertical(&mut self, changed: bool) -> (r: Option<Vec<u8>>)
        requires
            old(self)@.wf(),
        ensures
            final(self)@ == (if changed && old(self)@.active == 0 {
                old(self)@.emptied_right()
            } else {
                old(self)@
            }),
            opt_bytes(r) == (if changed && old(self)@.active == 0 {
                dir_target(old(self)@.left.selected_entry())
            } else {
                None
            }),
            final(self)@.wf(),
    {
        if changed && self.selected_flist == 0 {
            self.right = FileList::default();
            match self.left.get_selected_file() {
                Some(f) => if f.is_dir() {
                    Some(f.path_owned())
                } else {
                    None
                },
                None => None,
            }
        } else {
            None
        }
    }

    /// Installs the preview listing in the right pane.  A no-op when the
    /// right pane is the active one.
    pub fn refresh_files_to_right(&mut self, files: Vec<FileInfo>)
        requires
            old(self)@.wf(),
        ensures
            final(self)@ == old(self)@.spec_refresh(entries_view(files@)),
            final(self)@.wf(),
    {
        if self.selected_flist == 0 {
            self.right = FileList::new(files);
        }
    }

    /// Moves left: re-activates the left pane, or, at the left edge, asks
    /// for the parent listing needed by [`State::shift_window_left`].
    pub fn on_left(&mut self) -> (r: Option<Vec<u8>>)
        requires
            old(self)@.wf(),
        ensures
            final(self)@ == old(self)@.spec_on_left(),
            opt_bytes(r) == old(self)@.left_request(),
            final(self)@.wf(),
    {
        if self.selected_flist != 0 {
            self.selected_flist = self.selected_flist - 1;
            None
        } else {
            parent_of(&self.base_path)
        }
    }

    /// Shifts the window outward with the parent's listing: the parent
    /// becomes the left pane with its cursor on the directory we came from,
    /// the old left pane moves right, and the base path climbs.  A no-op
    /// unless the left pane is active and the base path has a parent.
    pub fn shift_window_left(&mut self, files: Vec<FileInfo>)
        requires
            old(self)@.wf(),
        ensures
            final(self)@ == old(self)@.spec_shift_left(entries_view(files@)),
            final(self)@.wf(),
    {
        if self.selected_flist == 0 {
            match parent_of(&self.base_path) {
                Some(p) => {
                    let nl = FileList::new_with_path_selected(files, &self.base_path);
                    core::mem::swap(&mut self.left, &mut self.right);
                    self.left = nl;
                    self.base_path = p;
                },
                None => {},
            }
        }
    }

    /// Moves right onto a selected directory: activates the right pane when
    /// a slot remains, or, at the right edge, asks for the directory listing
    /// needed by [`State::shift_window_right`].  A no-op when the selection
    /// is a file, absent, or a directory without a parent.
    pub fn on_right(&mut self) -> (r: Option<Vec<u8>>)
        requires
            old(self)@.wf(),
        ensures
            final(self)@ == old(self)@.spec_on_right(),
            opt_bytes(r) == old(self)@.right_request(),
            final(self)@.wf(),
    {
        let dir_path: Option<Vec<u8>> = {
            let cur = if self.selected_flist == 0 {
                &self.left
            } else {
                &self.right
            };
            match cur.get_selected_file() {
                Some(f) => if f.is_dir() {
                    Some(f.path_owned())
                } else {
                    None
                },
                None => None,
            }
        };
        match dir_path {
            None => None,
            Some(dp) => {
                if self.selected_flist == 0 {
                    self.selected_flist = 1;
                    None
                } else {
                    if parent_of(&dp).is_some() {
                        Some(dp)
                    } else {
                        None
                    }
                }
            },
        }
    }

    /// Shifts the window inward with the entered directory's listing: the
    /// old right pane becomes the left pane, the listing becomes the right
    /// pane, and the base path advances to the entered directory's parent.
    /// A no-op unless the right pane is active with a directory selected
    /// whose path has a parent.
    pub fn shift_window_right(&mut self, files: Vec<FileInfo>)
        requires
            old(self)@.wf(),
        ensures
            final(self)@ == old(self)@.spec_shift_right(entries_view(files@)),
            final(self)@.wf(),
    {
        if self.selected_flist == 1 {
            let dir_path: Option<Vec<u8>> = match self.right.get_selected_file() {
                Some(f) => if f.is_dir() {
                    Some(f.path_owned())
                } else {
                    None
                },
                None => None,
            };
            match dir_path {
                Some(dp) => match parent_of(&dp) {
                    Some(p) => {
                        let nr = FileList::new(files);
                        core::mem::swap(&mut self.left, &mut self.right);
                        self.right = nr;
                        self.base_path = p;
                    },
                    None => {},
                },
                None => {},
            }
        }
    }

    /// The cursor of pane `list`, suppressed for panes right of the active
    /// one, whose retained cursor is only a memory.
    pub fn selected_file_in_list(&self, list: usize) -> (r: Option<usize>)
        ensures
            match r {
                Some(i) => self@.spec_selected_in_list(list as int) == Some(i as int),
                None => self@.spec_selected_in_list(list as int) is None,
            },
    {
        if list <= self.selected_flist && list < 2 {
            if list == 0 {
                self.left.selected_file()
            } else {
                self.right.selected_file()
            }
        } else {
            None
        }
    }

    /// The entries of pane `list`, or nothing for an index outside the
    /// window.
    pub fn files_in_list(&self, list: usize) -> (r: Option<&Vec<FileInfo>>)
        ensures
            match r {
                Some(v) => list < 2 && entries_view(v@) == (if list == 0 {
                    self@.left.files
                } else {
                    self@.right.files
                }),
                None => list >= 2,
            },
    {
        if list == 0 {
            Some(self.left.files())
        } else if list == 1 {
            Some(self.right.files())
        } else {
            None
        }
    }
}

} // verus!
