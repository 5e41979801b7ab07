//! What holds of the navigation state machine over a static directory tree.
//!
//! A run of the browser alternates a mutating call with the directory read
//! it asks for.  Each such pair is one [`step`] over a fixed model of the
//! tree: a map from each readable directory's path to its listing, with
//! unreadable and vanished paths reading as empty.  The laws here say that
//! every step keeps the cursors inside their lists, keeps the left pane
//! anchored at the base path, and keeps the live preview: the right pane
//! always lists exactly the directory selected in the left pane, and is
//! empty when a file or nothing is selected.

use vstd::prelude::*;

use crate::entry::EntryView;
use crate::file_list::{
    find_path, lemma_find_path_props, lemma_moved_wf, lemma_with_path_selected_wf, FileListView,
};
use crate::nav::StateView;
use crate::paths::spec_parent;

verus! {

/// What reading a directory returns in the model: its listing, or the empty
/// listing for a path that cannot be read.
pub open spec fn listing_of(fs: Map<Seq<u8>, Seq<EntryView>>, p: Seq<u8>) -> Seq<EntryView> {
    if fs.dom().contains(p) {
        fs[p]
    } else {
        Seq::empty()
    }
}

/// Entry `k` of `p`'s listing lies directly under `p`, and is marked a
/// directory exactly when its own path is a directory of the model.
pub open spec fn entry_coherent(fs: Map<Seq<u8>, Seq<EntryView>>, p: Seq<u8>, k: int) -> bool {
    &&& spec_parent(listing_of(fs, p)[k].path) == Some(p)
    &&& (listing_of(fs, p)[k].is_dir <==> fs.dom().contains(listing_of(fs, p)[k].path))
}

/// Every listed entry is coherent.
pub open spec fn fs_coherent(fs: Map<Seq<u8>, Seq<EntryView>>) -> bool {
    forall|p: Seq<u8>, k: int|
        fs.dom().contains(p) && 0 <= k < listing_of(fs, p).len() ==> #[trigger] entry_coherent(
            fs,
            p,
            k,
        )
}

/// A directory of the model appears in its parent's listing.
pub open spec fn parent_listed(fs: Map<Seq<u8>, Seq<EntryView>>, p: Seq<u8>) -> bool {
    match spec_parent(p) {
        Some(q) => fs.dom().contains(q) && (exists|k: int|
            0 <= k < listing_of(fs, q).len() && (#[trigger] listing_of(fs, q)[k]).path == p),
        None => true,
    }
}

/// Every directory of the model appears in its parent's listing.
pub open spec fn fs_complete(fs: Map<Seq<u8>, Seq<EntryView>>) -> bool {
    forall|p: Seq<u8>| #[trigger] fs.dom().contains(p) ==> parent_listed(fs, p)
}

/// A static directory tree: coherent and complete.
pub open spec fn fs_ok(fs: Map<Seq<u8>, Seq<EntryView>>) -> bool {
    fs_coherent(fs) && fs_complete(fs)
}

/// The left pane lists exactly the base path's directory.
pub open spec fn anchored(s: StateView, fs: Map<Seq<u8>, Seq<EntryView>>) -> bool {
    s.left.files == listing_of(fs, s.base)
}

/// Live preview: when the left pane's selected entry is a directory the
/// right pane lists exactly that directory; when it is a file or absent the
/// right pane is empty.
pub open spec fn preview_ok(s: StateView, fs: Map<Seq<u8>, Seq<EntryView>>) -> bool {
    match s.left.selected_entry() {
        Some(e) => if e.is_dir {
            s.right.files == listing_of(fs, e.path)
        } else {
            s.right.files == Seq::<EntryView>::empty()
        },
        None => s.right.files == Seq::<EntryView>::empty(),
    }
}

/// Everything that holds of a reachable state over a static tree.
pub open spec fn nav_ok(s: StateView, fs: Map<Seq<u8>, Seq<EntryView>>) -> bool {
    &&& s.wf()
    &&& anchored(s, fs)
    &&& preview_ok(s, fs)
}

/// One user move, as the step function the run alternates through.
pub ghost enum NavOp {
    Up,
    Down,
    PageUp(nat),
    PageDown(nat),
    Left,
    Right,
}

/// A page-up together with the directory read it asks for.
pub open spec fn step_page_up(s: StateView, fs: Map<Seq<u8>, Seq<EntryView>>, n: nat) -> StateView {
    let s1 = s.spec_on_page_up(n);
    match s.page_up_request(n) {
        Some(p) => s1.spec_refresh(listing_of(fs, p)),
        None => s1,
    }
}

/// A page-down together with the directory read it asks for.
pub open spec fn step_page_down(
    s: StateView,
    fs: Map<Seq<u8>, Seq<EntryView>>,
    n: nat,
) -> StateView {
    let s1 = s.spec_on_page_down(n);
    match s.page_down_request(n) {
        Some(p) => s1.spec_refresh(listing_of(fs, p)),
        None => s1,
    }
}

/// A left move together with the window shift it asks for.
pub open spec fn step_left(s: StateView, fs: Map<Seq<u8>, Seq<EntryView>>) -> StateView {
    let s1 = s.spec_on_left();
    match s.left_request() {
        Some(p) => s1.spec_shift_left(listing_of(fs, p)),
        None => s1,
    }
}

/// A right move together with the window shift it asks for.
pub open spec fn step_right(s: StateView, fs: Map<Seq<u8>, Seq<EntryView>>) -> StateView {
    let s1 = s.spec_on_right();
    match s.right_request() {
        Some(p) => s1.spec_shift_right(listing_of(fs, p)),
        None => s1,
    }
}

/// One full user move over the model.
pub open spec fn step(s: StateView, fs: Map<Seq<u8>, Seq<EntryView>>, op: NavOp) -> StateView {
    match op {
        NavOp::Up => step_page_up(s, fs, 1),
        NavOp::Down => step_page_down(s, fs, 1),
        NavOp::PageUp(n) => step_page_up(s, fs, n),
        NavOp::PageDown(n) => step_page_down(s, fs, n),
        NavOp::Left => step_left(s, fs),
        NavOp::Right => step_right(s, fs),
    }
}

/// A whole run of user moves.
pub open spec fn run(s: StateView, fs: Map<Seq<u8>, Seq<EntryView>>, ops: Seq<NavOp>) -> StateView
    decreases ops.len(),
{
    if ops.len() == 0 {
        s
    } else {
        run(step(s, fs, ops[0]), fs, ops.skip(1))
    }
}

/// The state at start-up: the base directory's listing in the left pane,
/// then the first preview read.
pub open spec fn step_start(base: Seq<u8>, fs: Map<Seq<u8>, Seq<EntryView>>) -> StateView {
    let s0 = StateView::initial(base, listing_of(fs, base));
    match s0.preview_target() {
        Some(p) => s0.spec_refresh(listing_of(fs, p)),
        None => s0,
    }
}

/// Every step keeps the cursors inside their lists: a selected index always
/// lies in `[0, len - 1]`, whatever the move and whatever the tree answers.
pub proof fn lemma_step_wf(s: StateView, fs: Map<Seq<u8>, Seq<EntryView>>, op: NavOp)
    requires
        s.wf(),
    ensures
        step(s, fs, op).wf(),
{
    match op {
        NavOp::Up => lemma_moved_wf(s.active_pane(), 1),
        NavOp::Down => lemma_moved_wf(s.active_pane(), 1),
        NavOp::PageUp(n) => lemma_moved_wf(s.active_pane(), n),
        NavOp::PageDown(n) => lemma_moved_wf(s.active_pane(), n),
        NavOp::Left => {
            if s.active == 0 {
                match spec_parent(s.base) {
                    Some(p) => lemma_with_path_selected_wf(listing_of(fs, p), s.base),
                    None => {},
                }
            }
        },
        NavOp::Right => {},
    }
}

/// Any run of moves keeps the cursors inside their lists.
pub proof fn lemma_run_wf(s: StateView, fs: Map<Seq<u8>, Seq<EntryView>>, ops: Seq<NavOp>)
    requires
        s.wf(),
    ensures
        run(s, fs, ops).wf(),
    decreases ops.len(),
{
    if ops.len() > 0 {
        lemma_step_wf(s, fs, ops[0]);
        lemma_run_wf(step(s, fs, ops[0]), fs, ops.skip(1));
    }
}

/// A vertical move, with the preview read it asks for, keeps the state
/// anchored and the preview live.
proof fn lemma_vertical_preserves_nav_ok(
    s: StateView,
    fs: Map<Seq<u8>, Seq<EntryView>>,
    moved: FileListView,
)
    requires
        nav_ok(s, fs),
        moved.wf(),
        moved.files == s.active_pane().files,
    ensures
        ({
            let s1 = s.vertical_step(moved);
            let s2 = match s.vertical_request(moved) {
                Some(p) => s1.spec_refresh(listing_of(fs, p)),
                None => s1,
            };
            nav_ok(s2, fs)
        }),
{
}

/// The start-up state is anchored with a live preview.
pub proof fn lemma_start_nav_ok(base: Seq<u8>, fs: Map<Seq<u8>, Seq<EntryView>>)
    requires
        fs_ok(fs),
    ensures
        nav_ok(step_start(base, fs), fs),
{
}

/// One full move over a static tree keeps the state anchored and the
/// preview live: after it, the right pane lists exactly the directory
/// selected in the left pane, or is empty when a file or nothing is
/// selected.
pub proof fn lemma_step_preserves_nav_ok(
    s: StateView,
    fs: Map<Seq<u8>, Seq<EntryView>>,
    op: NavOp,
)
    requires
        nav_ok(s, fs),
        fs_ok(fs),
    ensures
        nav_ok(step(s, fs, op), fs),
{
    match op {
        NavOp::Up => {
            lemma_moved_wf(s.active_pane(), 1);
            lemma_vertical_preserves_nav_ok(s, fs, s.active_pane().moved_prev_by(1));
        },
        NavOp::Down => {
            lemma_moved_wf(s.active_pane(), 1);
            lemma_vertical_preserves_nav_ok(s, fs, s.active_pane().moved_next_by(1));
        },
        NavOp::PageUp(n) => {
            lemma_moved_wf(s.active_pane(), n);
            lemma_vertical_preserves_nav_ok(s, fs, s.active_pane().moved_prev_by(n));
        },
        NavOp::PageDown(n) => {
            lemma_moved_wf(s.active_pane(), n);
            lemma_vertical_preserves_nav_ok(s, fs, s.active_pane().moved_next_by(n));
        },
        NavOp::Left => {
            lemma_left_preserves_nav_ok(s, fs);
        },
        NavOp::Right => {
            lemma_right_preserves_nav_ok(s, fs);
        },
    }
}

/// The left move, with the shift it asks for, keeps the state anchored and
/// the preview live.
proof fn lemma_left_preserves_nav_ok(s: StateView, fs: Map<Seq<u8>, Seq<EntryView>>)
    requires
        nav_ok(s, fs),
        fs_ok(fs),
    ensures
        nav_ok(step_left(s, fs), fs),
{
    if s.active == 0 {
        match spec_parent(s.base) {
            Some(p) => {
                let files = listing_of(fs, p);
                lemma_find_path_props(files, s.base);
                lemma_with_path_selected_wf(files, s.base);
                match find_path(files, s.base) {
                    Some(i) => {
                        assert(fs.dom().contains(p)) by {
                            if !fs.dom().contains(p) {
                                assert(files.len() == 0);
                            }
                        }
                        assert(entry_coherent(fs, p, i));
                        if files[i].is_dir {
                            assert(fs.dom().contains(s.base));
                        } else {
                            assert(!fs.dom().contains(s.base));
                            assert(s.left.files =~= Seq::<EntryView>::empty());
                        }
                    },
                    None => {
                        if fs.dom().contains(s.base) {
                            assert(parent_listed(fs, s.base));
                            let k = choose|k: int|
                                0 <= k < listing_of(fs, p).len() && (#[trigger] listing_of(
                                    fs,
                                    p,
                                )[k]).path == s.base;
                            assert(files[k].path == s.base);
                        }
                        assert(!fs.dom().contains(s.base));
                        assert(s.left.files =~= Seq::<EntryView>::empty());
                    },
                }
            },
            None => {},
        }
    }
}

/// The right move, with the shift it asks for, keeps the state anchored and
/// the preview live.
proof fn lemma_right_preserves_nav_ok(s: StateView, fs: Map<Seq<u8>, Seq<EntryView>>)
    requires
        nav_ok(s, fs),
        fs_ok(fs),
    ensures
        nav_ok(step_right(s, fs), fs),
{
    match s.right_request() {
        Some(dp) => {
            let e = s.right.selected_entry()->0;
            let i = s.right.selected->0;
            match s.left.selected_entry() {
                Some(d) => {
                    if d.is_dir {
                        assert(s.right.files == listing_of(fs, d.path));
                        assert(fs.dom().contains(d.path)) by {
                            if !fs.dom().contains(d.path) {
                                assert(listing_of(fs, d.path).len() == 0);
                            }
                        }
                        assert(entry_coherent(fs, d.path, i));
                        assert(spec_parent(e.path) == Some(d.path));
                    } else {
                        assert(s.right.files.len() == 0);
                    }
                },
                None => {
                    assert(s.right.files.len() == 0);
                },
            }
        },
        None => {},
    }
}

/// Any run of moves over a static tree keeps the state anchored and the
/// preview live.
pub proof fn lemma_run_preserves_nav_ok(
    s: StateView,
    fs: Map<Seq<u8>, Seq<EntryView>>,
    ops: Seq<NavOp>,
)
    requires
        nav_ok(s, fs),
        fs_ok(fs),
    ensures
        nav_ok(run(s, fs, ops), fs),
    decreases ops.len(),
{
    if ops.len() > 0 {
        lemma_step_preserves_nav_ok(s, fs, ops[0]);
        lemma_run_preserves_nav_ok(step(s, fs, ops[0]), fs, ops.skip(1));
    }
}

/// Round trip: from a state whose right pane is active over a selected
/// directory, moving left and then right restores the whole state — the
/// active pane index and base path in particular — and leaves every cursor
/// untouched.
pub proof fn lemma_left_right_round_trip(s: StateView, fs: Map<Seq<u8>, Seq<EntryView>>)
    requires
        s.wf(),
        s.active == 1,
        s.left.selected_entry() matches Some(e) && e.is_dir,
    ensures
        step_right(step_left(s, fs), fs) == s,
{
}

/// Round trip the other way: from a state whose left pane is active over a
/// selected directory, moving right and then left restores the whole state.
pub proof fn lemma_right_left_round_trip(s: StateView, fs: Map<Seq<u8>, Seq<EntryView>>)
    requires
        s.wf(),
        s.active == 0,
        s.left.selected_entry() matches Some(e) && e.is_dir,
    ensures
        step_left(step_right(s, fs), fs) == s,
{
}

/// Paging down by any distance that passes the end clamps to the last
/// index; it never wraps or leaves the list.
pub proof fn lemma_page_down_clamps(l: FileListView, n: nat)
    requires
        l.wf(),
        l.selected matches Some(i) && i + n >= l.files.len(),
    ensures
        l.moved_next_by(n).selected == Some(l.files.len() - 1),
{
}

/// Paging up by any distance that passes the start clamps to the first
/// index; it never wraps or leaves the list.
pub proof fn lemma_page_up_clamps(l: FileListView, n: nat)
    requires
        l.wf(),
        l.selected matches Some(i) && i <= n,
    ensures
        l.moved_prev_by(n).selected == Some(0 as int),
{
}

} // verus!
