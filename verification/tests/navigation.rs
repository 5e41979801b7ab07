use miller_nav::{FileInfo, State};

fn fi(name: &str, path: &str, dir: bool) -> FileInfo {
    FileInfo::new(name.as_bytes().to_vec(), path.as_bytes().to_vec(), dir)
}

fn names_in_list(state: &State, list: usize) -> Vec<Vec<u8>> {
    state
        .files_in_list(list)
        .unwrap()
        .iter()
        .map(|f| f.name().clone())
        .collect()
}

#[test]
fn base_listing_sorted_and_previews_first_dir() {
    let mut files = vec![
        fi("apple", "/base/apple", false),
        fi("Banana", "/base/Banana", true),
        fi("cherry.txt", "/base/cherry.txt", false),
    ];
    miller_nav::sorting::sort_by_name(&mut files);
    let mut state = State::new(b"/base".to_vec(), files);
    assert_eq!(
        names_in_list(&state, 0),
        vec![b"Banana/".to_vec(), b"apple".to_vec(), b"cherry.txt".to_vec()]
    );
    assert_eq!(state.selected_file_in_list(0), Some(0));
    let preview = state.preview_path();
    assert_eq!(preview, Some(b"/base/Banana".to_vec()));
    let banana = vec![fi("smoothie", "/base/Banana/smoothie", false)];
    state.refresh_files_to_right(banana);
    assert_eq!(names_in_list(&state, 1), vec![b"smoothie".to_vec()]);
}

#[test]
fn right_on_selected_file_is_noop() {
    let files = vec![fi("apple", "/base/apple", false)];
    let mut state = State::new(b"/base".to_vec(), files);
    assert_eq!(state.preview_path(), None);
    let request = state.on_right();
    assert_eq!(request, None);
    assert_eq!(state.active_pane_index(), 0);
    assert_eq!(state.base_path(), &b"/base".to_vec());
}

#[test]
fn left_at_filesystem_root_is_noop() {
    let files = vec![fi("etc", "/etc", true)];
    let mut state = State::new(b"/".to_vec(), files);
    let request = state.on_left();
    assert_eq!(request, None);
    assert_eq!(state.active_pane_index(), 0);
    assert_eq!(state.base_path(), &b"/".to_vec());
    assert_eq!(state.selected_file_in_list(0), Some(0));
}

#[test]
fn left_after_entering_right_pane_restores_left_cursor() {
    let files = vec![fi("Banana", "/base/Banana", true)];
    let mut state = State::new(b"/base".to_vec(), files);
    let preview = state.preview_path().unwrap();
    assert_eq!(preview, b"/base/Banana".to_vec());
    state.refresh_files_to_right(vec![fi("smoothie", "/base/Banana/smoothie", false)]);
    assert_eq!(state.on_right(), None);
    assert_eq!(state.active_pane_index(), 1);
    assert_eq!(state.on_left(), None);
    assert_eq!(state.active_pane_index(), 0);
    assert_eq!(state.base_path(), &b"/base".to_vec());
    assert_eq!(state.selected_file_in_list(0), Some(0));
}

#[test]
fn right_then_left_round_trip() {
    let files = vec![fi("Banana", "/base/Banana", true), fi("apple", "/base/apple", false)];
    let mut state = State::new(b"/base".to_vec(), files);
    state.refresh_files_to_right(vec![fi("pulp", "/base/Banana/pulp", true)]);
    assert_eq!(state.on_right(), None);
    assert_eq!(state.active_pane_index(), 1);
    assert_eq!(state.base_path(), &b"/base".to_vec());
    assert_eq!(state.on_left(), None);
    assert_eq!(state.active_pane_index(), 0);
    assert_eq!(state.base_path(), &b"/base".to_vec());
    assert_eq!(state.selected_file_in_list(0), Some(0));
}

#[test]
fn left_then_right_round_trip_from_right_pane() {
    let files = vec![fi("Banana", "/base/Banana", true)];
    let mut state = State::new(b"/base".to_vec(), files);
    state.refresh_files_to_right(vec![fi("pulp", "/base/Banana/pulp", true)]);
    state.on_right();
    assert_eq!(state.active_pane_index(), 1);
    state.on_left();
    assert_eq!(state.active_pane_index(), 0);
    state.on_right();
    assert_eq!(state.active_pane_index(), 1);
    assert_eq!(state.base_path(), &b"/base".to_vec());
    assert_eq!(state.selected_file_in_list(1), Some(0));
}

#[test]
fn left_shifts_window_outward_and_lands_on_origin() {
    let files = vec![fi("pulp", "/base/Banana/pulp", false)];
    let mut state = State::new(b"/base/Banana".to_vec(), files);
    let request = state.on_left();
    assert_eq!(request, Some(b"/base".to_vec()));
    // the state is untouched until the parent listing arrives
    assert_eq!(state.base_path(), &b"/base/Banana".to_vec());
    let parent = vec![
        fi("Banana", "/base/Banana", true),
        fi("apple", "/base/apple", false),
    ];
    state.shift_window_left(parent);
    assert_eq!(state.base_path(), &b"/base".to_vec());
    assert_eq!(state.active_pane_index(), 0);
    assert_eq!(state.selected_file_in_list(0), Some(0));
    assert_eq!(names_in_list(&state, 0), vec![b"Banana/".to_vec(), b"apple".to_vec()]);
    assert_eq!(names_in_list(&state, 1), vec![b"pulp".to_vec()]);
}

#[test]
fn left_shift_with_vanished_origin_leaves_cursor_absent() {
    let files = vec![fi("pulp", "/base/Banana/pulp", false)];
    let mut state = State::new(b"/base/Banana".to_vec(), files);
    assert_eq!(state.on_left(), Some(b"/base".to_vec()));
    state.shift_window_left(vec![fi("apple", "/base/apple", false)]);
    assert_eq!(state.base_path(), &b"/base".to_vec());
    assert_eq!(state.selected_file_in_list(0), None);
    assert_eq!(names_in_list(&state, 1), vec![b"pulp".to_vec()]);
}

#[test]
fn right_shifts_window_inward() {
    let files = vec![fi("Banana", "/base/Banana", true)];
    let mut state = State::new(b"/base".to_vec(), files);
    state.refresh_files_to_right(vec![fi("pulp", "/base/Banana/pulp", true)]);
    state.on_right();
    assert_eq!(state.active_pane_index(), 1);
    let request = state.on_right();
    assert_eq!(request, Some(b"/base/Banana/pulp".to_vec()));
    let inner = vec![fi("seed", "/base/Banana/pulp/seed", false)];
    state.shift_window_right(inner);
    assert_eq!(state.base_path(), &b"/base/Banana".to_vec());
    assert_eq!(state.active_pane_index(), 1);
    assert_eq!(names_in_list(&state, 0), vec![b"pulp/".to_vec()]);
    assert_eq!(names_in_list(&state, 1), vec![b"seed".to_vec()]);
    assert_eq!(state.selected_file_in_list(1), Some(0));
}

#[test]
fn moving_down_empties_preview_for_file_selection() {
    let files = vec![
        fi("Banana", "/base/Banana", true),
        fi("apple", "/base/apple", false),
    ];
    let mut state = State::new(b"/base".to_vec(), files);
    state.refresh_files_to_right(vec![fi("pulp", "/base/Banana/pulp", false)]);
    assert_eq!(names_in_list(&state, 1), vec![b"pulp".to_vec()]);
    let request = state.on_down();
    assert_eq!(request, None);
    assert_eq!(state.selected_file_in_list(0), Some(1));
    assert_eq!(names_in_list(&state, 1), Vec::<Vec<u8>>::new());
}

#[test]
fn moving_back_up_asks_for_directory_again() {
    let files = vec![
        fi("Banana", "/base/Banana", true),
        fi("apple", "/base/apple", false),
    ];
    let mut state = State::new(b"/base".to_vec(), files);
    state.refresh_files_to_right(Vec::new());
    state.on_down();
    let request = state.on_up();
    assert_eq!(request, Some(b"/base/Banana".to_vec()));
    assert_eq!(state.selected_file_in_list(0), Some(0));
}

#[test]
fn up_at_top_is_noop_without_request() {
    let files = vec![fi("Banana", "/base/Banana", true)];
    let mut state = State::new(b"/base".to_vec(), files);
    state.refresh_files_to_right(vec![fi("pulp", "/base/Banana/pulp", false)]);
    let request = state.on_up();
    assert_eq!(request, None);
    assert_eq!(state.selected_file_in_list(0), Some(0));
    assert_eq!(names_in_list(&state, 1), vec![b"pulp".to_vec()]);
}

#[test]
fn paging_clamps_to_list_bounds() {
    let files = vec![
        fi("a", "/base/a", false),
        fi("b", "/base/b", false),
        fi("c", "/base/c", false),
        fi("d", "/base/d", false),
        fi("e", "/base/e", false),
    ];
    let mut state = State::new(b"/base".to_vec(), files);
    state.on_page_down(100);
    assert_eq!(state.selected_file_in_list(0), Some(4));
    state.on_page_down(100);
    assert_eq!(state.selected_file_in_list(0), Some(4));
    state.on_page_up(2);
    assert_eq!(state.selected_file_in_list(0), Some(2));
    state.on_page_up(100);
    assert_eq!(state.selected_file_in_list(0), Some(0));
}

#[test]
fn empty_base_directory_has_no_cursor() {
    let mut state = State::new(b"/base".to_vec(), Vec::new());
    assert_eq!(state.selected_file_in_list(0), None);
    assert_eq!(state.preview_path(), None);
    assert_eq!(state.on_down(), None);
    assert_eq!(state.selected_file_in_list(0), None);
}

#[test]
fn cursor_right_of_active_pane_is_suppressed() {
    let files = vec![fi("Banana", "/base/Banana", true)];
    let mut state = State::new(b"/base".to_vec(), files);
    state.refresh_files_to_right(vec![fi("pulp", "/base/Banana/pulp", false)]);
    assert_eq!(state.selected_file_in_list(1), None);
    state.on_right();
    assert_eq!(state.selected_file_in_list(1), Some(0));
    state.on_left();
    assert_eq!(state.selected_file_in_list(1), None);
    assert_eq!(state.selected_file_in_list(2), None);
}

#[test]
fn right_into_directory_without_parent_is_rejected() {
    // A selected directory whose path has no parent cannot anchor the
    // shifted window; the move must be a no-op rather than a crash.
    let files = vec![fi("odd", "odd", true)];
    let mut state = State::new(b"/base".to_vec(), files);
    state.refresh_files_to_right(vec![fi("deep", "deep", true)]);
    state.on_right();
    assert_eq!(state.active_pane_index(), 1);
    let request = state.on_right();
    assert_eq!(request, None);
    assert_eq!(state.active_pane_index(), 1);
    assert_eq!(state.base_path(), &b"/base".to_vec());
    // a spurious shift call is equally harmless
    state.shift_window_right(vec![fi("x", "x", false)]);
    assert_eq!(state.base_path(), &b"/base".to_vec());
    assert_eq!(names_in_list(&state, 1), vec![b"deep/".to_vec()]);
}

#[test]
fn page_move_asks_for_landing_directory() {
    let files = vec![
        fi("a", "/base/a", false),
        fi("b", "/base/b", false),
        fi("zoo", "/base/zoo", true),
    ];
    let mut state = State::new(b"/base".to_vec(), files);
    let request = state.on_page_down(10);
    assert_eq!(request, Some(b"/base/zoo".to_vec()));
    state.refresh_files_to_right(vec![fi("ape", "/base/zoo/ape", false)]);
    assert_eq!(names_in_list(&state, 1), vec![b"ape".to_vec()]);
}

#[test]
fn moves_in_right_pane_never_ask_for_listings() {
    let files = vec![fi("Banana", "/base/Banana", true)];
    let mut state = State::new(b"/base".to_vec(), files);
    state.refresh_files_to_right(vec![
        fi("peel", "/base/Banana/peel", true),
        fi("pulp", "/base/Banana/pulp", true),
    ]);
    state.on_right();
    assert_eq!(state.on_down(), None);
    assert_eq!(state.selected_file_in_list(1), Some(1));
    assert_eq!(state.on_up(), None);
    assert_eq!(state.selected_file_in_list(1), Some(0));
    // both panes keep their entries throughout
    assert_eq!(names_in_list(&state, 0), vec![b"Banana/".to_vec()]);
    assert_eq!(
        names_in_list(&state, 1),
        vec![b"peel/".to_vec(), b"pulp/".to_vec()]
    );
}

#[test]
fn reentering_right_pane_returns_to_prior_position() {
    let files = vec![fi("Banana", "/base/Banana", true)];
    let mut state = State::new(b"/base".to_vec(), files);
    state.refresh_files_to_right(vec![
        fi("peel", "/base/Banana/peel", false),
        fi("pulp", "/base/Banana/pulp", false),
    ]);
    state.on_right();
    state.on_down();
    assert_eq!(state.selected_file_in_list(1), Some(1));
    state.on_left();
    assert_eq!(state.selected_file_in_list(1), None);
    state.on_right();
    assert_eq!(state.selected_file_in_list(1), Some(1));
}

#[test]
fn queries_outside_window_return_nothing() {
    let state = State::new(b"/base".to_vec(), Vec::new());
    assert!(state.files_in_list(2).is_none());
    assert_eq!(state.selected_file_in_list(5), None);
}
