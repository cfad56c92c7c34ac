use echo_rs::library::thumb_first_visible;

fn visible_height(first: usize, selected: usize, heights: &[u16]) -> u16 {
    heights[first..=selected].iter().sum()
}

#[test]
fn selection_is_always_fully_visible() {
    let uniform = vec![3u16; 50];
    let mixed: Vec<u16> = (0..50).map(|i| if i % 4 == 0 { 1 } else { 3 }).collect();
    for heights in [&uniform, &mixed] {
        for viewport in [3u16, 7, 20] {
            for selected in [0usize, 1, 10, 49, 60] {
                let first = thumb_first_visible(selected, heights, viewport);
                let clamped = selected.min(heights.len() - 1);
                assert!(first <= clamped);
                assert!(visible_height(first, clamped, heights) <= viewport);
            }
        }
    }
}

#[test]
fn empty_list_starts_at_zero() {
    assert_eq!(thumb_first_visible(0, &[], 5), 0);
}

#[test]
fn short_list_starts_at_top() {
    assert_eq!(thumb_first_visible(2, &[3, 3, 3], 24), 0);
}

#[test]
fn selection_is_last_visible_once_past_first_page() {
    // 15 rows of height 3, viewport 9 -> rows 8..=10 visible.
    assert_eq!(thumb_first_visible(10, &[3u16; 15], 9), 8);
}

#[test]
fn single_line_folders_let_more_rows_fit() {
    // folder(1) + three playlists(3) = 10 cells: all fit in a 10-tall
    // viewport, whereas uniform 3-tall rows would not.
    let heights = [1u16, 3, 3, 3];
    assert_eq!(thumb_first_visible(3, &heights, 10), 0);
    assert_eq!(thumb_first_visible(3, &[3u16, 3, 3, 3], 10), 1);
}

#[test]
fn oversized_selected_row_renders_clipped() {
    assert_eq!(thumb_first_visible(2, &[3u16, 3, 3], 2), 2);
}

#[test]
fn a_selection_past_the_end_is_clamped_to_the_last_row() {
    assert_eq!(thumb_first_visible(99, &[3u16, 3, 3, 3], 6), 2);
}

#[test]
fn the_tallest_viewport_still_keeps_the_selection_visible() {
    // Rows 0..=1 would need 65536 cells: only the selected row is drawn.
    assert_eq!(thumb_first_visible(1, &[u16::MAX, 1], u16::MAX), 1);
    assert_eq!(thumb_first_visible(2, &[u16::MAX, u16::MAX, 1], u16::MAX), 2);
    assert_eq!(thumb_first_visible(1, &[u16::MAX, 0], u16::MAX), 0);
}

#[test]
fn the_row_above_the_first_would_not_fit() {
    let heights = [2u16, 4, 1, 2];
    let first = thumb_first_visible(3, &heights, 7);
    assert_eq!(first, 1);
    assert!(visible_height(first - 1, 3, &heights) > 7);
}
