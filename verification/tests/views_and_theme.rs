use echo_rs::theme::{close_red, indexed, named, panel_bg, window_bg, window_fg, NamedColor, Rgb8, ThemeColor};
use echo_rs::views::{
    current_lyric_index, format_time, is_fixed_library_row, row_selected, sort_arg, sorted_theme_names,
    LyricLine, TrackSort,
};

fn line(start_ms: u32) -> LyricLine {
    LyricLine {
        start_ms,
        text: String::new(),
    }
}

#[test]
fn current_lyric_is_last_started_line() {
    let lines = [line(0), line(1_000), line(2_000)];
    assert_eq!(current_lyric_index(&lines, 0), 0);
    assert_eq!(current_lyric_index(&lines, 1_500), 1);
    assert_eq!(current_lyric_index(&lines, 9_000), 2);
}

#[test]
fn current_lyric_before_first_line_is_first() {
    let lines = [line(500), line(1_000)];
    assert_eq!(current_lyric_index(&lines, 100), 0);
    assert_eq!(current_lyric_index(&[], 100), 0);
}

#[test]
fn a_line_starting_exactly_now_is_current() {
    let lines = [line(0), line(1_000), line(2_000)];
    assert_eq!(current_lyric_index(&lines, 1_000), 1);
}

#[test]
fn rows_in_the_visual_range_read_as_selected() {
    assert!(row_selected(4, 4, None));
    assert!(!row_selected(3, 4, None));
    assert!(row_selected(2, 7, Some((1, 3))));
    assert!(row_selected(3, 7, Some((1, 3))));
    assert!(!row_selected(4, 7, Some((1, 3))));
}

#[test]
fn liked_songs_and_the_local_library_stay_put() {
    assert!(is_fixed_library_row("LIKED_SONGS"));
    assert!(is_fixed_library_row("local-library"));
    assert!(!is_fixed_library_row("37i9dQZF1DXcBWIGoYBM5M"));
    assert!(!is_fixed_library_row("liked_songs"));
}

#[test]
fn every_sort_has_its_command_argument() {
    let all = [
        (TrackSort::Original, "original"),
        (TrackSort::Title, "title"),
        (TrackSort::Artist, "artist"),
        (TrackSort::Album, "album"),
        (TrackSort::Duration, "duration"),
        (TrackSort::Added, "added"),
    ];
    for (sort, arg) in all {
        assert_eq!(sort_arg(sort), arg);
    }
}

#[test]
fn times_print_as_minutes_and_two_digit_seconds() {
    assert_eq!(format_time(0), "0:00");
    assert_eq!(format_time(9_999), "0:09");
    assert_eq!(format_time(61_000), "1:01");
    assert_eq!(format_time(3_599_999), "59:59");
    assert_eq!(format_time(3_600_000), "60:00");
}

#[test]
fn theme_names_come_out_sorted() {
    let names = vec!["nord".to_string(), "Dracula".to_string(), "catppuccin".to_string(), "gruvbox".to_string()];
    assert_eq!(sorted_theme_names(names), ["Dracula", "catppuccin", "gruvbox", "nord"]);
    assert_eq!(sorted_theme_names(vec!["b".into(), "ab".into(), "a".into()]), ["a", "ab", "b"]);
}

#[test]
fn named_and_indexed_colors() {
    assert_eq!(named(NamedColor::Red), Rgb8 { r: 0xcd, g: 0x31, b: 0x31 });
    assert_eq!(indexed(1), named(NamedColor::Red));
    assert_eq!(indexed(15), named(NamedColor::White));
    assert_eq!(indexed(16), Rgb8 { r: 0, g: 0, b: 0 });
    assert_eq!(indexed(196), Rgb8 { r: 255, g: 0, b: 0 });
    assert_eq!(indexed(231), Rgb8 { r: 255, g: 255, b: 255 });
    assert_eq!(indexed(232), Rgb8 { r: 8, g: 8, b: 8 });
    assert_eq!(indexed(255), Rgb8 { r: 238, g: 238, b: 238 });
}

#[test]
fn reset_leaves_the_slot_to_its_default() {
    assert_eq!(ThemeColor::Reset.resolve(), None);
    assert_eq!(ThemeColor::Rgb(1, 2, 3).resolve(), Some(Rgb8 { r: 1, g: 2, b: 3 }));
    assert_eq!(ThemeColor::Indexed(9).resolve(), Some(named(NamedColor::LightRed)));
    assert_eq!(ThemeColor::Named(NamedColor::Blue).resolve(), Some(Rgb8 { r: 0x24, g: 0x72, b: 0xc8 }));
}

#[test]
fn window_defaults() {
    assert_eq!(window_bg(), Rgb8 { r: 0x12, g: 0x12, b: 0x12 });
    assert_eq!(window_fg(), Rgb8 { r: 0xe5, g: 0xe5, b: 0xe5 });
    assert_eq!(panel_bg(), Rgb8 { r: 0x1f, g: 0x1f, b: 0x22 });
    assert_eq!(close_red(), Rgb8 { r: 0xe8, g: 0x11, b: 0x23 });
}
