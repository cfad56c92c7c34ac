use echo_rs::browse::{select_node_from_library_index, BrowseNode};
use echo_rs::backdrop::{backdrop_source, BackdropCache, BackdropMode, BackdropSource};
use echo_rs::theme::Rgb8;
use echo_rs::cli::terminal_commands;
use echo_rs::views::{
    corner_rounding, lyric_column, lyric_place, lyric_status_key, ClientCorners, CornerRounding, EdgeTiling,
    LyricPlace,
};

#[test]
fn lyric_lines_take_their_place_around_the_current_one() {
    assert_eq!(lyric_place(3, 3), LyricPlace::Current);
    assert_eq!(lyric_place(2, 3), LyricPlace::Sung);
    assert_eq!(lyric_place(4, 3), LyricPlace::Upcoming);
}

#[test]
fn lyric_status_only_stands_in_while_there_is_nothing_to_show() {
    assert_eq!(lyric_status_key(true, false), Some("desktop.loading_lyrics"));
    assert_eq!(lyric_status_key(true, true), Some("desktop.loading_lyrics"));
    assert_eq!(lyric_status_key(false, false), Some("desktop.no_lyrics"));
    assert_eq!(lyric_status_key(false, true), None);
}

#[test]
fn the_lyric_column_centers_the_current_line() {
    // Five rows: two either side of the center, plus one above the window.
    let column = lyric_column(1, 5);
    let offsets: Vec<isize> = column.iter().map(|row| row.offset).collect();
    assert_eq!(offsets, [-3, -2, -1, 0, 1, 2]);
    let lines: Vec<Option<usize>> = column.iter().map(|row| row.line).collect();
    assert_eq!(lines, [None, None, Some(0), Some(1), Some(2), Some(3)]);
    let places: Vec<LyricPlace> = column.iter().map(|row| row.place).collect();
    assert_eq!(
        places,
        [
            LyricPlace::Current,
            LyricPlace::Current,
            LyricPlace::Sung,
            LyricPlace::Current,
            LyricPlace::Upcoming,
            LyricPlace::Upcoming
        ]
    );
}

#[test]
fn a_single_row_window_still_carries_the_line_above() {
    let column = lyric_column(0, 1);
    assert_eq!(column.len(), 2);
    assert_eq!((column[0].offset, column[0].line), (-1, None));
    assert_eq!((column[1].offset, column[1].line), (0, Some(0)));
}

#[test]
fn tiled_edges_keep_their_corners_square() {
    let free = EdgeTiling { top: false, left: false, right: false, bottom: false };
    let all = CornerRounding { top_left: true, top_right: true, bottom_left: true, bottom_right: true };
    assert_eq!(corner_rounding(Some(free), ClientCorners::All), all);
    assert_eq!(
        corner_rounding(Some(free), ClientCorners::Top),
        CornerRounding { top_left: true, top_right: true, bottom_left: false, bottom_right: false }
    );
    let left = EdgeTiling { left: true, ..free };
    assert_eq!(
        corner_rounding(Some(left), ClientCorners::All),
        CornerRounding { top_left: false, top_right: true, bottom_left: false, bottom_right: true }
    );
    let none = CornerRounding { top_left: false, top_right: false, bottom_left: false, bottom_right: false };
    assert_eq!(corner_rounding(None, ClientCorners::All), none);
}

#[test]
fn terminal_relaunch_tries_the_users_terminal_first() {
    let args = vec!["upgrade".to_string()];
    let plan = terminal_commands(Some("foot"), "/usr/bin/spotify", &args);
    assert_eq!(plan.len(), 12);
    assert_eq!(plan[0], ["foot", "-e", "/usr/bin/spotify", "upgrade"]);
    assert_eq!(plan[1], ["x-terminal-emulator", "-e", "/usr/bin/spotify", "upgrade"]);
    assert_eq!(plan[9], ["wezterm", "start", "--", "/usr/bin/spotify", "upgrade"]);
    assert_eq!(plan[11], ["xterm", "-e", "/usr/bin/spotify", "upgrade"]);
    let plan = terminal_commands(None, "spotify", &Vec::new());
    assert_eq!(plan.len(), 11);
    assert_eq!(plan[1], ["gnome-terminal", "--", "spotify"]);
}

#[test]
fn cache_rebuilds_only_when_the_source_changes() {
    let theme = Rgb8 { r: 0, g: 200, b: 200 };
    let (a, b) = (std::rc::Rc::new(200u8), std::rc::Rc::new(20u8));
    let address = |art: &std::rc::Rc<u8>| std::rc::Rc::as_ptr(art) as usize;
    let mode = BackdropMode::BlurredShapes;
    let mut cache: BackdropCache<Option<std::rc::Rc<u8>>, std::rc::Rc<String>> = BackdropCache::new();
    let mut builds = 0;
    let mut get = |cache: &mut BackdropCache<Option<std::rc::Rc<u8>>, std::rc::Rc<String>>, cover: Option<&std::rc::Rc<u8>>| {
        let source = backdrop_source(cover.map(address), theme, theme, theme);
        cache.get(mode, source, cover.cloned(), |s| {
            builds += 1;
            std::rc::Rc::new(format!("{s:?}"))
        })
    };
    let first = get(&mut cache, Some(&a));
    assert!(std::rc::Rc::ptr_eq(&first, &get(&mut cache, Some(&a))));
    let second = get(&mut cache, Some(&b));
    assert!(!std::rc::Rc::ptr_eq(&first, &second));
    let fallback = get(&mut cache, None);
    assert!(std::rc::Rc::ptr_eq(&fallback, &get(&mut cache, None)));
    assert!(!std::rc::Rc::ptr_eq(&fallback, &second));
    drop(get);
    assert_eq!(builds, 3);
}

#[test]
fn the_cover_comes_before_the_theme_fallback() {
    let t = Rgb8 { r: 1, g: 2, b: 3 };
    assert_eq!(backdrop_source(Some(42), t, t, t), BackdropSource::Cover(42));
    assert_eq!(backdrop_source(None, t, t, t), BackdropSource::Theme(t, t, t));
}

#[test]
fn browse_index_three_maps_to_top_artists() {
    assert_eq!(select_node_from_library_index(3), BrowseNode::TopArtists);
    assert_eq!(select_node_from_library_index(0), BrowseNode::TopTracks);
    assert_eq!(select_node_from_library_index(4), BrowseNode::WhatsNew);
    assert_eq!(select_node_from_library_index(40), BrowseNode::WhatsNew);
}
