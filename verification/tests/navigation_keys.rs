use echo_rs::cli::{upgrade_decision, UpgradeDecision};
use echo_rs::navigation::{
    dismiss, set_selection, Cursors, DesktopUi, Dismissal,
    artist_page_row, cursor_for, dismiss_step, dismiss_view, modal_step, moved_selection, overlay_open,
    selection_target, ActiveView, ArtistPageRow, Cursor, DismissStep, Modal, ModalKey, ModalStep, Overlays,
    TuiModals, ViewDismissal,
};

fn nothing_open() -> Overlays {
    Overlays {
        prompt: false,
        visual: false,
        context_menu: false,
        track_menu: false,
        playlist_add: false,
        devices: false,
        themes: false,
        sort_menu: false,
        settings: false,
        help: false,
        lyrics: false,
    }
}

#[test]
fn escape_closes_the_innermost_layer_first() {
    let all = Overlays { prompt: true, visual: true, context_menu: true, track_menu: true, playlist_add: true, devices: true, themes: true, sort_menu: true, settings: true, help: true, lyrics: true };
    assert_eq!(dismiss_step(all), DismissStep::CancelPrompt);
    assert_eq!(dismiss_step(Overlays { prompt: false, ..all }), DismissStep::ExitVisual);
    assert_eq!(dismiss_step(Overlays { help: true, lyrics: true, ..nothing_open() }), DismissStep::CloseHelp);
    assert_eq!(dismiss_step(Overlays { lyrics: true, ..nothing_open() }), DismissStep::CloseLyrics);
    assert_eq!(dismiss_step(nothing_open()), DismissStep::PopViewHistory);
}

#[test]
fn visual_mode_is_not_an_overlay() {
    assert!(!overlay_open(Overlays { visual: true, ..nothing_open() }));
    assert!(overlay_open(Overlays { sort_menu: true, ..nothing_open() }));
    assert!(!overlay_open(nothing_open()));
}

#[test]
fn escape_leaves_views_toward_the_library() {
    assert_eq!(dismiss_view(ActiveView::TrackList, true), ViewDismissal::BackToSearchResults);
    assert_eq!(dismiss_view(ActiveView::TrackList, false), ViewDismissal::BackToLibrary);
    assert_eq!(dismiss_view(ActiveView::ArtistPage, true), ViewDismissal::LeaveArtistPageForResults);
    assert_eq!(dismiss_view(ActiveView::ArtistPage, false), ViewDismissal::CloseArtistPage);
    assert_eq!(dismiss_view(ActiveView::SearchResults, true), ViewDismissal::DropSearchResults);
    assert_eq!(dismiss_view(ActiveView::Queue, false), ViewDismissal::LeaveQueue);
    assert_eq!(dismiss_view(ActiveView::Library, true), ViewDismissal::Stay);
}

#[test]
fn selections_go_to_the_front_most_list() {
    assert_eq!(cursor_for(nothing_open(), ActiveView::Queue), Cursor::Queue);
    assert_eq!(cursor_for(nothing_open(), ActiveView::Devices), Cursor::Library);
    assert_eq!(cursor_for(Overlays { themes: true, sort_menu: true, ..nothing_open() }, ActiveView::TrackList), Cursor::ThemeModal);
    assert_eq!(selection_target(Overlays { prompt: true, ..nothing_open() }, ActiveView::TrackList), None);
    assert_eq!(selection_target(nothing_open(), ActiveView::ArtistPage), Some(Cursor::ArtistPage));
}

#[test]
fn moves_stay_inside_the_list() {
    assert_eq!(moved_selection(3, 1, 10), Some(4));
    assert_eq!(moved_selection(9, 5, 10), Some(9));
    assert_eq!(moved_selection(2, -5, 10), Some(0));
    assert_eq!(moved_selection(usize::MAX, isize::MAX, 3), Some(2));
    assert_eq!(moved_selection(0, isize::MIN, 3), Some(0));
    assert_eq!(moved_selection(0, 1, 0), None);
}

#[test]
fn the_artist_page_splits_its_rows() {
    assert_eq!(artist_page_row(2, 5), ArtistPageRow::TopTrack(2));
    assert_eq!(artist_page_row(7, 5), ArtistPageRow::Album(2));
    assert_eq!(artist_page_row(0, 0), ArtistPageRow::Album(0));
}

#[test]
fn modal_lists_move_within_their_rows() {
    let devices = TuiModals { playlist_add: false, devices: true, lyrics: false, action_menu: false };
    assert_eq!(modal_step(devices, ModalKey::Down, 0, 3), ModalStep::Select(Modal::Devices, 1));
    assert_eq!(modal_step(devices, ModalKey::Char('j'), 2, 3), ModalStep::Nothing(Modal::Devices));
    assert_eq!(modal_step(devices, ModalKey::Up, 0, 3), ModalStep::Nothing(Modal::Devices));
    assert_eq!(modal_step(devices, ModalKey::Char('k'), 2, 3), ModalStep::Select(Modal::Devices, 1));
    assert_eq!(modal_step(devices, ModalKey::Enter, 2, 3), ModalStep::Commit(Modal::Devices, 2));
    assert_eq!(modal_step(devices, ModalKey::Char('q'), 2, 3), ModalStep::Close(Modal::Devices));
    assert_eq!(modal_step(devices, ModalKey::Down, 0, 0), ModalStep::Nothing(Modal::Devices));
}

#[test]
fn the_playlist_picker_sits_in_front_and_lyrics_only_close() {
    let both = TuiModals { playlist_add: true, devices: true, lyrics: true, action_menu: true };
    assert_eq!(modal_step(both, ModalKey::Esc, 0, 1), ModalStep::Close(Modal::PlaylistAdd));
    let lyrics = TuiModals { playlist_add: false, devices: false, lyrics: true, action_menu: true };
    assert_eq!(modal_step(lyrics, ModalKey::Char('L'), 0, 1), ModalStep::Close(Modal::Lyrics));
    assert_eq!(modal_step(lyrics, ModalKey::Down, 0, 5), ModalStep::Nothing(Modal::Lyrics));
    let none = TuiModals { playlist_add: false, devices: false, lyrics: false, action_menu: false };
    assert_eq!(modal_step(none, ModalKey::Enter, 0, 1), ModalStep::NotOpen);
}

#[test]
fn upgrade_installs_named_versions_even_when_older() {
    assert_eq!(upgrade_decision(true, true, false, true), UpgradeDecision::DevelopmentBuild);
    assert_eq!(upgrade_decision(false, false, true, true), UpgradeDecision::ReportAvailable);
    assert_eq!(upgrade_decision(false, true, true, false), UpgradeDecision::ReportUpToDate);
    assert_eq!(upgrade_decision(false, false, false, false), UpgradeDecision::UpToDate);
    assert_eq!(upgrade_decision(false, false, false, true), UpgradeDecision::Install);
    assert_eq!(upgrade_decision(false, true, false, false), UpgradeDecision::Install);
}

fn desktop(view: ActiveView) -> DesktopUi {
    let zero = Cursors {
        playlist_modal: 0,
        device_modal: 0,
        theme_modal: 0,
        track_menu: 0,
        sort_menu: 0,
        tracks: 0,
        queue: 0,
        search: 0,
        artists: 0,
        whats_new: 0,
        artist_page: 0,
        library: 0,
    };
    DesktopUi { overlays: nothing_open(), view, cursors: zero, pending_d: true, pending_count: Some(3) }
}

#[test]
fn selecting_a_row_moves_one_cursor_and_disarms_d() {
    let mut ui = desktop(ActiveView::Queue);
    set_selection(&mut ui, 4);
    assert_eq!(ui.cursors.queue, 4);
    assert_eq!(ui.cursors.tracks, 0);
    assert!(!ui.pending_d);

    let mut modal = desktop(ActiveView::Queue);
    modal.overlays.devices = true;
    set_selection(&mut modal, 2);
    assert_eq!(modal.cursors.device_modal, 2);
    assert_eq!(modal.cursors.queue, 0);

    let mut prompted = desktop(ActiveView::TrackList);
    prompted.overlays.prompt = true;
    let before = prompted;
    set_selection(&mut prompted, 9);
    assert_eq!(prompted, before);
}

#[test]
fn escape_closes_one_layer_at_a_time() {
    let mut ui = desktop(ActiveView::TrackList);
    ui.overlays.help = true;
    ui.overlays.lyrics = true;
    assert_eq!(dismiss(&mut ui, true, false), Dismissal::Closed(DismissStep::CloseHelp));
    assert!(ui.overlays.lyrics);
    assert_eq!(ui.pending_count, None);
    assert!(!ui.pending_d);
    assert_eq!(dismiss(&mut ui, true, false), Dismissal::Closed(DismissStep::CloseLyrics));
    assert_eq!(dismiss(&mut ui, true, false), Dismissal::PopHistory);
    assert_eq!(ui.view, ActiveView::TrackList);
    assert_eq!(dismiss(&mut ui, false, true), Dismissal::View(ViewDismissal::BackToSearchResults));
    assert_eq!(ui.view, ActiveView::SearchResults);
    assert_eq!(dismiss(&mut ui, false, true), Dismissal::View(ViewDismissal::DropSearchResults));
    assert_eq!(ui.view, ActiveView::Library);
}
