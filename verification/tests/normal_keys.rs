use echo_rs::browse::BrowseNode;
use echo_rs::modes::PromptStep;
use echo_rs::navigation::{Modal, ModalStep, TuiModals};
use echo_rs::normal::{
    handle_key, normal_key, KeyOutcome, ActionTarget, CommandSeed, LibraryEntry, LibraryTab, NormalEffect, NormalKey, NormalState,
    SearchTab, SelectedRow, TuiMode, TuiView,
};

fn fresh() -> NormalState {
    NormalState {
        mode: TuiMode::Normal,
        view: TuiView::Library,
        library_tab: LibraryTab::Playlists,
        search_tab: SearchTab::Tracks,
        browse_node: BrowseNode::TopTracks,
        playlist_ix: 0,
        track_ix: 0,
        artist_ix: 0,
        album_ix: 0,
        search_ix: 0,
        queue_ix: 0,
        device_ix: 0,
        library_len: 0,
        albums_len: 0,
        tracks_len: 0,
        artists_len: 0,
        artist_albums_len: 0,
        search_tracks_len: 0,
        search_albums_len: 0,
        search_artists_len: 0,
        queue_len: 0,
        devices_len: 0,
        has_search_matches: false,
        register_filled: false,
        history_nonempty: false,
        header_image: false,
        has_playing_track: false,
        playing: false,
        shuffled: false,
        progress_ms: 0,
        duration_ms: 0,
        volume: 100,
        previous_volume: None,
        pending_d: false,
        needs_clear: false,
        lyrics_open: false,
        thumbnails: false,
        visual_start: None,
    }
}

fn plain_row() -> SelectedRow {
    SelectedRow { liked: false, entry: LibraryEntry::Playlist }
}

fn press(s: NormalState, c: char) -> (NormalState, NormalEffect) {
    normal_key(s, NormalKey::Char(c), false, false, plain_row())
}

#[test]
fn seek_keys_emit_absolute_targets() {
    let mut state = fresh();
    state.has_playing_track = true;
    state.duration_ms = 60_000;
    state.progress_ms = 10_000;

    let (_, event) = normal_key(state, NormalKey::Char('.'), false, false, plain_row());
    assert!(matches!(event, NormalEffect::SeekTo(15_000)));
}

#[test]
fn mute_key_preserves_volume_for_restore() {
    let mut state = fresh();
    state.volume = 42;

    let (state, event) = normal_key(state, NormalKey::Char('M'), false, false, plain_row());
    assert!(matches!(event, NormalEffect::SetVolume(0)));
    assert_eq!(state.previous_volume, Some(42));
}

#[test]
fn ctrl_l_requests_redraw_without_triggering_navigation() {
    let state = fresh();

    let (after, event) = normal_key(state, NormalKey::Char('l'), true, false, plain_row());

    assert_eq!(event, NormalEffect::Nothing);
    assert!(after.needs_clear);
    assert_eq!(after.view, state.view);
}

#[test]
fn second_mute_restores_the_volume() {
    let mut state = fresh();
    state.volume = 42;
    let (muted, _) = press(state, 'M');
    let (restored, event) = press(muted, 'M');
    assert_eq!(event, NormalEffect::SetVolume(42));
    assert_eq!(restored.volume, 42);
}

#[test]
fn seeking_stays_inside_the_track() {
    let mut state = fresh();
    state.has_playing_track = true;
    state.duration_ms = 60_000;
    state.progress_ms = 58_000;
    assert_eq!(press(state, '.').1, NormalEffect::SeekTo(60_000));
    state.progress_ms = 3_000;
    assert_eq!(press(state, ',').1, NormalEffect::SeekTo(0));
    assert_eq!(press(state, '0').1, NormalEffect::SeekTo(0));
    state.has_playing_track = false;
    assert_eq!(press(state, '.').1, NormalEffect::NothingSeekable);
}

#[test]
fn cursor_keys_stop_at_the_ends_of_the_list() {
    let mut state = fresh();
    state.view = TuiView::TrackList;
    state.tracks_len = 2;
    let (down, _) = press(state, 'j');
    assert_eq!(down.track_ix, 1);
    let (still, _) = normal_key(down, NormalKey::Down, false, false, plain_row());
    assert_eq!(still.track_ix, 1);
    let (up, _) = normal_key(still, NormalKey::Up, false, false, plain_row());
    assert_eq!(up.track_ix, 0);
    assert_eq!(press(up, 'k').0.track_ix, 0);
}

#[test]
fn browse_rows_pick_the_page() {
    let mut state = fresh();
    state.library_tab = LibraryTab::Browse;
    let (one, event) = press(state, 'j');
    assert_eq!(event, NormalEffect::Nothing);
    assert_eq!(one.browse_node, BrowseNode::RecentlyPlayed);
    let (two, _) = press(one, 'j');
    let (capped, _) = press(two, 'j');
    assert_eq!(capped.playlist_ix, 2);
    assert_eq!(capped.browse_node, BrowseNode::FollowedArtists);
    assert_eq!(normal_key(capped, NormalKey::Enter, false, false, plain_row()).1, NormalEffect::EnterBrowseNode(BrowseNode::FollowedArtists));
}

#[test]
fn like_key_likes_or_only_stages_the_unlike() {
    let mut state = fresh();
    state.view = TuiView::TrackList;
    state.tracks_len = 3;
    state.track_ix = 2;
    assert_eq!(press(state, 'l').1, NormalEffect::Like(2));
    let liked = SelectedRow { liked: true, entry: LibraryEntry::Playlist };
    assert_eq!(normal_key(state, NormalKey::Char('l'), false, false, liked).1, NormalEffect::StageUnlike(2));
    state.track_ix = 3;
    assert_eq!(press(state, 'l').1, NormalEffect::Nothing);
}

#[test]
fn l_in_the_library_opens_like_enter() {
    let mut state = fresh();
    state.library_len = 4;
    state.playlist_ix = 1;
    assert_eq!(press(state, 'l').1, NormalEffect::OpenLibraryEntry(1));
    state.library_tab = LibraryTab::Albums;
    assert_eq!(press(state, 'z').1, NormalEffect::OpenAlbum(1));
}

#[test]
fn double_d_deletes_only_what_the_user_owns() {
    let mut state = fresh();
    state.library_len = 3;
    state.playlist_ix = 1;
    let owned = SelectedRow { liked: false, entry: LibraryEntry::OwnedPlaylist };
    let (armed, first) = normal_key(state, NormalKey::Char('d'), false, false, owned);
    assert_eq!(first, NormalEffect::Nothing);
    assert!(armed.pending_d);
    let (done, second) = normal_key(armed, NormalKey::Char('d'), false, false, owned);
    assert_eq!(second, NormalEffect::StagePlaylistDelete(1));
    assert!(!done.pending_d);

    let (armed_other, _) = press(state, 'd');
    assert!(!armed_other.pending_d);
    let liked_songs = SelectedRow { liked: false, entry: LibraryEntry::LikedSongs };
    assert_eq!(normal_key(armed, NormalKey::Char('x'), false, false, liked_songs).1, NormalEffect::Nothing);
}

#[test]
fn another_key_disarms_the_double_d() {
    let mut state = fresh();
    state.library_len = 3;
    let folder = SelectedRow { liked: false, entry: LibraryEntry::Folder };
    let (armed, _) = normal_key(state, NormalKey::Char('d'), false, false, folder);
    let (moved, _) = normal_key(armed, NormalKey::Char('j'), false, false, folder);
    assert!(!moved.pending_d);
    let (again, effect) = normal_key(moved, NormalKey::Char('d'), false, false, folder);
    assert_eq!(effect, NormalEffect::Nothing);
    assert!(again.pending_d);
}

#[test]
fn cut_and_paste_into_a_folder() {
    let mut state = fresh();
    state.library_len = 3;
    let (cut, effect) = press(state, 'x');
    assert_eq!(effect, NormalEffect::Cut(0));
    assert!(cut.register_filled);
    let folder = SelectedRow { liked: false, entry: LibraryEntry::Folder };
    let (pasted, effect) = normal_key(cut, NormalKey::Char('p'), false, false, folder);
    assert_eq!(effect, NormalEffect::PasteIntoFolder(0));
    assert!(!pasted.register_filled);
    assert_eq!(press(pasted, 'p').1, NormalEffect::Nothing);
}

#[test]
fn tab_cycles_library_and_search_tabs() {
    let mut state = fresh();
    state.playlist_ix = 5;
    let (albums, _) = normal_key(state, NormalKey::Tab, false, false, plain_row());
    assert_eq!(albums.library_tab, LibraryTab::Albums);
    assert_eq!(albums.playlist_ix, 0);
    let (browse, _) = normal_key(albums, NormalKey::Tab, false, false, plain_row());
    assert_eq!(browse.library_tab, LibraryTab::Browse);
    assert_eq!(browse.browse_node, BrowseNode::TopTracks);
    let (back, _) = normal_key(browse, NormalKey::Tab, false, false, plain_row());
    assert_eq!(back.library_tab, LibraryTab::Playlists);

    state.view = TuiView::SearchResults;
    state.search_tab = SearchTab::Artists;
    state.search_ix = 4;
    let (tracks, _) = normal_key(state, NormalKey::Tab, false, false, plain_row());
    assert_eq!(tracks.search_tab, SearchTab::Tracks);
    assert_eq!(tracks.search_ix, 0);
}

#[test]
fn back_leaves_views_toward_the_library() {
    let mut state = fresh();
    state.view = TuiView::SearchResults;
    state.search_albums_len = 2;
    state.header_image = true;
    let (library, effect) = normal_key(state, NormalKey::Esc, false, false, plain_row());
    assert_eq!(library.view, TuiView::Library);
    assert_eq!(library.search_albums_len, 0);
    assert_eq!(effect, NormalEffect::ReloadHeaderImage);

    state.view = TuiView::ArtistPage;
    let (results, effect) = press(state, 'h');
    assert_eq!(results.view, TuiView::SearchResults);
    assert_eq!(effect, NormalEffect::CancelArtistPageLoad);

    state.search_albums_len = 0;
    assert_eq!(normal_key(state, NormalKey::Backspace, false, false, plain_row()).1, NormalEffect::BackToArtistList);
    state.history_nonempty = true;
    assert_eq!(press(state, 'h').1, NormalEffect::PopHistory);
}

#[test]
fn mode_keys_open_the_command_line_and_search() {
    let mut state = fresh();
    state.has_search_matches = true;
    assert_eq!(press(state, ':').0.mode, TuiMode::Command(CommandSeed::Empty));
    assert_eq!(press(state, 'f').0.mode, TuiMode::Command(CommandSeed::Search));
    assert_eq!(press(state, 'c').0.mode, TuiMode::Command(CommandSeed::NewPlaylist));
    let (searching, _) = press(state, '/');
    assert_eq!(searching.mode, TuiMode::Search);
    assert!(!searching.has_search_matches);
    assert_eq!(press(state, 'N').1, NormalEffect::NextMatch(false));
    assert_eq!(press(state, 'e').0.mode, TuiMode::Normal);
    state.library_len = 2;
    state.playlist_ix = 1;
    assert_eq!(press(state, 'e').0.mode, TuiMode::Command(CommandSeed::Rename(1)));
}

#[test]
fn playback_keys_toggle_and_skip() {
    let mut state = fresh();
    state.progress_ms = 1_000;
    state.duration_ms = 9_000;
    let (playing, effect) = press(state, ' ');
    assert_eq!(effect, NormalEffect::TogglePlayback(true));
    assert!(playing.playing);
    assert_eq!(press(state, 's').1, NormalEffect::ToggleShuffle(true));
    let (next, effect) = press(state, '>');
    assert_eq!(effect, NormalEffect::NextTrack);
    assert_eq!((next.progress_ms, next.duration_ms), (0, 0));
    assert_eq!(press(state, '[').1, NormalEffect::PreviousTrack);
    assert_eq!(press(state, '+').1, NormalEffect::AdjustVolume(5));
    assert_eq!(press(state, '_').1, NormalEffect::AdjustVolume(-5));
    assert_eq!(press(state, 'r').1, NormalEffect::CycleRepeat);
    assert!(press(state, 'T').0.thumbnails);
}

#[test]
fn action_menu_falls_back_to_the_playing_track() {
    let mut state = fresh();
    assert_eq!(press(state, 'A').1, NormalEffect::Nothing);
    state.has_playing_track = true;
    assert_eq!(press(state, 'A').1, NormalEffect::OpenActionMenu(ActionTarget::NowPlaying));
    state.view = TuiView::Queue;
    state.queue_len = 1;
    assert_eq!(press(state, 'A').1, NormalEffect::OpenActionMenu(ActionTarget::QueueTrack(0)));
}

#[test]
fn visual_mode_starts_on_the_cursor() {
    let mut state = fresh();
    state.view = TuiView::Queue;
    state.queue_ix = 3;
    let (visual, _) = press(state, 'v');
    assert_eq!(visual.mode, TuiMode::Visual);
    assert_eq!(visual.visual_start, Some(3));
}

#[test]
fn lyrics_keys() {
    let state = fresh();
    assert!(press(state, 'L').0.lyrics_open);
    assert_eq!(normal_key(state, NormalKey::Char('L'), true, true, plain_row()).1, NormalEffect::ToggleCondensedLyrics);
}

#[test]
fn top_tracks_selection_does_not_request_fetch() {
    let mut state = fresh();
    state.library_tab = LibraryTab::Albums;
    let (browse, event) = normal_key(state, NormalKey::Tab, false, false, plain_row());
    assert_eq!(browse.browse_node, BrowseNode::TopTracks);
    assert_eq!(event, NormalEffect::Nothing);
}

#[test]
fn prompts_and_modals_take_keys_before_the_views() {
    let state = fresh();
    let closed = TuiModals { playlist_add: false, devices: false, lyrics: false, action_menu: false };
    assert_eq!(
        handle_key(true, closed, 0, 0, state, NormalKey::Char('y'), false, false, plain_row()),
        KeyOutcome::Prompt(PromptStep::Confirm)
    );
    assert_eq!(
        handle_key(true, closed, 0, 0, state, NormalKey::Char('j'), false, false, plain_row()),
        KeyOutcome::Prompt(PromptStep::Cancel)
    );
    let devices = TuiModals { devices: true, ..closed };
    assert_eq!(
        handle_key(false, devices, 0, 2, state, NormalKey::Down, false, false, plain_row()),
        KeyOutcome::Modal(ModalStep::Select(Modal::Devices, 1))
    );
    let (after, effect) = normal_key(state, NormalKey::Char(' '), false, false, plain_row());
    assert_eq!(
        handle_key(false, closed, 0, 0, state, NormalKey::Char(' '), false, false, plain_row()),
        KeyOutcome::Normal(after, effect)
    );
}
