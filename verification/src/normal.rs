//! The terminal player's normal mode: what a key does once no prompt or modal has taken it and
//! no configured binding claimed it. The state the keys read and change is held as plain flags,
//! indices and list lengths; what the rest of the player must do in answer (open a page, send a
//! request to the playback worker, stage a confirm prompt) comes back as a `NormalEffect`.

use vstd::prelude::*;
use crate::browse::BrowseNode;
use crate::modes::{prompt_key, ModeKey, PromptStep};
use crate::navigation::{front_modal, modal_step, modal_step_spec, ModalKey, ModalStep, TuiModals};

verus! {

/// The terminal player's views.
#[derive(Clone, Copy, Debug, PartialEq, Eq, Structural)]
pub enum TuiView {
    Library,
    TrackList,
    ArtistList,
    ArtistPage,
    SearchResults,
    Queue,
    Devices,
}

/// The sidebar's tabs. `Artists` belongs to the desktop app; the terminal folds it into the
/// playlist cycle.
#[derive(Clone, Copy, Debug, PartialEq, Eq, Structural)]
pub enum LibraryTab {
    Playlists,
    Albums,
    Browse,
    Artists,
}

/// The tabs of the search results.
#[derive(Clone, Copy, Debug, PartialEq, Eq, Structural)]
pub enum SearchTab {
    Tracks,
    Albums,
    Artists,
}

/// What the command line starts out holding when a key opens it.
#[derive(Clone, Copy, Debug, PartialEq, Eq, Structural)]
pub enum CommandSeed {
    /// An empty line (`:`).
    Empty,
    /// `search ` (`f`).
    Search,
    /// `newplaylist ` (`c`).
    NewPlaylist,
    /// `rename ` and the name of the library row with this index (`e`).
    Rename(usize),
}

/// The input mode.
#[derive(Clone, Copy, Debug, PartialEq, Eq, Structural)]
pub enum TuiMode {
    Normal,
    Command(CommandSeed),
    /// Typing a search within the list (`/`).
    Search,
    /// Range selection (`v`).
    Visual,
}

/// The keys normal mode tells apart.
#[derive(Clone, Copy, Debug, PartialEq, Eq, Structural)]
pub enum NormalKey {
    Char(char),
    Up,
    Down,
    Enter,
    Esc,
    Backspace,
    Tab,
    Other,
}

/// What a row of the library list is.
#[derive(Clone, Copy, Debug, PartialEq, Eq, Structural)]
pub enum LibraryEntry {
    /// The Liked Songs entry.
    LikedSongs,
    /// The entry for the local music folder.
    LocalLibrary,
    /// A playlist stored on this machine.
    LocalPlaylist,
    /// A Spotify playlist the user owns.
    OwnedPlaylist,
    /// A Spotify playlist someone else owns.
    Playlist,
    Folder,
}

/// What the keys read of the row under the active view's cursor.
#[derive(Clone, Copy, Debug, PartialEq, Eq, Structural)]
pub struct SelectedRow {
    /// The track on the row is in the user's Liked Songs.
    pub liked: bool,
    /// The library row's kind (read in the library view only).
    pub entry: LibraryEntry,
}

/// The state normal-mode keys read and change.
#[derive(Clone, Copy, Debug, PartialEq, Eq, Structural)]
pub struct NormalState {
    pub mode: TuiMode,
    pub view: TuiView,
    pub library_tab: LibraryTab,
    pub search_tab: SearchTab,
    /// The Browse tab's page.
    pub browse_node: BrowseNode,
    /// Cursor of the library list (and of the Browse tab's rows).
    pub playlist_ix: usize,
    pub track_ix: usize,
    pub artist_ix: usize,
    /// Cursor of the artist page's albums.
    pub album_ix: usize,
    pub search_ix: usize,
    pub queue_ix: usize,
    pub device_ix: usize,
    /// Rows of the library list (playlists, folders and the fixed entries).
    pub library_len: usize,
    /// Saved albums (the Albums tab).
    pub albums_len: usize,
    pub tracks_len: usize,
    /// Followed artists.
    pub artists_len: usize,
    /// Albums on the open artist page (0 while none is loaded).
    pub artist_albums_len: usize,
    pub search_tracks_len: usize,
    pub search_albums_len: usize,
    pub search_artists_len: usize,
    pub queue_len: usize,
    pub devices_len: usize,
    /// A `/` search within the list has matches to step through.
    pub has_search_matches: bool,
    /// Playlists cut with `x` wait to be pasted.
    pub register_filled: bool,
    /// The view history holds a view to go back to.
    pub history_nonempty: bool,
    /// The track list shows a header image.
    pub header_image: bool,
    pub has_playing_track: bool,
    pub playing: bool,
    pub shuffled: bool,
    pub progress_ms: u32,
    pub duration_ms: u32,
    /// Volume in percent.
    pub volume: u8,
    /// The volume to restore when unmuting.
    pub previous_volume: Option<u8>,
    /// The first `d` of a double press was seen.
    pub pending_d: bool,
    /// The terminal is to be cleared and fully redrawn.
    pub needs_clear: bool,
    pub lyrics_open: bool,
    pub thumbnails: bool,
    /// The row visual mode started on.
    pub visual_start: Option<usize>,
}

/// What selecting the action menu's track means.
#[derive(Clone, Copy, Debug, PartialEq, Eq, Structural)]
pub enum ActionTarget {
    Track(usize),
    QueueTrack(usize),
    SearchTrack(usize),
    /// The currently playing track.
    NowPlaying,
}

/// What the rest of the player does in answer to a key.
#[derive(Clone, Copy, Debug, PartialEq, Eq, Structural)]
pub enum NormalEffect {
    /// Nothing beyond the state change.
    Nothing,
    /// Open the Browse page.
    EnterBrowseNode(BrowseNode),
    OpenAlbum(usize),
    OpenLibraryEntry(usize),
    PlayTrack(usize),
    PlayQueueTrack(usize),
    ActivateSearchResult(usize),
    OpenFollowedArtist(usize),
    OpenArtistAlbum(usize),
    /// Add the track on this row of the active list to Liked Songs.
    Like(usize),
    /// Ask before removing the track on this row from Liked Songs.
    StageUnlike(usize),
    ToggleCondensedLyrics,
    /// Jump to the next (`true`) or previous search match.
    NextMatch(bool),
    StageAlbumDelete(usize),
    StagePlaylistDelete(usize),
    StageFolderDelete(usize),
    /// Cut the playlist on this library row into the register.
    Cut(usize),
    /// Paste the register into the folder on this library row.
    PasteIntoFolder(usize),
    MarkForDelete(usize),
    TogglePin(usize),
    OpenActionMenu(ActionTarget),
    SaveAlbum(usize),
    OpenPlaylistAdd,
    /// Go back to the view on top of the history.
    PopHistory,
    ReloadHeaderImage,
    CancelArtistPageLoad,
    BackToArtistList,
    QueueSelected,
    OpenQueue,
    OpenDevices,
    TogglePlayback(bool),
    ToggleShuffle(bool),
    SeekTo(u32),
    /// Report that nothing is playing that could be sought in.
    NothingSeekable,
    SetVolume(u8),
    NextTrack,
    PreviousTrack,
    Refresh,
    CycleRepeat,
    AdjustVolume(i8),
}

/// The number of rows of the search results' active tab.
pub open spec fn search_len(s: NormalState) -> int {
    match s.search_tab {
        SearchTab::Tracks => s.search_tracks_len as int,
        SearchTab::Albums => s.search_albums_len as int,
        SearchTab::Artists => s.search_artists_len as int,
    }
}

/// Whether any search tab holds results.
pub open spec fn search_has_results(s: NormalState) -> bool {
    s.search_tracks_len > 0 || s.search_albums_len > 0 || s.search_artists_len > 0
}

/// The page on row `index` of the Browse tab.
pub open spec fn browse_node_at(index: usize) -> BrowseNode {
    if index == 0 {
        BrowseNode::TopTracks
    } else if index == 1 {
        BrowseNode::RecentlyPlayed
    } else if index == 2 {
        BrowseNode::FollowedArtists
    } else if index == 3 {
        BrowseNode::TopArtists
    } else {
        BrowseNode::WhatsNew
    }
}

/// The row below `ix` in a list of `len` rows, or `ix` itself on the last row.
pub open spec fn down_one(ix: usize, len: int) -> usize {
    if ix + 1 < len { (ix + 1) as usize } else { ix }
}

/// The row above `ix`, or `ix` itself on the first row.
pub open spec fn up_one(ix: usize) -> usize {
    if ix > 0 { (ix - 1) as usize } else { ix }
}

/// `j` / Down: the active view's cursor moves one row down while a row is left below it. On the
/// Browse tab the cursor stops on the third row and the selected page follows it.
pub open spec fn move_down_spec(s: NormalState) -> NormalState {
    match s.view {
        TuiView::Library => if s.library_tab == LibraryTab::Browse {
            let ix = down_one(s.playlist_ix, 3);
            NormalState { playlist_ix: ix, browse_node: browse_node_at(ix), ..s }
        } else {
            let len = if s.library_tab == LibraryTab::Albums { s.albums_len } else { s.library_len };
            NormalState { playlist_ix: down_one(s.playlist_ix, len as int), ..s }
        },
        TuiView::TrackList => NormalState { track_ix: down_one(s.track_ix, s.tracks_len as int), ..s },
        TuiView::ArtistList => NormalState { artist_ix: down_one(s.artist_ix, s.artists_len as int), ..s },
        TuiView::ArtistPage => NormalState { album_ix: down_one(s.album_ix, s.artist_albums_len as int), ..s },
        TuiView::SearchResults => NormalState { search_ix: down_one(s.search_ix, search_len(s)), ..s },
        TuiView::Queue => NormalState { queue_ix: down_one(s.queue_ix, s.queue_len as int), ..s },
        TuiView::Devices => NormalState { device_ix: down_one(s.device_ix, s.devices_len as int), ..s },
    }
}

/// `k` / Up: the active view's cursor moves one row up unless it is on the first row. On the
/// Browse tab the selected page follows it.
pub open spec fn move_up_spec(s: NormalState) -> NormalState {
    match s.view {
        TuiView::Library => if s.library_tab == LibraryTab::Browse {
            let ix = up_one(s.playlist_ix);
            NormalState { playlist_ix: ix, browse_node: browse_node_at(ix), ..s }
        } else {
            NormalState { playlist_ix: up_one(s.playlist_ix), ..s }
        },
        TuiView::TrackList => NormalState { track_ix: up_one(s.track_ix), ..s },
        TuiView::ArtistList => NormalState { artist_ix: up_one(s.artist_ix), ..s },
        TuiView::ArtistPage => NormalState { album_ix: up_one(s.album_ix), ..s },
        TuiView::SearchResults => NormalState { search_ix: up_one(s.search_ix), ..s },
        TuiView::Queue => NormalState { queue_ix: up_one(s.queue_ix), ..s },
        TuiView::Devices => NormalState { device_ix: up_one(s.device_ix), ..s },
    }
}

fn browse_node_for(index: usize) -> (node: BrowseNode)
    ensures
        node == browse_node_at(index),
{
    crate::browse::select_node_from_library_index(index)
}

fn one_down(ix: usize, len: usize) -> (r: usize)
    ensures
        r == down_one(ix, len as int),
{
    if len > 0 && ix < len - 1 {
        ix + 1
    } else {
        ix
    }
}

fn one_up(ix: usize) -> (r: usize)
    ensures
        r == up_one(ix),
{
    if ix > 0 {
        ix - 1
    } else {
        0
    }
}

fn move_down(s: NormalState) -> (r: NormalState)
    ensures
        r == move_down_spec(s),
{
    match s.view {
        TuiView::Library => if s.library_tab == LibraryTab::Browse {
            let ix = one_down(s.playlist_ix, 3);
            NormalState { playlist_ix: ix, browse_node: browse_node_for(ix), ..s }
        } else {
            let len = if s.library_tab == LibraryTab::Albums { s.albums_len } else { s.library_len };
            NormalState { playlist_ix: one_down(s.playlist_ix, len), ..s }
        },
        TuiView::TrackList => NormalState { track_ix: one_down(s.track_ix, s.tracks_len), ..s },
        TuiView::ArtistList => NormalState { artist_ix: one_down(s.artist_ix, s.artists_len), ..s },
        TuiView::ArtistPage => NormalState { album_ix: one_down(s.album_ix, s.artist_albums_len), ..s },
        TuiView::SearchResults => {
            let len = match s.search_tab {
                SearchTab::Tracks => s.search_tracks_len,
                SearchTab::Albums => s.search_albums_len,
                SearchTab::Artists => s.search_artists_len,
            };
            NormalState { search_ix: one_down(s.search_ix, len), ..s }
        },
        TuiView::Queue => NormalState { queue_ix: one_down(s.queue_ix, s.queue_len), ..s },
        TuiView::Devices => NormalState { device_ix: one_down(s.device_ix, s.devices_len), ..s },
    }
}

fn move_up(s: NormalState) -> (r: NormalState)
    ensures
        r == move_up_spec(s),
{
    match s.view {
        TuiView::Library => if s.library_tab == LibraryTab::Browse {
            let ix = one_up(s.playlist_ix);
            NormalState { playlist_ix: ix, browse_node: browse_node_for(ix), ..s }
        } else {
            NormalState { playlist_ix: one_up(s.playlist_ix), ..s }
        },
        TuiView::TrackList => NormalState { track_ix: one_up(s.track_ix), ..s },
        TuiView::ArtistList => NormalState { artist_ix: one_up(s.artist_ix), ..s },
        TuiView::ArtistPage => NormalState { album_ix: one_up(s.album_ix), ..s },
        TuiView::SearchResults => NormalState { search_ix: one_up(s.search_ix), ..s },
        TuiView::Queue => NormalState { queue_ix: one_up(s.queue_ix), ..s },
        TuiView::Devices => NormalState { device_ix: one_up(s.device_ix), ..s },
    }
}

/// The state with the first `d` of a double press disarmed.
pub open spec fn disarmed(s: NormalState) -> NormalState {
    NormalState { pending_d: false, ..s }
}

/// A `d` on a row that a double press deletes: the first press arms, the second stages the
/// confirm prompt `prompt` and disarms.
pub open spec fn double_d_spec(s: NormalState, prompt: NormalEffect) -> (NormalState, NormalEffect) {
    if s.pending_d {
        (disarmed(s), prompt)
    } else {
        (NormalState { pending_d: true, ..s }, NormalEffect::Nothing)
    }
}

/// What Enter (or `z`) opens or plays: the row under the active view's cursor; on the Browse
/// tab, the selected page.
pub open spec fn open_spec(s: NormalState) -> NormalEffect {
    match s.view {
        TuiView::Library => match s.library_tab {
            LibraryTab::Albums => NormalEffect::OpenAlbum(s.playlist_ix),
            LibraryTab::Browse => NormalEffect::EnterBrowseNode(s.browse_node),
            _ => NormalEffect::OpenLibraryEntry(s.playlist_ix),
        },
        TuiView::TrackList => NormalEffect::PlayTrack(s.track_ix),
        TuiView::Queue => NormalEffect::PlayQueueTrack(s.queue_ix),
        TuiView::SearchResults => NormalEffect::ActivateSearchResult(s.search_ix),
        TuiView::ArtistList => NormalEffect::OpenFollowedArtist(s.artist_ix),
        TuiView::ArtistPage => NormalEffect::OpenArtistAlbum(s.album_ix),
        TuiView::Devices => NormalEffect::Nothing,
    }
}

/// `l` on row `ix` of a track list of `len` rows: like the track, or, when it is already
/// liked, only ask before unliking it.
pub open spec fn like_row(ix: usize, len: usize, row: SelectedRow) -> NormalEffect {
    if ix < len {
        if row.liked {
            NormalEffect::StageUnlike(ix)
        } else {
            NormalEffect::Like(ix)
        }
    } else {
        NormalEffect::Nothing
    }
}

/// `l`: in the library it opens like Enter; on a track list, the queue or the Tracks tab of the
/// search results it likes (or stages the unlike of) the selected track.
pub open spec fn like_spec(s: NormalState, row: SelectedRow) -> NormalEffect {
    match s.view {
        TuiView::Library => open_spec(s),
        TuiView::TrackList => like_row(s.track_ix, s.tracks_len, row),
        TuiView::Queue => like_row(s.queue_ix, s.queue_len, row),
        TuiView::SearchResults => if s.search_tab == SearchTab::Tracks {
            like_row(s.search_ix, s.search_tracks_len, row)
        } else {
            NormalEffect::Nothing
        },
        _ => NormalEffect::Nothing,
    }
}

/// `d` (`is_d`) or `x` in the library view. On the Albums tab a double `d` stages the removal
/// of the saved album. Otherwise the row decides: Liked Songs and the local library are never
/// deleted or cut; a local playlist, an owned playlist or a folder is deleted by a double `d`;
/// any Spotify playlist can be cut with `x`.
pub open spec fn library_delete_spec(s: NormalState, is_d: bool, row: SelectedRow) -> (NormalState, NormalEffect) {
    let ix = s.playlist_ix;
    if s.library_tab == LibraryTab::Albums {
        if is_d && ix < s.albums_len {
            double_d_spec(s, NormalEffect::StageAlbumDelete(ix))
        } else {
            (s, NormalEffect::Nothing)
        }
    } else if ix < s.library_len {
        match row.entry {
            LibraryEntry::LocalPlaylist => if is_d {
                double_d_spec(s, NormalEffect::StagePlaylistDelete(ix))
            } else {
                (s, NormalEffect::Nothing)
            },
            LibraryEntry::OwnedPlaylist => if is_d {
                double_d_spec(s, NormalEffect::StagePlaylistDelete(ix))
            } else {
                (NormalState { register_filled: true, ..s }, NormalEffect::Cut(ix))
            },
            LibraryEntry::Playlist => if is_d {
                (s, NormalEffect::Nothing)
            } else {
                (NormalState { register_filled: true, ..s }, NormalEffect::Cut(ix))
            },
            LibraryEntry::Folder => if is_d {
                double_d_spec(s, NormalEffect::StageFolderDelete(ix))
            } else {
                (s, NormalEffect::Nothing)
            },
            _ => (s, NormalEffect::Nothing),
        }
    } else {
        (s, NormalEffect::Nothing)
    }
}

/// `A`: the action menu opens on the selected track of a track list, the queue or the Tracks
/// tab of the search results, else on the playing track, if any.
pub open spec fn action_menu_spec(s: NormalState) -> NormalEffect {
    if s.view == TuiView::TrackList && s.track_ix < s.tracks_len {
        NormalEffect::OpenActionMenu(ActionTarget::Track(s.track_ix))
    } else if s.view == TuiView::Queue && s.queue_ix < s.queue_len {
        NormalEffect::OpenActionMenu(ActionTarget::QueueTrack(s.queue_ix))
    } else if s.view == TuiView::SearchResults && s.search_tab == SearchTab::Tracks && s.search_ix
        < s.search_tracks_len {
        NormalEffect::OpenActionMenu(ActionTarget::SearchTrack(s.search_ix))
    } else if s.has_playing_track {
        NormalEffect::OpenActionMenu(ActionTarget::NowPlaying)
    } else {
        NormalEffect::Nothing
    }
}

/// `a`: on the Albums tab of the search results it saves the selected album; anywhere else it
/// opens the add-to-playlist picker.
pub open spec fn add_spec(s: NormalState) -> NormalEffect {
    if s.view == TuiView::SearchResults && s.search_tab == SearchTab::Albums {
        if s.search_ix < s.search_albums_len {
            NormalEffect::SaveAlbum(s.search_ix)
        } else {
            NormalEffect::Nothing
        }
    } else {
        NormalEffect::OpenPlaylistAdd
    }
}

/// `h`, Esc or Backspace: go back through the view history; with none left, a track list falls
/// back to the search results it came from (or the library), the queue and the artist list to
/// the library, an artist page to the results (cancelling its load) or to the artist list, and
/// the search results to the library, dropping them. Leaving for the library reloads the header
/// image when the track list shows one.
pub open spec fn back_spec(s: NormalState) -> (NormalState, NormalEffect) {
    let reload = if s.header_image {
        NormalEffect::ReloadHeaderImage
    } else {
        NormalEffect::Nothing
    };
    if s.history_nonempty {
        (s, NormalEffect::PopHistory)
    } else {
        match s.view {
            TuiView::TrackList => (
                NormalState {
                    view: if search_has_results(s) {
                        TuiView::SearchResults
                    } else {
                        TuiView::Library
                    },
                    ..s
                },
                NormalEffect::Nothing,
            ),
            TuiView::Queue | TuiView::ArtistList => (NormalState { view: TuiView::Library, ..s }, reload),
            TuiView::ArtistPage => if search_has_results(s) {
                (NormalState { view: TuiView::SearchResults, ..s }, NormalEffect::CancelArtistPageLoad)
            } else {
                (s, NormalEffect::BackToArtistList)
            },
            TuiView::SearchResults => (
                NormalState {
                    view: TuiView::Library,
                    search_tracks_len: 0,
                    search_albums_len: 0,
                    search_artists_len: 0,
                    ..s
                },
                reload,
            ),
            _ => (s, NormalEffect::Nothing),
        }
    }
}

/// The cursor of the active view.
pub open spec fn current_index(s: NormalState) -> usize {
    match s.view {
        TuiView::TrackList => s.track_ix,
        TuiView::SearchResults => s.search_ix,
        TuiView::Queue => s.queue_ix,
        TuiView::Library => s.playlist_ix,
        TuiView::Devices => s.device_ix,
        TuiView::ArtistList => s.artist_ix,
        TuiView::ArtistPage => s.album_ix,
    }
}

/// The playing position moved by `delta_ms`, kept within the track.
pub open spec fn seek_target(s: NormalState, delta_ms: int) -> u32 {
    let t = s.progress_ms + delta_ms;
    if t < 0 {
        0
    } else if t > s.duration_ms {
        s.duration_ms
    } else {
        t as u32
    }
}

/// Seeking to `target`: with no track playing, or one of unknown length, nothing can be sought
/// in and the player says so; otherwise the position moves there at once and the worker is
/// asked to follow.
pub open spec fn seek_spec(s: NormalState, target: u32) -> (NormalState, NormalEffect) {
    if !s.has_playing_track || s.duration_ms == 0 {
        (s, NormalEffect::NothingSeekable)
    } else {
        (NormalState { progress_ms: target, ..s }, NormalEffect::SeekTo(target))
    }
}

/// `M`: mute, keeping the volume to restore; pressed while muted, restore it.
pub open spec fn mute_spec(s: NormalState) -> (NormalState, NormalEffect) {
    if s.volume > 0 {
        (NormalState { volume: 0, previous_volume: Some(s.volume), ..s }, NormalEffect::SetVolume(0))
    } else {
        match s.previous_volume {
            Some(v) => (NormalState { volume: v, previous_volume: None, ..s }, NormalEffect::SetVolume(v)),
            None => (s, NormalEffect::SetVolume(0)),
        }
    }
}

/// The library tab after `tab`: Playlists, Albums, Browse, then Playlists again.
pub open spec fn next_library_tab(tab: LibraryTab) -> LibraryTab {
    match tab {
        LibraryTab::Playlists => LibraryTab::Albums,
        LibraryTab::Albums => LibraryTab::Browse,
        _ => LibraryTab::Playlists,
    }
}

/// The search tab after `tab`: Tracks, Albums, Artists, then Tracks again.
pub open spec fn next_search_tab(tab: SearchTab) -> SearchTab {
    match tab {
        SearchTab::Tracks => SearchTab::Albums,
        SearchTab::Albums => SearchTab::Artists,
        SearchTab::Artists => SearchTab::Tracks,
    }
}

/// Tab: the library or the search results switch to their next tab, with the cursor back on
/// the first row; entering Browse selects its first page.
pub open spec fn tab_spec(s: NormalState) -> NormalState {
    match s.view {
        TuiView::Library => {
            let tab = next_library_tab(s.library_tab);
            NormalState {
                library_tab: tab,
                playlist_ix: 0,
                browse_node: if tab == LibraryTab::Browse {
                    BrowseNode::TopTracks
                } else {
                    s.browse_node
                },
                ..s
            }
        },
        TuiView::SearchResults => NormalState {
            search_tab: next_search_tab(s.search_tab),
            search_ix: 0,
            ..s
        },
        _ => s,
    }
}

/// Whether `key` is the character `c`.
pub open spec fn is_char(key: NormalKey, c: char) -> bool {
    key == NormalKey::Char(c)
}

/// What `key` does in normal mode, with Ctrl and Shift held as given and `row` describing the
/// row under the active view's cursor. Any key but `d` disarms a pending double press first;
/// then the bindings are tried in order.
pub open spec fn normal_key_spec(
    s0: NormalState,
    key: NormalKey,
    ctrl: bool,
    shift: bool,
    row: SelectedRow,
) -> (NormalState, NormalEffect) {
    let s = if is_char(key, 'd') { s0 } else { disarmed(s0) };
    view_keys_spec(s, key, ctrl, shift, row)
}

/// The keys that move the cursor, open rows, like tracks and switch the input mode.
#[verifier::opaque]
pub open spec fn view_keys_spec(
    s: NormalState,
    key: NormalKey,
    ctrl: bool,
    shift: bool,
    row: SelectedRow,
) -> (NormalState, NormalEffect) {
    if is_char(key, 'j') || key == NormalKey::Down {
        (move_down_spec(s), NormalEffect::Nothing)
    } else if is_char(key, 'k') || key == NormalKey::Up {
        (move_up_spec(s), NormalEffect::Nothing)
    } else if (is_char(key, 'l') || is_char(key, 'L')) && ctrl && !shift {
        (NormalState { needs_clear: true, ..s }, NormalEffect::Nothing)
    } else if is_char(key, 'l') {
        (s, like_spec(s, row))
    } else if is_char(key, 'L') {
        if ctrl {
            (s, NormalEffect::ToggleCondensedLyrics)
        } else {
            (NormalState { lyrics_open: !s.lyrics_open, ..s }, NormalEffect::Nothing)
        }
    } else if key == NormalKey::Enter || is_char(key, 'z') {
        (s, open_spec(s))
    } else if is_char(key, ':') {
        (NormalState { mode: TuiMode::Command(CommandSeed::Empty), ..s }, NormalEffect::Nothing)
    } else if is_char(key, '/') {
        (NormalState { mode: TuiMode::Search, has_search_matches: false, ..s }, NormalEffect::Nothing)
    } else if is_char(key, 'f') {
        (NormalState { mode: TuiMode::Command(CommandSeed::Search), ..s }, NormalEffect::Nothing)
    } else if is_char(key, 'n') && s.has_search_matches {
        (s, NormalEffect::NextMatch(true))
    } else if is_char(key, 'N') && s.has_search_matches {
        (s, NormalEffect::NextMatch(false))
    } else {
        row_keys_spec(s, key, row)
    }
}

/// The keys that act on the selected row or leave the view.
#[verifier::opaque]
pub open spec fn row_keys_spec(s: NormalState, key: NormalKey, row: SelectedRow) -> (NormalState, NormalEffect) {
    let ix = s.playlist_ix;
    let in_library = s.view == TuiView::Library;
    if (is_char(key, 'd') || is_char(key, 'x')) && in_library {
        library_delete_spec(s, is_char(key, 'd'), row)
    } else if is_char(key, 'd') {
        (s, if s.view == TuiView::TrackList { NormalEffect::MarkForDelete(s.track_ix) } else { NormalEffect::Nothing })
    } else if is_char(key, 'A') {
        (s, action_menu_spec(s))
    } else if is_char(key, 'a') {
        (s, add_spec(s))
    } else if is_char(key, 'p') && in_library && s.register_filled && ix < s.library_len {
        (
            NormalState { register_filled: false, ..s },
            if row.entry == LibraryEntry::Folder { NormalEffect::PasteIntoFolder(ix) } else { NormalEffect::Nothing },
        )
    } else if is_char(key, 'm') && in_library {
        (s, NormalEffect::TogglePin(ix))
    } else if is_char(key, 'h') || key == NormalKey::Esc || key == NormalKey::Backspace {
        back_spec(s)
    } else if is_char(key, 'q') {
        (s, NormalEffect::QueueSelected)
    } else if is_char(key, 'Q') {
        (s, NormalEffect::OpenQueue)
    } else if is_char(key, 'D') {
        (s, NormalEffect::OpenDevices)
    } else {
        playback_keys_spec(s, key)
    }
}

/// The playback keys, the library's command shortcuts, visual mode and Tab.
pub open spec fn playback_keys_spec(s: NormalState, key: NormalKey) -> (NormalState, NormalEffect) {
    let ix = s.playlist_ix;
    let in_library = s.view == TuiView::Library;
    if is_char(key, ' ') {
        (NormalState { playing: !s.playing, ..s }, NormalEffect::TogglePlayback(!s.playing))
    } else if is_char(key, 'c') && in_library {
        (NormalState { mode: TuiMode::Command(CommandSeed::NewPlaylist), ..s }, NormalEffect::Nothing)
    } else if is_char(key, 'e') {
        if in_library && ix < s.library_len {
            (NormalState { mode: TuiMode::Command(CommandSeed::Rename(ix)), ..s }, NormalEffect::Nothing)
        } else {
            (s, NormalEffect::Nothing)
        }
    } else if is_char(key, 's') {
        (NormalState { shuffled: !s.shuffled, ..s }, NormalEffect::ToggleShuffle(!s.shuffled))
    } else if is_char(key, 'v') {
        (NormalState { mode: TuiMode::Visual, visual_start: Some(current_index(s)), ..s }, NormalEffect::Nothing)
    } else if is_char(key, ',') {
        seek_spec(s, seek_target(s, -5000))
    } else if is_char(key, '.') {
        seek_spec(s, seek_target(s, 5000))
    } else if is_char(key, '0') {
        seek_spec(s, 0)
    } else if is_char(key, 'M') {
        mute_spec(s)
    } else if is_char(key, 'T') {
        (NormalState { thumbnails: !s.thumbnails, ..s }, NormalEffect::Nothing)
    } else if is_char(key, ']') || is_char(key, '>') {
        (NormalState { progress_ms: 0, duration_ms: 0, ..s }, NormalEffect::NextTrack)
    } else if is_char(key, '[') || is_char(key, '<') {
        (NormalState { progress_ms: 0, duration_ms: 0, ..s }, NormalEffect::PreviousTrack)
    } else if is_char(key, 'R') {
        (s, NormalEffect::Refresh)
    } else if is_char(key, 'r') {
        (s, NormalEffect::CycleRepeat)
    } else if is_char(key, '=') {
        (s, NormalEffect::AdjustVolume(1))
    } else if is_char(key, '-') {
        (s, NormalEffect::AdjustVolume(-1i8))
    } else if is_char(key, '+') {
        (s, NormalEffect::AdjustVolume(5))
    } else if is_char(key, '_') {
        (s, NormalEffect::AdjustVolume(-5i8))
    } else if key == NormalKey::Tab {
        (tab_spec(s), NormalEffect::Nothing)
    } else {
        (s, NormalEffect::Nothing)
    }
}

/// The number of rows the active view's cursor moves over; on the Browse tab the cursor keeps to
/// the first three rows.
pub open spec fn view_len(s: NormalState) -> int {
    match s.view {
        TuiView::Library => match s.library_tab {
            LibraryTab::Browse => 3,
            LibraryTab::Albums => s.albums_len as int,
            _ => s.library_len as int,
        },
        TuiView::TrackList => s.tracks_len as int,
        TuiView::ArtistList => s.artists_len as int,
        TuiView::ArtistPage => s.artist_albums_len as int,
        TuiView::SearchResults => search_len(s),
        TuiView::Queue => s.queue_len as int,
        TuiView::Devices => s.devices_len as int,
    }
}

#[verifier::spinoff_prover]
#[verifier::rlimit(40)]
proof fn lemma_move_down_shape(s: NormalState)
    ensures
        move_down_spec(s).view == s.view,
        view_len(move_down_spec(s)) == view_len(s),
        current_index(move_down_spec(s)) == down_one(current_index(s), view_len(s)),
{
    let t = move_down_spec(s);
    match s.view {
        TuiView::Library => {
            if s.library_tab == LibraryTab::Browse {
                assert(t.playlist_ix == down_one(s.playlist_ix, 3));
            } else {
                assert(t.library_tab == s.library_tab);
            }
        },
        TuiView::SearchResults => {
            assert(t.search_tab == s.search_tab);
        },
        _ => {},
    }
}

#[verifier::spinoff_prover]
#[verifier::rlimit(40)]
proof fn lemma_move_up_shape(s: NormalState)
    ensures
        move_up_spec(s).view == s.view,
        view_len(move_up_spec(s)) == view_len(s),
        current_index(move_up_spec(s)) == up_one(current_index(s)),
{
    let t = move_up_spec(s);
    match s.view {
        TuiView::Library => {
            assert(t.library_tab == s.library_tab);
            assert(t.playlist_ix == up_one(s.playlist_ix));
        },
        TuiView::SearchResults => {
            assert(t.search_tab == s.search_tab);
        },
        _ => {},
    }
}

/// `j`, `k`, Down and Up keep the view and its cursor inside the view's rows, and move the
/// cursor by at most one row.
#[verifier::spinoff_prover]
#[verifier::rlimit(40)]
pub proof fn lemma_cursor_keys_stay_in_list(s: NormalState, key: NormalKey, ctrl: bool, shift: bool, row: SelectedRow)
    requires
        key == NormalKey::Char('j') || key == NormalKey::Down || key == NormalKey::Char('k') || key
            == NormalKey::Up,
        current_index(s) < view_len(s),
    ensures
        ({
            let t = normal_key_spec(s, key, ctrl, shift, row).0;
            &&& t.view == s.view
            &&& current_index(t) < view_len(t)
            &&& current_index(s) - 1 <= current_index(t) <= current_index(s) + 1
        }),
{
    reveal(view_keys_spec);
    let d = disarmed(s);
    assert(current_index(d) == current_index(s) && view_len(d) == view_len(s));
    if key == NormalKey::Char('j') || key == NormalKey::Down {
        assert(normal_key_spec(s, key, ctrl, shift, row).0 == move_down_spec(d));
        lemma_move_down_shape(d);
    } else {
        assert(normal_key_spec(s, key, ctrl, shift, row).0 == move_up_spec(d));
        lemma_move_up_shape(d);
    }
}

proof fn lemma_j_moves_down(s: NormalState, ctrl: bool, shift: bool, row: SelectedRow)
    ensures
        normal_key_spec(s, NormalKey::Char('j'), ctrl, shift, row).0 == move_down_spec(disarmed(s)),
{
    reveal(view_keys_spec);
}

proof fn lemma_k_moves_up(s: NormalState, ctrl: bool, shift: bool, row: SelectedRow)
    ensures
        normal_key_spec(s, NormalKey::Char('k'), ctrl, shift, row).0 == move_up_spec(disarmed(s)),
{
    reveal(view_keys_spec);
}

/// The cursor of view `v`.
pub open spec fn index_in(s: NormalState, v: TuiView) -> usize {
    match v {
        TuiView::TrackList => s.track_ix,
        TuiView::SearchResults => s.search_ix,
        TuiView::Queue => s.queue_ix,
        TuiView::Library => s.playlist_ix,
        TuiView::Devices => s.device_ix,
        TuiView::ArtistList => s.artist_ix,
        TuiView::ArtistPage => s.album_ix,
    }
}

#[verifier::spinoff_prover]
#[verifier::rlimit(40)]
proof fn lemma_moves_keep_other_cursors(s: NormalState)
    ensures
        forall|v: TuiView| v != s.view ==> index_in(move_down_spec(s), v) == index_in(s, v),
        forall|v: TuiView| v != s.view ==> index_in(move_up_spec(s), v) == index_in(s, v),
        s.view == TuiView::Library && s.library_tab == LibraryTab::Browse ==> move_down_spec(s).browse_node
            == browse_node_at(move_down_spec(s).playlist_ix) && move_up_spec(s).browse_node == browse_node_at(
            move_up_spec(s).playlist_ix,
        ),
        index_in(s, s.view) == current_index(s),
{
}

/// `j`/Down move the active view's cursor exactly one row down unless it is on the view's last
/// row, and `k`/Up one row up unless it is on the first; no other view's cursor moves, nothing
/// is asked of the player, and on the Browse tab the selected page follows the cursor.
#[verifier::spinoff_prover]
#[verifier::rlimit(40)]
pub proof fn lemma_cursor_keys_move_one_row(s: NormalState, key: NormalKey, ctrl: bool, shift: bool, row: SelectedRow)
    requires
        key == NormalKey::Char('j') || key == NormalKey::Down || key == NormalKey::Char('k') || key
            == NormalKey::Up,
    ensures
        ({
            let (t, e) = normal_key_spec(s, key, ctrl, shift, row);
            let down = key == NormalKey::Char('j') || key == NormalKey::Down;
            &&& e == NormalEffect::Nothing
            &&& t.view == s.view && view_len(t) == view_len(s)
            &&& down ==> current_index(t) == if current_index(s) + 1 < view_len(s) {
                current_index(s) + 1
            } else {
                current_index(s) as int
            }
            &&& !down ==> current_index(t) == if current_index(s) > 0 {
                current_index(s) - 1
            } else {
                current_index(s) as int
            }
            &&& forall|v: TuiView| v != s.view ==> index_in(t, v) == index_in(s, v)
            &&& s.view == TuiView::Library && s.library_tab == LibraryTab::Browse ==> t.browse_node
                == browse_node_at(t.playlist_ix)
        }),
{
    reveal(view_keys_spec);
    let d = disarmed(s);
    assert(current_index(d) == current_index(s) && view_len(d) == view_len(s));
    assert forall|v: TuiView| index_in(d, v) == index_in(s, v) by {}
    lemma_moves_keep_other_cursors(d);
    if key == NormalKey::Char('j') || key == NormalKey::Down {
        assert(normal_key_spec(s, key, ctrl, shift, row) == (move_down_spec(d), NormalEffect::Nothing));
        lemma_move_down_shape(d);
    } else {
        assert(normal_key_spec(s, key, ctrl, shift, row) == (move_up_spec(d), NormalEffect::Nothing));
        lemma_move_up_shape(d);
    }
}

/// A `k` after a `j` that moved the cursor (one that was not on the view's last row) puts it
/// back on the row it started on.
#[verifier::spinoff_prover]
pub proof fn lemma_up_undoes_down(s: NormalState, ctrl: bool, shift: bool, row: SelectedRow)
    requires
        current_index(s) + 1 < view_len(s),
    ensures
        current_index(
            normal_key_spec(
                normal_key_spec(s, NormalKey::Char('j'), ctrl, shift, row).0,
                NormalKey::Char('k'),
                ctrl,
                shift,
                row,
            ).0,
        ) == current_index(s),
{
    let d = disarmed(s);
    lemma_j_moves_down(s, ctrl, shift, row);
    let t = normal_key_spec(s, NormalKey::Char('j'), ctrl, shift, row).0;
    assert(current_index(d) == current_index(s) && view_len(d) == view_len(s));
    lemma_move_down_shape(d);
    lemma_k_moves_up(t, ctrl, shift, row);
    let dt = disarmed(t);
    assert(current_index(dt) == current_index(t));
    lemma_move_up_shape(dt);
}

/// Ctrl-l (without Shift) asks for a full redraw and does nothing else: no navigation, no
/// request to the worker.
pub proof fn lemma_ctrl_l_only_redraws(s: NormalState, row: SelectedRow)
    ensures
        normal_key_spec(s, NormalKey::Char('l'), true, false, row) == (
            NormalState { needs_clear: true, pending_d: false, ..s },
            NormalEffect::Nothing,
        ),
{
    reveal(view_keys_spec);
}

/// Any key but `d` disarms a pending double press, so a `d` only deletes when the key before it
/// was the first `d` on the same row.
#[verifier::spinoff_prover]
#[verifier::rlimit(40)]
pub proof fn lemma_other_keys_disarm_d(s: NormalState, key: NormalKey, ctrl: bool, shift: bool, row: SelectedRow)
    requires
        key != NormalKey::Char('d'),
    ensures
        !normal_key_spec(s, key, ctrl, shift, row).0.pending_d,
{
    reveal(view_keys_spec);
    reveal(row_keys_spec);
}

/// Two presses of `d` on a playlist the user owns stage its deletion: the first only arms, the
/// second stages the confirm prompt and disarms.
pub proof fn lemma_double_d_stages_playlist_delete(s: NormalState, ctrl: bool, shift: bool, row: SelectedRow)
    requires
        !s.pending_d,
        s.view == TuiView::Library,
        s.library_tab != LibraryTab::Albums,
        s.playlist_ix < s.library_len,
        row.entry == LibraryEntry::OwnedPlaylist,
    ensures
        ({
            let d = NormalKey::Char('d');
            let first = normal_key_spec(s, d, ctrl, shift, row);
            let second = normal_key_spec(first.0, d, ctrl, shift, row);
            &&& first.1 == NormalEffect::Nothing
            &&& first.0.pending_d
            &&& second.1 == NormalEffect::StagePlaylistDelete(s.playlist_ix)
            &&& !second.0.pending_d
        }),
{
    reveal(view_keys_spec);
    reveal(row_keys_spec);
}

/// `l` never removes a like directly: on a liked track it only stages the confirm prompt.
pub proof fn lemma_liked_track_only_stages_unlike(s: NormalState, ctrl: bool, shift: bool, row: SelectedRow)
    requires
        row.liked,
        !(ctrl && !shift),
    ensures
        ({
            let e = normal_key_spec(s, NormalKey::Char('l'), ctrl, shift, row).1;
            &&& !(e is Like)
            &&& s.view == TuiView::TrackList && s.track_ix < s.tracks_len ==> e
                == NormalEffect::StageUnlike(s.track_ix)
        }),
{
    reveal(view_keys_spec);
}

/// `h`, Esc and Backspace go back: with a view history they pop it and change nothing else;
/// without one a track list returns to the search results it was opened from when any search
/// tab holds results and to the library otherwise, the queue, the artist list and the search
/// results return to the library (the results being dropped), an artist page returns to the
/// results or hands over to the artist list, and the library and device list stay. Going back
/// never lands anywhere but the library or the search results.
#[verifier::spinoff_prover]
#[verifier::rlimit(40)]
pub proof fn lemma_back_returns_toward_the_library(
    s: NormalState,
    key: NormalKey,
    ctrl: bool,
    shift: bool,
    row: SelectedRow,
)
    requires
        key == NormalKey::Char('h') || key == NormalKey::Esc || key == NormalKey::Backspace,
    ensures
        ({
            let (t, e) = normal_key_spec(s, key, ctrl, shift, row);
            let results = s.search_tracks_len > 0 || s.search_albums_len > 0 || s.search_artists_len > 0;
            &&& s.history_nonempty ==> e == NormalEffect::PopHistory && t.view == s.view
            &&& !s.history_nonempty && s.view == TuiView::TrackList ==> e == NormalEffect::Nothing
                && (results ==> t.view == TuiView::SearchResults) && (!results ==> t.view == TuiView::Library)
            &&& !s.history_nonempty && (s.view == TuiView::Queue || s.view == TuiView::ArtistList) ==> t.view
                == TuiView::Library
            &&& !s.history_nonempty && s.view == TuiView::SearchResults ==> t.view == TuiView::Library
                && t.search_tracks_len == 0 && t.search_albums_len == 0 && t.search_artists_len == 0
            &&& !s.history_nonempty && s.view == TuiView::ArtistPage ==> (results ==> t.view
                == TuiView::SearchResults && e == NormalEffect::CancelArtistPageLoad) && (!results
                ==> t.view == s.view && e == NormalEffect::BackToArtistList)
            &&& (s.view == TuiView::Library || s.view == TuiView::Devices) ==> t.view == s.view
            &&& t.view != s.view ==> t.view == TuiView::Library || t.view == TuiView::SearchResults
            &&& t.track_ix == s.track_ix && t.playlist_ix == s.playlist_ix && t.search_ix == s.search_ix
        }),
{
    reveal(view_keys_spec);
    reveal(row_keys_spec);
    let d = disarmed(s);
    assert(normal_key_spec(s, key, ctrl, shift, row) == back_spec(d));
}

/// The row an effect acts on, if it acts on one.
pub open spec fn effect_row(e: NormalEffect) -> Option<usize> {
    match e {
        NormalEffect::OpenAlbum(i) => Some(i),
        NormalEffect::OpenLibraryEntry(i) => Some(i),
        NormalEffect::PlayTrack(i) => Some(i),
        NormalEffect::PlayQueueTrack(i) => Some(i),
        NormalEffect::ActivateSearchResult(i) => Some(i),
        NormalEffect::OpenFollowedArtist(i) => Some(i),
        NormalEffect::OpenArtistAlbum(i) => Some(i),
        NormalEffect::Like(i) => Some(i),
        NormalEffect::StageUnlike(i) => Some(i),
        NormalEffect::StageAlbumDelete(i) => Some(i),
        NormalEffect::StagePlaylistDelete(i) => Some(i),
        NormalEffect::StageFolderDelete(i) => Some(i),
        NormalEffect::Cut(i) => Some(i),
        NormalEffect::PasteIntoFolder(i) => Some(i),
        NormalEffect::MarkForDelete(i) => Some(i),
        NormalEffect::TogglePin(i) => Some(i),
        NormalEffect::SaveAlbum(i) => Some(i),
        _ => None,
    }
}

/// Enter and `z` change nothing but the armed `d` and act on the row under the active view's
/// cursor: a track list plays its track, the queue its entry, the search results activate
/// theirs, the artist list opens the artist, the artist page the album, the library its entry
/// (an album on the Albums tab); on the Browse tab they enter the selected page, and on the
/// device list they do nothing. `l` in the library does what Enter does.
#[verifier::spinoff_prover]
#[verifier::rlimit(40)]
pub proof fn lemma_enter_acts_on_the_cursor_row(s: NormalState, key: NormalKey, ctrl: bool, shift: bool, row: SelectedRow)
    requires
        key == NormalKey::Enter || key == NormalKey::Char('z'),
    ensures
        ({
            let (t, e) = normal_key_spec(s, key, ctrl, shift, row);
            let browse = s.view == TuiView::Library && s.library_tab == LibraryTab::Browse;
            &&& t == disarmed(s)
            &&& !browse && s.view != TuiView::Devices ==> effect_row(e) == Some(current_index(s))
            &&& browse ==> e == NormalEffect::EnterBrowseNode(s.browse_node)
            &&& s.view == TuiView::Devices ==> e == NormalEffect::Nothing
            &&& s.view == TuiView::TrackList ==> e is PlayTrack
            &&& s.view == TuiView::Queue ==> e is PlayQueueTrack
            &&& s.view == TuiView::SearchResults ==> e is ActivateSearchResult
            &&& s.view == TuiView::ArtistList ==> e is OpenFollowedArtist
            &&& s.view == TuiView::ArtistPage ==> e is OpenArtistAlbum
            &&& s.view == TuiView::Library && s.library_tab == LibraryTab::Albums ==> e is OpenAlbum
            &&& s.view == TuiView::Library && (s.library_tab == LibraryTab::Playlists || s.library_tab
                == LibraryTab::Artists) ==> e is OpenLibraryEntry
            &&& s.view == TuiView::Library && !(ctrl && !shift) ==> normal_key_spec(
                s,
                NormalKey::Char('l'),
                ctrl,
                shift,
                row,
            ) == (t, e)
        }),
{
    reveal(view_keys_spec);
    reveal(row_keys_spec);
}

/// `l` on a track list, the queue or the Tracks tab of the search results acts on the selected
/// track exactly when the cursor is on a track: it likes an unliked one and only stages the
/// unlike of a liked one. It changes nothing but the armed `d`.
#[verifier::spinoff_prover]
#[verifier::rlimit(40)]
pub proof fn lemma_like_acts_on_the_selected_track(s: NormalState, ctrl: bool, shift: bool, row: SelectedRow)
    requires
        !(ctrl && !shift),
        s.view == TuiView::TrackList || s.view == TuiView::Queue || (s.view == TuiView::SearchResults
            && s.search_tab == SearchTab::Tracks),
    ensures
        ({
            let (t, e) = normal_key_spec(s, NormalKey::Char('l'), ctrl, shift, row);
            let len = if s.view == TuiView::TrackList {
                s.tracks_len
            } else if s.view == TuiView::Queue {
                s.queue_len
            } else {
                s.search_tracks_len
            };
            &&& t == disarmed(s)
            &&& current_index(s) < len ==> effect_row(e) == Some(current_index(s)) && (row.liked
                <==> e is StageUnlike) && (!row.liked <==> e is Like)
            &&& current_index(s) >= len ==> e == NormalEffect::Nothing
        }),
{
    reveal(view_keys_spec);
    reveal(row_keys_spec);
}

/// Space, `s`, `T` and `L` flip one flag each, and pressing one twice restores it: space the
/// playing state (reporting the new state), `s` shuffle (likewise), `T` the library
/// thumbnails, `L` the lyrics modal.
#[verifier::spinoff_prover]
#[verifier::rlimit(40)]
pub proof fn lemma_toggle_keys_flip_one_flag(s: NormalState, row: SelectedRow)
    ensures
        ({
            let play = normal_key_spec(s, NormalKey::Char(' '), false, false, row);
            let shuffle = normal_key_spec(s, NormalKey::Char('s'), false, false, row);
            let thumbs = normal_key_spec(s, NormalKey::Char('T'), false, false, row);
            let lyrics = normal_key_spec(s, NormalKey::Char('L'), false, false, row);
            &&& play.0 == NormalState { playing: !s.playing, ..disarmed(s) }
            &&& play.1 == NormalEffect::TogglePlayback(play.0.playing)
            &&& normal_key_spec(play.0, NormalKey::Char(' '), false, false, row).0.playing == s.playing
            &&& shuffle.0 == NormalState { shuffled: !s.shuffled, ..disarmed(s) }
            &&& shuffle.1 == NormalEffect::ToggleShuffle(shuffle.0.shuffled)
            &&& normal_key_spec(shuffle.0, NormalKey::Char('s'), false, false, row).0.shuffled == s.shuffled
            &&& thumbs.0 == NormalState { thumbnails: !s.thumbnails, ..disarmed(s) }
            &&& thumbs.1 == NormalEffect::Nothing
            &&& lyrics.0 == NormalState { lyrics_open: !s.lyrics_open, ..disarmed(s) }
            &&& lyrics.1 == NormalEffect::Nothing
        }),
{
    reveal(view_keys_spec);
    reveal(row_keys_spec);
}

/// `]`/`>` skip to the next track and `[`/`<` back to the previous one, both forgetting the
/// playing position and length until the worker reports the new track; nothing else changes.
/// `=`/`-` step the volume by one point up and down, `+`/`_` by five.
#[verifier::spinoff_prover]
#[verifier::rlimit(40)]
pub proof fn lemma_skip_and_volume_keys(s: NormalState, row: SelectedRow)
    ensures
        ({
            let reset = NormalState { progress_ms: 0, duration_ms: 0, ..disarmed(s) };
            &&& normal_key_spec(s, NormalKey::Char(']'), false, false, row) == (reset, NormalEffect::NextTrack)
            &&& normal_key_spec(s, NormalKey::Char('>'), false, false, row) == (reset, NormalEffect::NextTrack)
            &&& normal_key_spec(s, NormalKey::Char('['), false, false, row) == (reset, NormalEffect::PreviousTrack)
            &&& normal_key_spec(s, NormalKey::Char('<'), false, false, row) == (reset, NormalEffect::PreviousTrack)
            &&& normal_key_spec(s, NormalKey::Char('='), false, false, row) == (disarmed(s), NormalEffect::AdjustVolume(1))
            &&& normal_key_spec(s, NormalKey::Char('-'), false, false, row) == (disarmed(s), NormalEffect::AdjustVolume(-1i8))
            &&& normal_key_spec(s, NormalKey::Char('+'), false, false, row) == (disarmed(s), NormalEffect::AdjustVolume(5))
            &&& normal_key_spec(s, NormalKey::Char('_'), false, false, row) == (disarmed(s), NormalEffect::AdjustVolume(-5i8))
        }),
{
    reveal(view_keys_spec);
    reveal(row_keys_spec);
}

/// The keys that leave normal mode: `:` opens an empty command line, `f` one holding
/// `search `, `/` starts a search within the list with the old matches dropped, `v` starts a
/// range on the cursor's row; in the library `c` opens `newplaylist ` and `e` the rename of the
/// selected row (when there is one). Any other key keeps normal mode.
#[verifier::spinoff_prover]
#[verifier::rlimit(40)]
pub proof fn lemma_mode_keys(s: NormalState, key: NormalKey, ctrl: bool, shift: bool, row: SelectedRow)
    requires
        s.mode == TuiMode::Normal,
    ensures
        ({
            let t = normal_key_spec(s, key, ctrl, shift, row).0;
            let in_library = s.view == TuiView::Library;
            &&& key == NormalKey::Char(':') ==> t.mode == TuiMode::Command(CommandSeed::Empty)
            &&& key == NormalKey::Char('f') ==> t.mode == TuiMode::Command(CommandSeed::Search)
            &&& key == NormalKey::Char('/') ==> t.mode == TuiMode::Search && !t.has_search_matches
            &&& key == NormalKey::Char('v') ==> t.mode == TuiMode::Visual && t.visual_start == Some(current_index(s))
            &&& key == NormalKey::Char('c') ==> t.mode == (if in_library {
                TuiMode::Command(CommandSeed::NewPlaylist)
            } else {
                TuiMode::Normal
            })
            &&& key == NormalKey::Char('e') ==> t.mode == (if in_library && s.playlist_ix < s.library_len {
                TuiMode::Command(CommandSeed::Rename(s.playlist_ix))
            } else {
                TuiMode::Normal
            })
            &&& !(key == NormalKey::Char(':') || key == NormalKey::Char('f') || key == NormalKey::Char('/')
                || key == NormalKey::Char('v') || key == NormalKey::Char('c') || key == NormalKey::Char('e'))
                ==> t.mode == TuiMode::Normal
        }),
{
    reveal(view_keys_spec);
    reveal(row_keys_spec);
}

/// Double-`d` deletes only what can be deleted: a staged deletion always names the selected
/// library row (or saved album), comes only from a second `d`, and never falls on Liked Songs,
/// the local library or a playlist someone else owns. `x` cuts exactly the Spotify playlists
/// (owned or not) into the register, and only on the Playlists, Browse or Artists tab.
#[verifier::spinoff_prover]
#[verifier::rlimit(60)]
pub proof fn lemma_delete_and_cut_keys(s: NormalState, ctrl: bool, shift: bool, row: SelectedRow)
    requires
        s.view == TuiView::Library,
    ensures
        ({
            let (t, e) = normal_key_spec(s, NormalKey::Char('d'), ctrl, shift, row);
            let (tx, ex) = normal_key_spec(s, NormalKey::Char('x'), ctrl, shift, row);
            let staged = e is StageAlbumDelete || e is StagePlaylistDelete || e is StageFolderDelete;
            let albums = s.library_tab == LibraryTab::Albums;
            let deletable = if albums {
                s.playlist_ix < s.albums_len
            } else {
                s.playlist_ix < s.library_len && (row.entry == LibraryEntry::LocalPlaylist || row.entry
                    == LibraryEntry::OwnedPlaylist || row.entry == LibraryEntry::Folder)
            };
            &&& staged ==> s.pending_d && deletable && effect_row(e) == Some(s.playlist_ix) && !t.pending_d
            &&& deletable && s.pending_d ==> staged
            &&& deletable && !s.pending_d ==> e == NormalEffect::Nothing && t.pending_d
            &&& !deletable ==> e == NormalEffect::Nothing && t.pending_d == s.pending_d
            &&& albums && staged ==> e is StageAlbumDelete
            &&& !albums && staged ==> (e is StageFolderDelete <==> row.entry == LibraryEntry::Folder)
            &&& (ex is Cut) <==> (!albums && s.playlist_ix < s.library_len && (row.entry
                == LibraryEntry::OwnedPlaylist || row.entry == LibraryEntry::Playlist))
            &&& ex is Cut ==> effect_row(ex) == Some(s.playlist_ix) && tx.register_filled
            &&& !(ex is Cut) ==> ex == NormalEffect::Nothing && tx == disarmed(s)
        }),
{
    reveal(view_keys_spec);
    reveal(row_keys_spec);
}

/// `p` pastes the register only in the library, with something cut and a row selected; it
/// empties the register and moves the cut playlists into the selected row only when that row
/// is a folder. `m` pins or unpins the selected library row.
#[verifier::spinoff_prover]
#[verifier::rlimit(40)]
pub proof fn lemma_paste_and_pin_keys(s: NormalState, ctrl: bool, shift: bool, row: SelectedRow)
    ensures
        ({
            let (t, e) = normal_key_spec(s, NormalKey::Char('p'), ctrl, shift, row);
            let pastes = s.view == TuiView::Library && s.register_filled && s.playlist_ix < s.library_len;
            &&& pastes ==> !t.register_filled && (e == if row.entry == LibraryEntry::Folder {
                NormalEffect::PasteIntoFolder(s.playlist_ix)
            } else {
                NormalEffect::Nothing
            })
            &&& !pastes ==> t == disarmed(s) && e == NormalEffect::Nothing
            &&& s.view == TuiView::Library ==> normal_key_spec(s, NormalKey::Char('m'), ctrl, shift, row).1
                == NormalEffect::TogglePin(s.playlist_ix)
            &&& s.view != TuiView::Library ==> normal_key_spec(s, NormalKey::Char('m'), ctrl, shift, row).1
                == NormalEffect::Nothing
        }),
{
    reveal(view_keys_spec);
    reveal(row_keys_spec);
}

/// `A` opens the action menu on the selected track when the cursor is on one (track list,
/// queue, Tracks tab of the results), else on the playing track, else not at all. `a` saves the
/// selected album on the Albums tab of the results and opens the add-to-playlist picker
/// anywhere else. `n` and `N` step forward and back through the search matches, when there are
/// any.
#[verifier::spinoff_prover]
#[verifier::rlimit(40)]
pub proof fn lemma_menu_and_match_keys(s: NormalState, ctrl: bool, shift: bool, row: SelectedRow)
    ensures
        ({
            let ea = normal_key_spec(s, NormalKey::Char('A'), ctrl, shift, row).1;
            let on_track = (s.view == TuiView::TrackList && s.track_ix < s.tracks_len) || (s.view == TuiView::Queue
                && s.queue_ix < s.queue_len) || (s.view == TuiView::SearchResults && s.search_tab == SearchTab::Tracks
                && s.search_ix < s.search_tracks_len);
            let add = normal_key_spec(s, NormalKey::Char('a'), ctrl, shift, row).1;
            let album_tab = s.view == TuiView::SearchResults && s.search_tab == SearchTab::Albums;
            &&& on_track ==> (ea matches NormalEffect::OpenActionMenu(target) && target != ActionTarget::NowPlaying)
            &&& on_track ==> ea == NormalEffect::OpenActionMenu(
                if s.view == TuiView::TrackList {
                    ActionTarget::Track(current_index(s))
                } else if s.view == TuiView::Queue {
                    ActionTarget::QueueTrack(current_index(s))
                } else {
                    ActionTarget::SearchTrack(current_index(s))
                },
            )
            &&& !on_track && s.has_playing_track ==> ea == NormalEffect::OpenActionMenu(ActionTarget::NowPlaying)
            &&& !on_track && !s.has_playing_track ==> ea == NormalEffect::Nothing
            &&& album_tab && s.search_ix < s.search_albums_len ==> add == NormalEffect::SaveAlbum(s.search_ix)
            &&& album_tab && s.search_ix >= s.search_albums_len ==> add == NormalEffect::Nothing
            &&& !album_tab ==> add == NormalEffect::OpenPlaylistAdd
            &&& normal_key_spec(s, NormalKey::Char('n'), ctrl, shift, row).1 == if s.has_search_matches {
                NormalEffect::NextMatch(true)
            } else {
                NormalEffect::Nothing
            }
            &&& normal_key_spec(s, NormalKey::Char('N'), ctrl, shift, row).1 == if s.has_search_matches {
                NormalEffect::NextMatch(false)
            } else {
                NormalEffect::Nothing
            }
        }),
{
    reveal(view_keys_spec);
    reveal(row_keys_spec);
}

proof fn lemma_tab_key(s: NormalState, ctrl: bool, shift: bool, row: SelectedRow)
    ensures
        normal_key_spec(s, NormalKey::Tab, ctrl, shift, row) == (tab_spec(disarmed(s)), NormalEffect::Nothing),
{
    reveal(view_keys_spec);
    reveal(row_keys_spec);
}

/// Tab cycles the search results through Tracks, Albums and Artists: three presses come back
/// to the tab they started on, with the cursor on the first result. Outside the library and
/// the results, Tab does nothing.
#[verifier::spinoff_prover]
#[verifier::rlimit(40)]
pub proof fn lemma_tab_cycles_search_tabs(s: NormalState, ctrl: bool, shift: bool, row: SelectedRow)
    ensures
        s.view == TuiView::SearchResults ==> ({
            let t1 = normal_key_spec(s, NormalKey::Tab, ctrl, shift, row).0;
            let t2 = normal_key_spec(t1, NormalKey::Tab, ctrl, shift, row).0;
            let t3 = normal_key_spec(t2, NormalKey::Tab, ctrl, shift, row).0;
            &&& t1.search_tab != s.search_tab && t2.search_tab != s.search_tab && t2.search_tab != t1.search_tab
            &&& t3.search_tab == s.search_tab
            &&& t1.search_ix == 0
        }),
        s.view != TuiView::SearchResults && s.view != TuiView::Library ==> normal_key_spec(
            s,
            NormalKey::Tab,
            ctrl,
            shift,
            row,
        ) == (disarmed(s), NormalEffect::Nothing),
{
    lemma_tab_key(s, ctrl, shift, row);
    let t1 = normal_key_spec(s, NormalKey::Tab, ctrl, shift, row).0;
    lemma_tab_key(t1, ctrl, shift, row);
    let t2 = normal_key_spec(t1, NormalKey::Tab, ctrl, shift, row).0;
    lemma_tab_key(t2, ctrl, shift, row);
}

/// A key normal mode has no binding for changes nothing but the armed `d`.
pub proof fn lemma_unbound_keys_do_nothing(s: NormalState, ctrl: bool, shift: bool, row: SelectedRow)
    ensures
        normal_key_spec(s, NormalKey::Other, ctrl, shift, row) == (disarmed(s), NormalEffect::Nothing),
        normal_key_spec(s, NormalKey::Char('y'), ctrl, shift, row) == (disarmed(s), NormalEffect::Nothing),
{
    reveal(view_keys_spec);
    reveal(row_keys_spec);
}

/// `,` and `.` seek five seconds back or forward from the playing position, never outside the
/// track.
pub proof fn lemma_seek_keys_stay_in_track(s: NormalState, forward: bool, ctrl: bool, shift: bool, row: SelectedRow)
    requires
        s.has_playing_track,
        s.duration_ms > 0,
    ensures
        ({
            let key = if forward { NormalKey::Char('.') } else { NormalKey::Char(',') };
            let t = seek_target(s, if forward { 5000 } else { -5000 });
            &&& normal_key_spec(s, key, ctrl, shift, row).1 == NormalEffect::SeekTo(t)
            &&& normal_key_spec(s, key, ctrl, shift, row).0.progress_ms == t
            &&& t <= s.duration_ms
            &&& forward && s.progress_ms + 5000 <= s.duration_ms ==> t == s.progress_ms + 5000
            &&& !forward && 5000 <= s.progress_ms <= s.duration_ms ==> t == s.progress_ms - 5000
        }),
{
    reveal(view_keys_spec);
    reveal(row_keys_spec);
}

/// `M` twice from an audible volume mutes and then restores that volume.
pub proof fn lemma_mute_twice_restores_volume(s: NormalState, ctrl: bool, shift: bool, row: SelectedRow)
    requires
        s.volume > 0,
    ensures
        ({
            let m = NormalKey::Char('M');
            let first = normal_key_spec(s, m, ctrl, shift, row);
            let second = normal_key_spec(first.0, m, ctrl, shift, row);
            &&& first.1 == NormalEffect::SetVolume(0)
            &&& first.0.volume == 0
            &&& first.0.previous_volume == Some(s.volume)
            &&& second.1 == NormalEffect::SetVolume(s.volume)
            &&& second.0.volume == s.volume
        }),
{
    reveal(view_keys_spec);
    reveal(row_keys_spec);
}

/// Tab cycles the library through Playlists, Albums and Browse: three presses come back to the
/// tab they started on, with the cursor on the first row.
pub proof fn lemma_three_tabs_return_to_the_tab(s: NormalState, ctrl: bool, shift: bool, row: SelectedRow)
    requires
        s.view == TuiView::Library,
        s.library_tab != LibraryTab::Artists,
    ensures
        ({
            let t1 = normal_key_spec(s, NormalKey::Tab, ctrl, shift, row).0;
            let t2 = normal_key_spec(t1, NormalKey::Tab, ctrl, shift, row).0;
            let t3 = normal_key_spec(t2, NormalKey::Tab, ctrl, shift, row).0;
            &&& t1.library_tab != s.library_tab
            &&& t3.library_tab == s.library_tab
            &&& t3.playlist_ix == 0
        }),
{
    reveal(view_keys_spec);
    reveal(row_keys_spec);
}

fn double_d(s: NormalState, prompt: NormalEffect) -> (r: (NormalState, NormalEffect))
    ensures
        r == double_d_spec(s, prompt),
{
    if s.pending_d {
        (NormalState { pending_d: false, ..s }, prompt)
    } else {
        (NormalState { pending_d: true, ..s }, NormalEffect::Nothing)
    }
}

fn open_selected(s: NormalState) -> (e: NormalEffect)
    ensures
        e == open_spec(s),
{
    match s.view {
        TuiView::Library => match s.library_tab {
            LibraryTab::Albums => NormalEffect::OpenAlbum(s.playlist_ix),
            LibraryTab::Browse => NormalEffect::EnterBrowseNode(s.browse_node),
            _ => NormalEffect::OpenLibraryEntry(s.playlist_ix),
        },
        TuiView::TrackList => NormalEffect::PlayTrack(s.track_ix),
        TuiView::Queue => NormalEffect::PlayQueueTrack(s.queue_ix),
        TuiView::SearchResults => NormalEffect::ActivateSearchResult(s.search_ix),
        TuiView::ArtistList => NormalEffect::OpenFollowedArtist(s.artist_ix),
        TuiView::ArtistPage => NormalEffect::OpenArtistAlbum(s.album_ix),
        TuiView::Devices => NormalEffect::Nothing,
    }
}

fn like_track(ix: usize, len: usize, row: SelectedRow) -> (e: NormalEffect)
    ensures
        e == like_row(ix, len, row),
{
    if ix < len {
        if row.liked {
            NormalEffect::StageUnlike(ix)
        } else {
            NormalEffect::Like(ix)
        }
    } else {
        NormalEffect::Nothing
    }
}

fn like_selected(s: NormalState, row: SelectedRow) -> (e: NormalEffect)
    ensures
        e == like_spec(s, row),
{
    match s.view {
        TuiView::Library => open_selected(s),
        TuiView::TrackList => like_track(s.track_ix, s.tracks_len, row),
        TuiView::Queue => like_track(s.queue_ix, s.queue_len, row),
        TuiView::SearchResults => if s.search_tab == SearchTab::Tracks {
            like_track(s.search_ix, s.search_tracks_len, row)
        } else {
            NormalEffect::Nothing
        },
        _ => NormalEffect::Nothing,
    }
}

fn library_delete(s: NormalState, is_d: bool, row: SelectedRow) -> (r: (NormalState, NormalEffect))
    ensures
        r == library_delete_spec(s, is_d, row),
{
    let ix = s.playlist_ix;
    if s.library_tab == LibraryTab::Albums {
        if is_d && ix < s.albums_len {
            double_d(s, NormalEffect::StageAlbumDelete(ix))
        } else {
            (s, NormalEffect::Nothing)
        }
    } else if ix < s.library_len {
        match row.entry {
            LibraryEntry::LocalPlaylist => if is_d {
                double_d(s, NormalEffect::StagePlaylistDelete(ix))
            } else {
                (s, NormalEffect::Nothing)
            },
            LibraryEntry::OwnedPlaylist => if is_d {
                double_d(s, NormalEffect::StagePlaylistDelete(ix))
            } else {
                (NormalState { register_filled: true, ..s }, NormalEffect::Cut(ix))
            },
            LibraryEntry::Playlist => if is_d {
                (s, NormalEffect::Nothing)
            } else {
                (NormalState { register_filled: true, ..s }, NormalEffect::Cut(ix))
            },
            LibraryEntry::Folder => if is_d {
                double_d(s, NormalEffect::StageFolderDelete(ix))
            } else {
                (s, NormalEffect::Nothing)
            },
            _ => (s, NormalEffect::Nothing),
        }
    } else {
        (s, NormalEffect::Nothing)
    }
}

fn action_menu(s: NormalState) -> (e: NormalEffect)
    ensures
        e == action_menu_spec(s),
{
    if s.view == TuiView::TrackList && s.track_ix < s.tracks_len {
        NormalEffect::OpenActionMenu(ActionTarget::Track(s.track_ix))
    } else if s.view == TuiView::Queue && s.queue_ix < s.queue_len {
        NormalEffect::OpenActionMenu(ActionTarget::QueueTrack(s.queue_ix))
    } else if s.view == TuiView::SearchResults && s.search_tab == SearchTab::Tracks && s.search_ix
        < s.search_tracks_len {
        NormalEffect::OpenActionMenu(ActionTarget::SearchTrack(s.search_ix))
    } else if s.has_playing_track {
        NormalEffect::OpenActionMenu(ActionTarget::NowPlaying)
    } else {
        NormalEffect::Nothing
    }
}

fn add_key(s: NormalState) -> (e: NormalEffect)
    ensures
        e == add_spec(s),
{
    if s.view == TuiView::SearchResults && s.search_tab == SearchTab::Albums {
        if s.search_ix < s.search_albums_len {
            NormalEffect::SaveAlbum(s.search_ix)
        } else {
            NormalEffect::Nothing
        }
    } else {
        NormalEffect::OpenPlaylistAdd
    }
}

fn back(s: NormalState) -> (r: (NormalState, NormalEffect))
    ensures
        r == back_spec(s),
{
    let reload = if s.header_image {
        NormalEffect::ReloadHeaderImage
    } else {
        NormalEffect::Nothing
    };
    let has_results = s.search_tracks_len > 0 || s.search_albums_len > 0 || s.search_artists_len > 0;
    if s.history_nonempty {
        (s, NormalEffect::PopHistory)
    } else {
        match s.view {
            TuiView::TrackList => (
                NormalState {
                    view: if has_results {
                        TuiView::SearchResults
                    } else {
                        TuiView::Library
                    },
                    ..s
                },
                NormalEffect::Nothing,
            ),
            TuiView::Queue | TuiView::ArtistList => (NormalState { view: TuiView::Library, ..s }, reload),
            TuiView::ArtistPage => if has_results {
                (NormalState { view: TuiView::SearchResults, ..s }, NormalEffect::CancelArtistPageLoad)
            } else {
                (s, NormalEffect::BackToArtistList)
            },
            TuiView::SearchResults => (
                NormalState {
                    view: TuiView::Library,
                    search_tracks_len: 0,
                    search_albums_len: 0,
                    search_artists_len: 0,
                    ..s
                },
                reload,
            ),
            _ => (s, NormalEffect::Nothing),
        }
    }
}

fn current(s: NormalState) -> (ix: usize)
    ensures
        ix == current_index(s),
{
    match s.view {
        TuiView::TrackList => s.track_ix,
        TuiView::SearchResults => s.search_ix,
        TuiView::Queue => s.queue_ix,
        TuiView::Library => s.playlist_ix,
        TuiView::Devices => s.device_ix,
        TuiView::ArtistList => s.artist_ix,
        TuiView::ArtistPage => s.album_ix,
    }
}

/// The position five seconds forward (or back), kept within the track.
fn five_seconds(s: NormalState, forward: bool) -> (t: u32)
    ensures
        t == seek_target(s, if forward { 5000 } else { -5000 }),
{
    let moved: u64 = if forward {
        s.progress_ms as u64 + 5000
    } else if s.progress_ms >= 5000 {
        (s.progress_ms - 5000) as u64
    } else {
        0
    };
    if moved > s.duration_ms as u64 {
        s.duration_ms
    } else {
        moved as u32
    }
}

fn seek(s: NormalState, target: u32) -> (r: (NormalState, NormalEffect))
    ensures
        r == seek_spec(s, target),
{
    if !s.has_playing_track || s.duration_ms == 0 {
        (s, NormalEffect::NothingSeekable)
    } else {
        (NormalState { progress_ms: target, ..s }, NormalEffect::SeekTo(target))
    }
}

fn mute(s: NormalState) -> (r: (NormalState, NormalEffect))
    ensures
        r == mute_spec(s),
{
    if s.volume > 0 {
        (NormalState { volume: 0, previous_volume: Some(s.volume), ..s }, NormalEffect::SetVolume(0))
    } else {
        match s.previous_volume {
            Some(v) => (NormalState { volume: v, previous_volume: None, ..s }, NormalEffect::SetVolume(v)),
            None => (s, NormalEffect::SetVolume(0)),
        }
    }
}

fn tab(s: NormalState) -> (r: NormalState)
    ensures
        r == tab_spec(s),
{
    match s.view {
        TuiView::Library => {
            let next = match s.library_tab {
                LibraryTab::Playlists => LibraryTab::Albums,
                LibraryTab::Albums => LibraryTab::Browse,
                _ => LibraryTab::Playlists,
            };
            NormalState {
                library_tab: next,
                playlist_ix: 0,
                browse_node: if next == LibraryTab::Browse {
                    BrowseNode::TopTracks
                } else {
                    s.browse_node
                },
                ..s
            }
        },
        TuiView::SearchResults => {
            let next = match s.search_tab {
                SearchTab::Tracks => SearchTab::Albums,
                SearchTab::Albums => SearchTab::Artists,
                SearchTab::Artists => SearchTab::Tracks,
            };
            NormalState { search_tab: next, search_ix: 0, ..s }
        },
        _ => s,
    }
}

/// What `key` does in normal mode: the new state and what the rest of the player must do.
/// `ctrl` and `shift` say which modifiers are held; `row` describes the row under the active
/// view's cursor (whether its track is liked, what kind of library row it is).
pub fn normal_key(s0: NormalState, key: NormalKey, ctrl: bool, shift: bool, row: SelectedRow) -> (r: (
    NormalState,
    NormalEffect,
))
    ensures
        r == normal_key_spec(s0, key, ctrl, shift, row),
{
    let s = if key == NormalKey::Char('d') { s0 } else { NormalState { pending_d: false, ..s0 } };
    view_keys(s, key, ctrl, shift, row)
}

fn view_keys(s: NormalState, key: NormalKey, ctrl: bool, shift: bool, row: SelectedRow) -> (r: (
    NormalState,
    NormalEffect,
))
    ensures
        r == view_keys_spec(s, key, ctrl, shift, row),
{
    proof {
        reveal(view_keys_spec);
    }
    if key == NormalKey::Char('j') || key == NormalKey::Down {
        (move_down(s), NormalEffect::Nothing)
    } else if key == NormalKey::Char('k') || key == NormalKey::Up {
        (move_up(s), NormalEffect::Nothing)
    } else if (key == NormalKey::Char('l') || key == NormalKey::Char('L')) && ctrl && !shift {
        (NormalState { needs_clear: true, ..s }, NormalEffect::Nothing)
    } else if key == NormalKey::Char('l') {
        (s, like_selected(s, row))
    } else if key == NormalKey::Char('L') {
        if ctrl {
            (s, NormalEffect::ToggleCondensedLyrics)
        } else {
            (NormalState { lyrics_open: !s.lyrics_open, ..s }, NormalEffect::Nothing)
        }
    } else if key == NormalKey::Enter || key == NormalKey::Char('z') {
        (s, open_selected(s))
    } else if key == NormalKey::Char(':') {
        (NormalState { mode: TuiMode::Command(CommandSeed::Empty), ..s }, NormalEffect::Nothing)
    } else if key == NormalKey::Char('/') {
        (NormalState { mode: TuiMode::Search, has_search_matches: false, ..s }, NormalEffect::Nothing)
    } else if key == NormalKey::Char('f') {
        (NormalState { mode: TuiMode::Command(CommandSeed::Search), ..s }, NormalEffect::Nothing)
    } else if key == NormalKey::Char('n') && s.has_search_matches {
        (s, NormalEffect::NextMatch(true))
    } else if key == NormalKey::Char('N') && s.has_search_matches {
        (s, NormalEffect::NextMatch(false))
    } else {
        row_keys(s, key, row)
    }
}

fn row_keys(s: NormalState, key: NormalKey, row: SelectedRow) -> (r: (NormalState, NormalEffect))
    ensures
        r == row_keys_spec(s, key, row),
{
    proof {
        reveal(row_keys_spec);
    }
    let ix = s.playlist_ix;
    let in_library = s.view == TuiView::Library;
    if (key == NormalKey::Char('d') || key == NormalKey::Char('x')) && in_library {
        library_delete(s, key == NormalKey::Char('d'), row)
    } else if key == NormalKey::Char('d') {
        (s, if s.view == TuiView::TrackList { NormalEffect::MarkForDelete(s.track_ix) } else { NormalEffect::Nothing })
    } else if key == NormalKey::Char('A') {
        (s, action_menu(s))
    } else if key == NormalKey::Char('a') {
        (s, add_key(s))
    } else if key == NormalKey::Char('p') && in_library && s.register_filled && ix < s.library_len {
        (
            NormalState { register_filled: false, ..s },
            if row.entry == LibraryEntry::Folder { NormalEffect::PasteIntoFolder(ix) } else { NormalEffect::Nothing },
        )
    } else if key == NormalKey::Char('m') && in_library {
        (s, NormalEffect::TogglePin(ix))
    } else if key == NormalKey::Char('h') || key == NormalKey::Esc || key == NormalKey::Backspace {
        back(s)
    } else if key == NormalKey::Char('q') {
        (s, NormalEffect::QueueSelected)
    } else if key == NormalKey::Char('Q') {
        (s, NormalEffect::OpenQueue)
    } else if key == NormalKey::Char('D') {
        (s, NormalEffect::OpenDevices)
    } else {
        playback_keys(s, key)
    }
}

fn playback_keys(s: NormalState, key: NormalKey) -> (r: (NormalState, NormalEffect))
    ensures
        r == playback_keys_spec(s, key),
{
    let ix = s.playlist_ix;
    let in_library = s.view == TuiView::Library;
    if key == NormalKey::Char(' ') {
        (NormalState { playing: !s.playing, ..s }, NormalEffect::TogglePlayback(!s.playing))
    } else if key == NormalKey::Char('c') && in_library {
        (NormalState { mode: TuiMode::Command(CommandSeed::NewPlaylist), ..s }, NormalEffect::Nothing)
    } else if key == NormalKey::Char('e') {
        if in_library && ix < s.library_len {
            (NormalState { mode: TuiMode::Command(CommandSeed::Rename(ix)), ..s }, NormalEffect::Nothing)
        } else {
            (s, NormalEffect::Nothing)
        }
    } else if key == NormalKey::Char('s') {
        (NormalState { shuffled: !s.shuffled, ..s }, NormalEffect::ToggleShuffle(!s.shuffled))
    } else if key == NormalKey::Char('v') {
        (NormalState { mode: TuiMode::Visual, visual_start: Some(current(s)), ..s }, NormalEffect::Nothing)
    } else if key == NormalKey::Char(',') {
        seek(s, five_seconds(s, false))
    } else if key == NormalKey::Char('.') {
        seek(s, five_seconds(s, true))
    } else if key == NormalKey::Char('0') {
        seek(s, 0)
    } else if key == NormalKey::Char('M') {
        mute(s)
    } else if key == NormalKey::Char('T') {
        (NormalState { thumbnails: !s.thumbnails, ..s }, NormalEffect::Nothing)
    } else if key == NormalKey::Char(']') || key == NormalKey::Char('>') {
        (NormalState { progress_ms: 0, duration_ms: 0, ..s }, NormalEffect::NextTrack)
    } else if key == NormalKey::Char('[') || key == NormalKey::Char('<') {
        (NormalState { progress_ms: 0, duration_ms: 0, ..s }, NormalEffect::PreviousTrack)
    } else if key == NormalKey::Char('R') {
        (s, NormalEffect::Refresh)
    } else if key == NormalKey::Char('r') {
        (s, NormalEffect::CycleRepeat)
    } else if key == NormalKey::Char('=') {
        (s, NormalEffect::AdjustVolume(1))
    } else if key == NormalKey::Char('-') {
        (s, NormalEffect::AdjustVolume(-1))
    } else if key == NormalKey::Char('+') {
        (s, NormalEffect::AdjustVolume(5))
    } else if key == NormalKey::Char('_') {
        (s, NormalEffect::AdjustVolume(-5))
    } else if key == NormalKey::Tab {
        (tab(s), NormalEffect::Nothing)
    } else {
        (s, NormalEffect::Nothing)
    }
}

/// Who answered a key in the terminal player's normal mode.
#[derive(Clone, Copy, Debug, PartialEq, Eq, Structural)]
pub enum KeyOutcome {
    /// A confirm prompt was up and took the key.
    Prompt(PromptStep),
    /// A modal was open and took the key.
    Modal(ModalStep),
    /// The views took the key.
    Normal(NormalState, NormalEffect),
}

/// `key` as the text-editing modes see it.
pub open spec fn as_mode_key(key: NormalKey) -> ModeKey {
    match key {
        NormalKey::Char(c) => ModeKey::Char(c),
        NormalKey::Enter => ModeKey::Enter,
        NormalKey::Esc => ModeKey::Esc,
        NormalKey::Backspace => ModeKey::Backspace,
        NormalKey::Tab => ModeKey::Tab,
        _ => ModeKey::Other,
    }
}

/// `key` as the modals see it.
pub open spec fn as_modal_key(key: NormalKey) -> ModalKey {
    match key {
        NormalKey::Char(c) => ModalKey::Char(c),
        NormalKey::Up => ModalKey::Up,
        NormalKey::Down => ModalKey::Down,
        NormalKey::Enter => ModalKey::Enter,
        NormalKey::Esc => ModalKey::Esc,
        _ => ModalKey::Other,
    }
}

fn to_mode_key(key: NormalKey) -> (k: ModeKey)
    ensures
        k == as_mode_key(key),
{
    match key {
        NormalKey::Char(c) => ModeKey::Char(c),
        NormalKey::Enter => ModeKey::Enter,
        NormalKey::Esc => ModeKey::Esc,
        NormalKey::Backspace => ModeKey::Backspace,
        NormalKey::Tab => ModeKey::Tab,
        _ => ModeKey::Other,
    }
}

fn to_modal_key(key: NormalKey) -> (k: ModalKey)
    ensures
        k == as_modal_key(key),
{
    match key {
        NormalKey::Char(c) => ModalKey::Char(c),
        NormalKey::Up => ModalKey::Up,
        NormalKey::Down => ModalKey::Down,
        NormalKey::Enter => ModalKey::Enter,
        NormalKey::Esc => ModalKey::Esc,
        _ => ModalKey::Other,
    }
}

/// A key in normal mode, from the top: a confirm prompt takes every key (`y` confirms, any other
/// key cancels); else the front-most modal takes it, `modal_index` being its cursor and
/// `modal_count` its rows; else the views answer as `normal_key` says.
pub fn handle_key(
    prompt_active: bool,
    modals: TuiModals,
    modal_index: usize,
    modal_count: usize,
    s: NormalState,
    key: NormalKey,
    ctrl: bool,
    shift: bool,
    row: SelectedRow,
) -> (out: KeyOutcome)
    ensures
        out == if prompt_active {
            KeyOutcome::Prompt(
                if as_mode_key(key) == ModeKey::Char('y') {
                    PromptStep::Confirm
                } else {
                    PromptStep::Cancel
                },
            )
        } else if front_modal(modals) is Some {
            KeyOutcome::Modal(modal_step_spec(modals, as_modal_key(key), modal_index, modal_count))
        } else {
            let (t, e) = normal_key_spec(s, key, ctrl, shift, row);
            KeyOutcome::Normal(t, e)
        },
{
    let prompt = prompt_key(prompt_active, to_mode_key(key));
    if prompt != PromptStep::NotActive {
        return KeyOutcome::Prompt(prompt);
    }
    let modal = modal_step(modals, to_modal_key(key), modal_index, modal_count);
    if modal != ModalStep::NotOpen {
        return KeyOutcome::Modal(modal);
    }
    let (t, e) = normal_key(s, key, ctrl, shift, row);
    KeyOutcome::Normal(t, e)
}

} // verus!
