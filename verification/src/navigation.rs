//! The cursor and Escape decisions of the player's views, stated over plain flags and
//! indices: which overlay or view Escape closes, which list's cursor a selection moves, how far
//! it may move, and how the terminal player's modal lists answer keys.

use vstd::prelude::*;

verus! {

/// The main area's views.
#[derive(Clone, Copy, Debug, PartialEq, Eq, Structural)]
pub enum ActiveView {
    Library,
    TrackList,
    ArtistList,
    ArtistPage,
    SearchResults,
    Queue,
    Devices,
    WhatsNew,
}

/// What is open over the views.
#[derive(Clone, Copy, Debug, PartialEq, Eq, Structural)]
pub struct Overlays {
    /// A confirm prompt for a destructive action.
    pub prompt: bool,
    /// Visual (range) selection mode.
    pub visual: bool,
    pub context_menu: bool,
    pub track_menu: bool,
    pub playlist_add: bool,
    pub devices: bool,
    pub themes: bool,
    pub sort_menu: bool,
    pub settings: bool,
    pub help: bool,
    pub lyrics: bool,
}

/// Whether an overlay covers the views (visual mode is not one).
pub open spec fn overlay_open_spec(o: Overlays) -> bool {
    o.prompt || o.context_menu || o.track_menu || o.playlist_add || o.devices || o.themes
        || o.sort_menu || o.settings || o.help || o.lyrics
}

/// Whether an overlay covers the views.
pub fn overlay_open(o: Overlays) -> (open: bool)
    ensures
        open == overlay_open_spec(o),
{
    o.prompt || o.context_menu || o.track_menu || o.playlist_add || o.devices || o.themes
        || o.sort_menu || o.settings || o.help || o.lyrics
}

/// What one press of Escape closes.
#[derive(Clone, Copy, Debug, PartialEq, Eq, Structural)]
pub enum DismissStep {
    CancelPrompt,
    ExitVisual,
    CloseContextMenu,
    CloseTrackMenu,
    CancelPlaylistAdd,
    CloseDevices,
    CloseThemes,
    CloseSortMenu,
    CloseSettings,
    CloseHelp,
    CloseLyrics,
    /// Nothing is open: step back through the view history.
    PopViewHistory,
}

/// Escape closes the innermost layer first: the prompt, then visual mode (the range is dropped
/// before the view history is walked), then the menus and modals in a fixed order.
pub open spec fn dismiss_spec(o: Overlays) -> DismissStep {
    if o.prompt {
        DismissStep::CancelPrompt
    } else if o.visual {
        DismissStep::ExitVisual
    } else if o.context_menu {
        DismissStep::CloseContextMenu
    } else if o.track_menu {
        DismissStep::CloseTrackMenu
    } else if o.playlist_add {
        DismissStep::CancelPlaylistAdd
    } else if o.devices {
        DismissStep::CloseDevices
    } else if o.themes {
        DismissStep::CloseThemes
    } else if o.sort_menu {
        DismissStep::CloseSortMenu
    } else if o.settings {
        DismissStep::CloseSettings
    } else if o.help {
        DismissStep::CloseHelp
    } else if o.lyrics {
        DismissStep::CloseLyrics
    } else {
        DismissStep::PopViewHistory
    }
}

/// What Escape closes given what is open.
pub fn dismiss_step(o: Overlays) -> (step: DismissStep)
    ensures
        step == dismiss_spec(o),
{
    if o.prompt {
        DismissStep::CancelPrompt
    } else if o.visual {
        DismissStep::ExitVisual
    } else if o.context_menu {
        DismissStep::CloseContextMenu
    } else if o.track_menu {
        DismissStep::CloseTrackMenu
    } else if o.playlist_add {
        DismissStep::CancelPlaylistAdd
    } else if o.devices {
        DismissStep::CloseDevices
    } else if o.themes {
        DismissStep::CloseThemes
    } else if o.sort_menu {
        DismissStep::CloseSortMenu
    } else if o.settings {
        DismissStep::CloseSettings
    } else if o.help {
        DismissStep::CloseHelp
    } else if o.lyrics {
        DismissStep::CloseLyrics
    } else {
        DismissStep::PopViewHistory
    }
}

/// Escape leaves the views alone while anything is open over them or visual mode is on, and
/// walks the view history once nothing is.
pub proof fn lemma_dismiss_closes_overlays_before_views(o: Overlays)
    ensures
        (overlay_open_spec(o) || o.visual) <==> dismiss_spec(o) != DismissStep::PopViewHistory,
{
}

/// What Escape does to the view when nothing is open and the view history is empty.
#[derive(Clone, Copy, Debug, PartialEq, Eq, Structural)]
pub enum ViewDismissal {
    /// Leave a track list for the search results it was opened from.
    BackToSearchResults,
    /// Leave a track list for the library.
    BackToLibrary,
    /// Leave an artist page for the search results, cancelling its pending load.
    LeaveArtistPageForResults,
    /// Close the artist page.
    CloseArtistPage,
    /// Leave search results for the library, dropping the results.
    DropSearchResults,
    /// Leave the queue for the library.
    LeaveQueue,
    /// Nothing to leave.
    Stay,
}

/// Where Escape takes the view once the history is exhausted.
pub open spec fn dismiss_view_spec(view: ActiveView, search_has_results: bool) -> ViewDismissal {
    match view {
        ActiveView::TrackList => if search_has_results {
            ViewDismissal::BackToSearchResults
        } else {
            ViewDismissal::BackToLibrary
        },
        ActiveView::ArtistPage => if search_has_results {
            ViewDismissal::LeaveArtistPageForResults
        } else {
            ViewDismissal::CloseArtistPage
        },
        ActiveView::SearchResults => ViewDismissal::DropSearchResults,
        ActiveView::Queue => ViewDismissal::LeaveQueue,
        _ => ViewDismissal::Stay,
    }
}

/// Where Escape takes the view once the history is exhausted.
pub fn dismiss_view(view: ActiveView, search_has_results: bool) -> (step: ViewDismissal)
    ensures
        step == dismiss_view_spec(view, search_has_results),
{
    match view {
        ActiveView::TrackList => if search_has_results {
            ViewDismissal::BackToSearchResults
        } else {
            ViewDismissal::BackToLibrary
        },
        ActiveView::ArtistPage => if search_has_results {
            ViewDismissal::LeaveArtistPageForResults
        } else {
            ViewDismissal::CloseArtistPage
        },
        ActiveView::SearchResults => ViewDismissal::DropSearchResults,
        ActiveView::Queue => ViewDismissal::LeaveQueue,
        _ => ViewDismissal::Stay,
    }
}

/// The list cursors a selection can move.
#[derive(Clone, Copy, Debug, PartialEq, Eq, Structural)]
pub enum Cursor {
    PlaylistModal,
    DeviceModal,
    ThemeModal,
    TrackMenu,
    SortMenu,
    Tracks,
    Queue,
    Search,
    Artists,
    WhatsNew,
    ArtistPage,
    Library,
}

/// The cursor that belongs to the front-most list: a modal or menu when one is open, else the
/// active view's.
pub open spec fn cursor_spec(o: Overlays, view: ActiveView) -> Cursor {
    if o.playlist_add {
        Cursor::PlaylistModal
    } else if o.devices {
        Cursor::DeviceModal
    } else if o.themes {
        Cursor::ThemeModal
    } else if o.track_menu {
        Cursor::TrackMenu
    } else if o.sort_menu {
        Cursor::SortMenu
    } else {
        match view {
            ActiveView::TrackList => Cursor::Tracks,
            ActiveView::Queue => Cursor::Queue,
            ActiveView::SearchResults => Cursor::Search,
            ActiveView::ArtistList => Cursor::Artists,
            ActiveView::WhatsNew => Cursor::WhatsNew,
            ActiveView::ArtistPage => Cursor::ArtistPage,
            _ => Cursor::Library,
        }
    }
}

/// The cursor a selection reads and moves.
pub fn cursor_for(o: Overlays, view: ActiveView) -> (cursor: Cursor)
    ensures
        cursor == cursor_spec(o, view),
{
    if o.playlist_add {
        Cursor::PlaylistModal
    } else if o.devices {
        Cursor::DeviceModal
    } else if o.themes {
        Cursor::ThemeModal
    } else if o.track_menu {
        Cursor::TrackMenu
    } else if o.sort_menu {
        Cursor::SortMenu
    } else {
        match view {
            ActiveView::TrackList => Cursor::Tracks,
            ActiveView::Queue => Cursor::Queue,
            ActiveView::SearchResults => Cursor::Search,
            ActiveView::ArtistList => Cursor::Artists,
            ActiveView::WhatsNew => Cursor::WhatsNew,
            ActiveView::ArtistPage => Cursor::ArtistPage,
            _ => Cursor::Library,
        }
    }
}

/// The cursor a new selection goes to, or `None` while a confirm prompt is up: the prompt is
/// modal, and moving the list behind it would leave it describing a row no longer selected.
pub fn selection_target(o: Overlays, view: ActiveView) -> (target: Option<Cursor>)
    ensures
        target == if o.prompt {
            None
        } else {
            Some(cursor_spec(o, view))
        },
{
    if o.prompt {
        None
    } else {
        Some(cursor_for(o, view))
    }
}

/// `current` moved by `delta`, saturating at both ends of the `usize` range.
pub open spec fn saturating_move(current: usize, delta: isize) -> int {
    let target = current + delta;
    if target < 0 {
        0
    } else if target > usize::MAX {
        usize::MAX as int
    } else {
        target
    }
}

/// The cursor `current` moved by `delta` rows and kept inside a list of `len` rows.
pub open spec fn moved_selection_spec(current: usize, delta: isize, len: usize) -> Option<usize> {
    if len == 0 {
        None
    } else {
        Some(
            (if saturating_move(current, delta) < len - 1 {
                saturating_move(current, delta)
            } else {
                len - 1
            }) as usize,
        )
    }
}

/// The cursor `current` moved by `delta` rows and kept inside a list of `len` rows, or `None`
/// for an empty list, which has nothing to select.
pub fn moved_selection(current: usize, delta: isize, len: usize) -> (moved: Option<usize>)
    ensures
        moved == moved_selection_spec(current, delta, len),
{
    if len == 0 {
        return None;
    }
    let target: usize = if delta >= 0 {
        current.saturating_add(delta as usize)
    } else {
        let back: usize = (-(delta + 1)) as usize + 1;
        current.saturating_sub(back)
    };
    Some(if target < len - 1 { target } else { len - 1 })
}

/// A row of the artist page's combined list: Popular tracks first, then the albums.
#[derive(Clone, Copy, Debug, PartialEq, Eq, Structural)]
pub enum ArtistPageRow {
    TopTrack(usize),
    Album(usize),
}

/// The row of the artist page's combined list `index` stands for.
pub open spec fn artist_page_row_spec(index: usize, top_len: usize) -> ArtistPageRow {
    if index < top_len {
        ArtistPageRow::TopTrack(index)
    } else {
        ArtistPageRow::Album((index - top_len) as usize)
    }
}

/// Which of the artist page's two lists owns combined row `index`, and its row there.
pub fn artist_page_row(index: usize, top_len: usize) -> (row: ArtistPageRow)
    ensures
        row == artist_page_row_spec(index, top_len),
{
    if index < top_len {
        ArtistPageRow::TopTrack(index)
    } else {
        ArtistPageRow::Album(index - top_len)
    }
}

/// The terminal player's modals, open or not.
#[derive(Clone, Copy, Debug, PartialEq, Eq, Structural)]
pub struct TuiModals {
    pub playlist_add: bool,
    pub devices: bool,
    pub lyrics: bool,
    pub action_menu: bool,
}

/// One of the terminal player's modals.
#[derive(Clone, Copy, Debug, PartialEq, Eq, Structural)]
pub enum Modal {
    PlaylistAdd,
    Devices,
    Lyrics,
    ActionMenu,
}

/// The keys the modals tell apart.
#[derive(Clone, Copy, Debug, PartialEq, Eq, Structural)]
pub enum ModalKey {
    Esc,
    Char(char),
    Up,
    Down,
    Enter,
    Other,
}

/// What a key does to the front-most modal.
#[derive(Clone, Copy, Debug, PartialEq, Eq, Structural)]
pub enum ModalStep {
    /// No modal is open: the key goes on to the views.
    NotOpen,
    /// The key is swallowed and changes nothing.
    Nothing(Modal),
    Close(Modal),
    /// Move the modal's cursor to this row.
    Select(Modal, usize),
    /// Act on this row (pick the playlist or device, run the action).
    Commit(Modal, usize),
}

/// The front-most open modal: the playlist picker, then devices, lyrics, the action menu.
pub open spec fn front_modal(m: TuiModals) -> Option<Modal> {
    if m.playlist_add {
        Some(Modal::PlaylistAdd)
    } else if m.devices {
        Some(Modal::Devices)
    } else if m.lyrics {
        Some(Modal::Lyrics)
    } else if m.action_menu {
        Some(Modal::ActionMenu)
    } else {
        None
    }
}

/// How a list modal answers `key` with its cursor on `index` of `count` rows: `Esc` or `q`
/// closes it, `j`/Down and `k`/Up move within the rows, Enter acts on the cursor's row.
pub open spec fn list_modal_step(modal: Modal, key: ModalKey, index: usize, count: usize) -> ModalStep {
    match key {
        ModalKey::Esc => ModalStep::Close(modal),
        ModalKey::Char(c) if c == 'q' => ModalStep::Close(modal),
        ModalKey::Down => if index + 1 < count {
            ModalStep::Select(modal, (index + 1) as usize)
        } else {
            ModalStep::Nothing(modal)
        },
        ModalKey::Char(c) if c == 'j' => if index + 1 < count {
            ModalStep::Select(modal, (index + 1) as usize)
        } else {
            ModalStep::Nothing(modal)
        },
        ModalKey::Up => if index > 0 {
            ModalStep::Select(modal, (index - 1) as usize)
        } else {
            ModalStep::Nothing(modal)
        },
        ModalKey::Char(c) if c == 'k' => if index > 0 {
            ModalStep::Select(modal, (index - 1) as usize)
        } else {
            ModalStep::Nothing(modal)
        },
        ModalKey::Enter => ModalStep::Commit(modal, index),
        _ => ModalStep::Nothing(modal),
    }
}

/// How the lyrics modal answers `key`: `Esc`, `q` or `L` closes it; nothing else does anything.
pub open spec fn lyrics_modal_step(key: ModalKey) -> ModalStep {
    match key {
        ModalKey::Esc => ModalStep::Close(Modal::Lyrics),
        ModalKey::Char(c) if c == 'q' || c == 'L' => ModalStep::Close(Modal::Lyrics),
        _ => ModalStep::Nothing(Modal::Lyrics),
    }
}

fn list_step(modal: Modal, key: ModalKey, index: usize, count: usize) -> (step: ModalStep)
    ensures
        step == list_modal_step(modal, key, index, count),
{
    let down = count > 0 && index < count - 1;
    match key {
        ModalKey::Esc => ModalStep::Close(modal),
        ModalKey::Char(c) if c == 'q' => ModalStep::Close(modal),
        ModalKey::Down => if down {
            ModalStep::Select(modal, index + 1)
        } else {
            ModalStep::Nothing(modal)
        },
        ModalKey::Char(c) if c == 'j' => if down {
            ModalStep::Select(modal, index + 1)
        } else {
            ModalStep::Nothing(modal)
        },
        ModalKey::Up => if index > 0 {
            ModalStep::Select(modal, index - 1)
        } else {
            ModalStep::Nothing(modal)
        },
        ModalKey::Char(c) if c == 'k' => if index > 0 {
            ModalStep::Select(modal, index - 1)
        } else {
            ModalStep::Nothing(modal)
        },
        ModalKey::Enter => ModalStep::Commit(modal, index),
        _ => ModalStep::Nothing(modal),
    }
}

/// What `key` does to the front-most modal, if one is open.
pub open spec fn modal_step_spec(m: TuiModals, key: ModalKey, index: usize, count: usize) -> ModalStep {
    match front_modal(m) {
        None => ModalStep::NotOpen,
        Some(Modal::Lyrics) => lyrics_modal_step(key),
        Some(modal) => list_modal_step(modal, key, index, count),
    }
}

/// What `key` does to the front-most of the terminal player's modals. `index` is that modal's
/// cursor and `count` its number of rows (playlist choices, devices or actions).
pub fn modal_step(m: TuiModals, key: ModalKey, index: usize, count: usize) -> (step: ModalStep)
    ensures
        step == modal_step_spec(m, key, index, count),
{
    if m.playlist_add {
        list_step(Modal::PlaylistAdd, key, index, count)
    } else if m.devices {
        list_step(Modal::Devices, key, index, count)
    } else if m.lyrics {
        match key {
            ModalKey::Esc => ModalStep::Close(Modal::Lyrics),
            ModalKey::Char(c) if c == 'q' || c == 'L' => ModalStep::Close(Modal::Lyrics),
            _ => ModalStep::Nothing(Modal::Lyrics),
        }
    } else if m.action_menu {
        list_step(Modal::ActionMenu, key, index, count)
    } else {
        ModalStep::NotOpen
    }
}

/// A modal's cursor never leaves its rows: a move lands on a row of the list whenever the
/// cursor started on one.
pub proof fn lemma_modal_cursor_stays_in_list(m: TuiModals, key: ModalKey, index: usize, count: usize)
    requires
        index < count,
    ensures
        match front_modal(m) {
            Some(modal) if modal != Modal::Lyrics => match list_modal_step(modal, key, index, count) {
                ModalStep::Select(_, row) => row < count,
                ModalStep::Commit(_, row) => row < count,
                _ => true,
            },
            _ => true,
        },
{
}

/// The row each of the desktop app's lists has selected.
#[derive(Clone, Copy, Debug, PartialEq, Eq, Structural)]
pub struct Cursors {
    pub playlist_modal: usize,
    pub device_modal: usize,
    pub theme_modal: usize,
    pub track_menu: usize,
    pub sort_menu: usize,
    pub tracks: usize,
    pub queue: usize,
    pub search: usize,
    pub artists: usize,
    pub whats_new: usize,
    pub artist_page: usize,
    pub library: usize,
}

/// The desktop app's state that selecting a row and pressing Escape change.
#[derive(Clone, Copy, Debug, PartialEq, Eq, Structural)]
pub struct DesktopUi {
    pub overlays: Overlays,
    pub view: ActiveView,
    pub cursors: Cursors,
    /// The first `d` of a double press was seen on the selected row.
    pub pending_d: bool,
    /// A count typed before a motion (`5j`).
    pub pending_count: Option<usize>,
}

/// The row cursor `which` has selected.
pub open spec fn cursor_value(c: Cursors, which: Cursor) -> usize {
    match which {
        Cursor::PlaylistModal => c.playlist_modal,
        Cursor::DeviceModal => c.device_modal,
        Cursor::ThemeModal => c.theme_modal,
        Cursor::TrackMenu => c.track_menu,
        Cursor::SortMenu => c.sort_menu,
        Cursor::Tracks => c.tracks,
        Cursor::Queue => c.queue,
        Cursor::Search => c.search,
        Cursor::Artists => c.artists,
        Cursor::WhatsNew => c.whats_new,
        Cursor::ArtistPage => c.artist_page,
        Cursor::Library => c.library,
    }
}

/// The cursors with `which` moved to `index` and every other one left where it was.
pub open spec fn with_cursor(c: Cursors, which: Cursor, index: usize) -> Cursors {
    match which {
        Cursor::PlaylistModal => Cursors { playlist_modal: index, ..c },
        Cursor::DeviceModal => Cursors { device_modal: index, ..c },
        Cursor::ThemeModal => Cursors { theme_modal: index, ..c },
        Cursor::TrackMenu => Cursors { track_menu: index, ..c },
        Cursor::SortMenu => Cursors { sort_menu: index, ..c },
        Cursor::Tracks => Cursors { tracks: index, ..c },
        Cursor::Queue => Cursors { queue: index, ..c },
        Cursor::Search => Cursors { search: index, ..c },
        Cursor::Artists => Cursors { artists: index, ..c },
        Cursor::WhatsNew => Cursors { whats_new: index, ..c },
        Cursor::ArtistPage => Cursors { artist_page: index, ..c },
        Cursor::Library => Cursors { library: index, ..c },
    }
}

/// Selects row `index` of the front-most list. Under a confirm prompt nothing changes; otherwise
/// the row is written to that list's cursor and an armed `d` is disarmed, since it belonged to
/// the row it was pressed on.
pub fn set_selection(ui: &mut DesktopUi, index: usize)
    ensures
        old(ui).overlays.prompt ==> *final(ui) == *old(ui),
        !old(ui).overlays.prompt ==> *final(ui) == (DesktopUi {
            pending_d: false,
            cursors: with_cursor(old(ui).cursors, cursor_spec(old(ui).overlays, old(ui).view), index),
            ..*old(ui)
        }),
{
    if ui.overlays.prompt {
        return;
    }
    ui.pending_d = false;
    let c = ui.cursors;
    ui.cursors = match cursor_for(ui.overlays, ui.view) {
        Cursor::PlaylistModal => Cursors { playlist_modal: index, ..c },
        Cursor::DeviceModal => Cursors { device_modal: index, ..c },
        Cursor::ThemeModal => Cursors { theme_modal: index, ..c },
        Cursor::TrackMenu => Cursors { track_menu: index, ..c },
        Cursor::SortMenu => Cursors { sort_menu: index, ..c },
        Cursor::Tracks => Cursors { tracks: index, ..c },
        Cursor::Queue => Cursors { queue: index, ..c },
        Cursor::Search => Cursors { search: index, ..c },
        Cursor::Artists => Cursors { artists: index, ..c },
        Cursor::WhatsNew => Cursors { whats_new: index, ..c },
        Cursor::ArtistPage => Cursors { artist_page: index, ..c },
        Cursor::Library => Cursors { library: index, ..c },
    };
}

/// A selection lands on the front-most list's cursor and on no other.
pub proof fn lemma_selection_moves_one_cursor(c: Cursors, which: Cursor, other: Cursor, index: usize)
    requires
        other != which,
    ensures
        cursor_value(with_cursor(c, which, index), which) == index,
        cursor_value(with_cursor(c, which, index), other) == cursor_value(c, other),
{
}

/// The overlays with the layer that `step` closes closed.
pub open spec fn close_layer(o: Overlays, step: DismissStep) -> Overlays {
    match step {
        DismissStep::CancelPrompt => Overlays { prompt: false, ..o },
        DismissStep::ExitVisual => Overlays { visual: false, ..o },
        DismissStep::CloseContextMenu => Overlays { context_menu: false, ..o },
        DismissStep::CloseTrackMenu => Overlays { track_menu: false, ..o },
        DismissStep::CancelPlaylistAdd => Overlays { playlist_add: false, ..o },
        DismissStep::CloseDevices => Overlays { devices: false, ..o },
        DismissStep::CloseThemes => Overlays { themes: false, ..o },
        DismissStep::CloseSortMenu => Overlays { sort_menu: false, ..o },
        DismissStep::CloseSettings => Overlays { settings: false, ..o },
        DismissStep::CloseHelp => Overlays { help: false, ..o },
        DismissStep::CloseLyrics => Overlays { lyrics: false, ..o },
        DismissStep::PopViewHistory => o,
    }
}

/// How many layers are open, visual mode counted.
pub open spec fn open_layers(o: Overlays) -> int {
    (if o.prompt { 1int } else { 0 }) + (if o.visual { 1int } else { 0 }) + (if o.context_menu { 1int } else { 0 })
        + (if o.track_menu { 1int } else { 0 }) + (if o.playlist_add { 1int } else { 0 }) + (if o.devices { 1int } else { 0 })
        + (if o.themes { 1int } else { 0 }) + (if o.sort_menu { 1int } else { 0 }) + (if o.settings { 1int } else { 0 })
        + (if o.help { 1int } else { 0 }) + (if o.lyrics { 1int } else { 0 })
}

/// The view Escape leaves for once nothing is open and the history is empty. Closing an artist
/// page without search results is left to the page itself.
pub open spec fn view_after_dismissal(view: ActiveView, search_has_results: bool) -> ActiveView {
    match view {
        ActiveView::TrackList => if search_has_results {
            ActiveView::SearchResults
        } else {
            ActiveView::Library
        },
        ActiveView::ArtistPage => if search_has_results {
            ActiveView::SearchResults
        } else {
            ActiveView::ArtistPage
        },
        ActiveView::SearchResults | ActiveView::Queue => ActiveView::Library,
        _ => view,
    }
}

/// What one Escape did.
#[derive(Clone, Copy, Debug, PartialEq, Eq, Structural)]
pub enum Dismissal {
    /// A layer over the views was closed.
    Closed(DismissStep),
    /// The view history was walked back one view.
    PopHistory,
    /// The view was left as `dismiss_view` says.
    View(ViewDismissal),
}

/// Escape: forgets a typed count and an armed `d`, then closes exactly one layer, the innermost
/// open one. With nothing open it walks the view history back, or, with the history empty,
/// leaves the view toward the library.
pub fn dismiss(ui: &mut DesktopUi, history_nonempty: bool, search_has_results: bool) -> (out: Dismissal)
    ensures
        final(ui).pending_count is None,
        !final(ui).pending_d,
        final(ui).cursors == old(ui).cursors,
        final(ui).overlays == close_layer(old(ui).overlays, dismiss_spec(old(ui).overlays)),
        dismiss_spec(old(ui).overlays) != DismissStep::PopViewHistory ==> out == Dismissal::Closed(
            dismiss_spec(old(ui).overlays),
        ) && final(ui).view == old(ui).view,
        dismiss_spec(old(ui).overlays) == DismissStep::PopViewHistory && history_nonempty ==> out
            == Dismissal::PopHistory && final(ui).view == old(ui).view,
        dismiss_spec(old(ui).overlays) == DismissStep::PopViewHistory && !history_nonempty ==> out
            == Dismissal::View(dismiss_view_spec(old(ui).view, search_has_results)) && final(ui).view
            == view_after_dismissal(old(ui).view, search_has_results),
{
    ui.pending_count = None;
    ui.pending_d = false;
    let step = dismiss_step(ui.overlays);
    let o = ui.overlays;
    ui.overlays = match step {
        DismissStep::CancelPrompt => Overlays { prompt: false, ..o },
        DismissStep::ExitVisual => Overlays { visual: false, ..o },
        DismissStep::CloseContextMenu => Overlays { context_menu: false, ..o },
        DismissStep::CloseTrackMenu => Overlays { track_menu: false, ..o },
        DismissStep::CancelPlaylistAdd => Overlays { playlist_add: false, ..o },
        DismissStep::CloseDevices => Overlays { devices: false, ..o },
        DismissStep::CloseThemes => Overlays { themes: false, ..o },
        DismissStep::CloseSortMenu => Overlays { sort_menu: false, ..o },
        DismissStep::CloseSettings => Overlays { settings: false, ..o },
        DismissStep::CloseHelp => Overlays { help: false, ..o },
        DismissStep::CloseLyrics => Overlays { lyrics: false, ..o },
        DismissStep::PopViewHistory => o,
    };
    if step != DismissStep::PopViewHistory {
        return Dismissal::Closed(step);
    }
    if history_nonempty {
        return Dismissal::PopHistory;
    }
    let leave = dismiss_view(ui.view, search_has_results);
    ui.view = match ui.view {
        ActiveView::TrackList => if search_has_results {
            ActiveView::SearchResults
        } else {
            ActiveView::Library
        },
        ActiveView::ArtistPage => if search_has_results {
            ActiveView::SearchResults
        } else {
            ActiveView::ArtistPage
        },
        ActiveView::SearchResults | ActiveView::Queue => ActiveView::Library,
        v => v,
    };
    Dismissal::View(leave)
}

/// Escape closes exactly one layer while any is open, and none once nothing is.
pub proof fn lemma_dismiss_closes_exactly_one_layer(o: Overlays)
    ensures
        dismiss_spec(o) != DismissStep::PopViewHistory ==> open_layers(close_layer(o, dismiss_spec(o)))
            == open_layers(o) - 1,
        dismiss_spec(o) == DismissStep::PopViewHistory ==> open_layers(o) == 0,
{
}

/// No list overlay (modal or menu with rows of its own) is open.
pub open spec fn no_list_overlay(o: Overlays) -> bool {
    !o.playlist_add && !o.devices && !o.themes && !o.track_menu && !o.sort_menu
}

/// Each view selects rows through a cursor of its own: with no modal or menu open, two views
/// share a cursor only when both are the library or the device list (which reuses the
/// library's). The track list, queue, search results, artist list, What's New and artist page
/// each move their namesake cursor. An open modal or menu takes the selection whatever the view.
pub proof fn lemma_views_keep_their_own_cursors(o: Overlays, v1: ActiveView, v2: ActiveView)
    ensures
        no_list_overlay(o) && v1 != v2 && !((v1 == ActiveView::Library || v1 == ActiveView::Devices) && (v2
            == ActiveView::Library || v2 == ActiveView::Devices)) ==> cursor_spec(o, v1) != cursor_spec(o, v2),
        no_list_overlay(o) ==> {
            &&& cursor_spec(o, ActiveView::TrackList) == Cursor::Tracks
            &&& cursor_spec(o, ActiveView::Queue) == Cursor::Queue
            &&& cursor_spec(o, ActiveView::SearchResults) == Cursor::Search
            &&& cursor_spec(o, ActiveView::ArtistList) == Cursor::Artists
            &&& cursor_spec(o, ActiveView::WhatsNew) == Cursor::WhatsNew
            &&& cursor_spec(o, ActiveView::ArtistPage) == Cursor::ArtistPage
            &&& cursor_spec(o, ActiveView::Library) == Cursor::Library
        },
        !no_list_overlay(o) ==> cursor_spec(o, v1) == cursor_spec(o, v2),
        !no_list_overlay(o) ==> match cursor_spec(o, v1) {
            Cursor::PlaylistModal | Cursor::DeviceModal | Cursor::ThemeModal | Cursor::TrackMenu
            | Cursor::SortMenu => true,
            _ => false,
        },
{
}

/// Esc and `q` close whichever modal is in front; `L` also closes the lyrics modal and nothing
/// else does. The lyrics modal has no rows, so no key selects or acts on one there; in a list
/// modal Enter acts on the cursor's row and the cursor keys move it by one row within the list.
pub proof fn lemma_modal_keys(m: TuiModals, key: ModalKey, index: usize, count: usize)
    requires
        front_modal(m) is Some,
    ensures
        ({
            let modal = front_modal(m)->0;
            let step = modal_step_spec(m, key, index, count);
            &&& (key == ModalKey::Esc || key == ModalKey::Char('q')) ==> step == ModalStep::Close(modal)
            &&& modal == Modal::Lyrics ==> ((step is Close) <==> (key == ModalKey::Esc || key == ModalKey::Char(
                'q',
            ) || key == ModalKey::Char('L')))
            &&& modal == Modal::Lyrics ==> !(step is Select) && !(step is Commit)
            &&& modal != Modal::Lyrics ==> ((step is Close) <==> (key == ModalKey::Esc || key == ModalKey::Char(
                'q',
            )))
            &&& modal != Modal::Lyrics && key == ModalKey::Enter ==> step == ModalStep::Commit(modal, index)
            &&& modal != Modal::Lyrics && (key == ModalKey::Down || key == ModalKey::Char('j')) && index + 1 < count
                ==> step == ModalStep::Select(modal, (index + 1) as usize)
            &&& modal != Modal::Lyrics && (key == ModalKey::Up || key == ModalKey::Char('k')) && index > 0 ==> step
                == ModalStep::Select(modal, (index - 1) as usize)
            &&& step != ModalStep::NotOpen
        }),
{
}

/// Where Escape leaves the view agrees with what it reports: returning to the search results
/// lands on them, leaving a track list without results, the search results or the queue lands
/// on the library, and staying (or handing an artist page over to its own close) keeps the
/// view. The library, artist list, device list and What's New are the views Escape stays on,
/// and it never lands anywhere but the library or the search results.
pub proof fn lemma_view_after_dismissal_agrees(view: ActiveView, search_has_results: bool)
    ensures
        ({
            let d = dismiss_view_spec(view, search_has_results);
            let v = view_after_dismissal(view, search_has_results);
            &&& (d == ViewDismissal::BackToSearchResults || d == ViewDismissal::LeaveArtistPageForResults) ==> v
                == ActiveView::SearchResults
            &&& (d == ViewDismissal::BackToLibrary || d == ViewDismissal::DropSearchResults || d
                == ViewDismissal::LeaveQueue) ==> v == ActiveView::Library
            &&& (d == ViewDismissal::Stay || d == ViewDismissal::CloseArtistPage) ==> v == view
            &&& (d == ViewDismissal::Stay) <==> (view == ActiveView::Library || view == ActiveView::ArtistList
                || view == ActiveView::Devices || view == ActiveView::WhatsNew)
            &&& v != view ==> v == ActiveView::Library || v == ActiveView::SearchResults
            &&& view == ActiveView::TrackList ==> (v == ActiveView::SearchResults <==> search_has_results)
            &&& view == ActiveView::Queue || view == ActiveView::SearchResults ==> v == ActiveView::Library
        }),
{
}

/// The position of a step in the order Escape closes layers in.
pub open spec fn dismiss_rank(step: DismissStep) -> int {
    match step {
        DismissStep::CancelPrompt => 0,
        DismissStep::ExitVisual => 1,
        DismissStep::CloseContextMenu => 2,
        DismissStep::CloseTrackMenu => 3,
        DismissStep::CancelPlaylistAdd => 4,
        DismissStep::CloseDevices => 5,
        DismissStep::CloseThemes => 6,
        DismissStep::CloseSortMenu => 7,
        DismissStep::CloseSettings => 8,
        DismissStep::CloseHelp => 9,
        DismissStep::CloseLyrics => 10,
        DismissStep::PopViewHistory => 11,
    }
}

/// Repeated Escapes close the open layers one by one in a fixed order (the prompt, visual mode,
/// the context menu, the track menu, the playlist picker, devices, themes, the sort menu,
/// settings, help, lyrics) and only then walk the history: the layer closed is open, and the
/// next Escape closes a layer later in the order. A prompt is always closed first.
pub proof fn lemma_escape_closes_layers_in_order(o: Overlays)
    ensures
        dismiss_spec(o) != DismissStep::PopViewHistory ==> dismiss_rank(
            dismiss_spec(close_layer(o, dismiss_spec(o))),
        ) > dismiss_rank(dismiss_spec(o)),
        o.prompt ==> dismiss_spec(o) == DismissStep::CancelPrompt,
        !o.prompt && o.visual ==> dismiss_spec(o) == DismissStep::ExitVisual,
        o.lyrics ==> dismiss_spec(o) != DismissStep::PopViewHistory,
        dismiss_spec(o) == DismissStep::CloseLyrics ==> open_layers(o) == 1 && o.lyrics,
{
}

/// The front-most modal is an open one, the playlist picker beats every other, devices beat
/// lyrics and the action menu, lyrics beat the action menu, and with none open no modal is in
/// front.
pub proof fn lemma_front_modal_order(m: TuiModals)
    ensures
        front_modal(m) == Some(Modal::PlaylistAdd) <==> m.playlist_add,
        front_modal(m) == Some(Modal::Devices) <==> (m.devices && !m.playlist_add),
        front_modal(m) == Some(Modal::Lyrics) <==> (m.lyrics && !m.playlist_add && !m.devices),
        front_modal(m) == Some(Modal::ActionMenu) <==> (m.action_menu && !m.playlist_add && !m.devices
            && !m.lyrics),
        front_modal(m) is None <==> !(m.playlist_add || m.devices || m.lyrics || m.action_menu),
{
}

/// A moved cursor lands inside a non-empty list, exactly `delta` rows away when that row
/// exists, and on the nearer end of the list otherwise; an empty list has no cursor.
pub proof fn lemma_moved_selection_in_list(current: usize, delta: isize, len: usize)
    ensures
        len == 0 <==> moved_selection_spec(current, delta, len) is None,
        len > 0 ==> moved_selection_spec(current, delta, len)->0 < len,
        0 <= current + delta < len ==> moved_selection_spec(current, delta, len) == Some(
            (current + delta) as usize,
        ),
        len > 0 && current + delta < 0 ==> moved_selection_spec(current, delta, len) == Some(0usize),
        len > 0 && current + delta >= len ==> moved_selection_spec(current, delta, len) == Some(
            (len - 1) as usize,
        ),
{
}

/// The artist page's combined index space is the Popular rows followed by the albums: each
/// combined row names exactly one row of one list, and counting Popular rows before the album
/// gives the combined index back.
pub proof fn lemma_artist_page_rows_partition(index: usize, top_len: usize)
    ensures
        (artist_page_row_spec(index, top_len) is TopTrack) <==> index < top_len,
        artist_page_row_spec(index, top_len) matches ArtistPageRow::TopTrack(i) ==> i == index,
        artist_page_row_spec(index, top_len) matches ArtistPageRow::Album(j) ==> j + top_len == index,
{
}

} // verus!
