//! Small decisions the desktop views make from plain values: which rows read as selected,
//! which sidebar rows are pinned in place, which lyric line is playing, how a track sort is
//! spelled on the command line and how a playback time is printed.

use vstd::prelude::*;

use crate::text::{decimal, decimal_chars, decimal_text, digit_text, same_text};

verus! {

/// Whether row `ix` reads as selected.
pub open spec fn row_selected_spec(ix: usize, selected: usize, visual: Option<(usize, usize)>) -> bool {
    ix == selected || (visual matches Some((start, end)) && start <= ix <= end)
}

/// Whether row `ix` reads as selected: the cursor row, or any row inside the visual range
/// `start..=end`, which shares the cursor's highlight so the selection looks like one block.
pub fn row_selected(ix: usize, selected: usize, visual: Option<(usize, usize)>) -> (sel: bool)
    ensures
        sel == row_selected_spec(ix, selected, visual),
{
    ix == selected || match visual {
        Some((start, end)) => ix >= start && ix <= end,
        None => false,
    }
}

/// True for the sidebar rows drag-and-drop must not move: Liked Songs and the local library.
pub fn is_fixed_library_row(id: &str) -> (fixed: bool)
    ensures
        fixed == (id@ == "LIKED_SONGS"@ || id@ == "local-library"@),
{
    same_text(id, "LIKED_SONGS") || same_text(id, "local-library")
}

/// One timed line of synced lyrics.
pub struct LyricLine {
    pub start_ms: u32,
    pub text: String,
}

/// The start times of the lines.
pub open spec fn line_starts(lines: Seq<LyricLine>) -> Seq<u32> {
    lines.map_values(|line: LyricLine| line.start_ms)
}

/// How many lines, from the first on, have started by `progress_ms` before the first one that
/// has not.
pub open spec fn started_count(starts: Seq<u32>, progress_ms: u32) -> nat
    decreases starts.len(),
{
    if starts.len() == 0 || starts[0] > progress_ms {
        0
    } else {
        1 + started_count(starts.drop_first(), progress_ms)
    }
}

/// Index of the lyric line playing at `progress_ms`: the last line that has started, or the
/// first before any has (and zero for no lines at all).
pub fn current_lyric_index(lines: &[LyricLine], progress_ms: u32) -> (ix: usize)
    ensures
        ix as nat == if started_count(line_starts(lines@), progress_ms) == 0 {
            0
        } else {
            (started_count(line_starts(lines@), progress_ms) - 1) as nat
        },
{
    let ghost starts = line_starts(lines@);
    proof {
        assert(starts.skip(0) =~= starts);
    }
    let mut i: usize = 0;
    while i < lines.len() && lines[i].start_ms <= progress_ms
        invariant
            starts == line_starts(lines@),
            i <= lines@.len(),
            started_count(starts, progress_ms) == i + started_count(starts.skip(i as int), progress_ms),
        decreases lines@.len() - i,
    {
        proof {
            assert(starts.skip(i as int).drop_first() =~= starts.skip(i + 1));
        }
        i = i + 1;
    }
    proof {
        if i < lines@.len() {
            assert(starts.skip(i as int)[0] == lines@[i as int].start_ms);
        }
    }
    if i == 0 {
        0
    } else {
        i - 1
    }
}

/// The lines counted by `started_count` are exactly the leading run that has started: each of
/// them starts at or before `progress_ms`, and the line right after them does not.
pub proof fn lemma_started_count(starts: Seq<u32>, progress_ms: u32)
    ensures
        started_count(starts, progress_ms) <= starts.len(),
        forall|j: int| 0 <= j < started_count(starts, progress_ms) ==> #[trigger] starts[j] <= progress_ms,
        started_count(starts, progress_ms) < starts.len() ==> starts[started_count(starts, progress_ms) as int] > progress_ms,
    decreases starts.len(),
{
    if starts.len() > 0 && starts[0] <= progress_ms {
        let rest = starts.drop_first();
        lemma_started_count(rest, progress_ms);
        assert forall|j: int| 0 <= j < started_count(starts, progress_ms) implies #[trigger] starts[j] <= progress_ms by {
            if j > 0 {
                assert(starts[j] == rest[j - 1]);
            }
        }
    }
}

/// The current lyric line is the last one that has started: once any line has started, the
/// line at the returned index has, and the one after it (if any) has not.
pub proof fn lemma_current_line_is_last_started(lines: Seq<LyricLine>, progress_ms: u32, ix: usize)
    requires
        ix as nat == if started_count(line_starts(lines), progress_ms) == 0 {
            0
        } else {
            (started_count(line_starts(lines), progress_ms) - 1) as nat
        },
        lines.len() > 0,
        lines[0].start_ms <= progress_ms,
    ensures
        ix < lines.len(),
        lines[ix as int].start_ms <= progress_ms,
        ix + 1 < lines.len() ==> lines[ix + 1].start_ms > progress_ms,
{
    let starts = line_starts(lines);
    lemma_started_count(starts, progress_ms);
    assert(starts[0] == lines[0].start_ms);
    assert(starts[ix as int] == lines[ix as int].start_ms);
    if ix + 1 < lines.len() {
        assert(starts[ix + 1] == lines[ix + 1].start_ms);
    }
}

/// A lyric line's place relative to the one playing, which picks its color: the current line
/// is accented, lines already sung take the text color, upcoming ones are muted.
#[derive(Clone, Copy, Debug, PartialEq, Eq, Structural)]
pub enum LyricPlace {
    Sung,
    Current,
    Upcoming,
}

/// Where line `ix` stands relative to the current line `current`.
pub open spec fn lyric_place_spec(ix: usize, current: usize) -> LyricPlace {
    if ix == current {
        LyricPlace::Current
    } else if ix > current {
        LyricPlace::Upcoming
    } else {
        LyricPlace::Sung
    }
}

/// Where line `ix` stands relative to the current line `current`.
pub fn lyric_place(ix: usize, current: usize) -> (place: LyricPlace)
    ensures
        place == lyric_place_spec(ix, current),
{
    if ix == current {
        LyricPlace::Current
    } else if ix > current {
        LyricPlace::Upcoming
    } else {
        LyricPlace::Sung
    }
}

/// The translation key of what stands in for the lyrics while they load or when the track has
/// none, or `None` once there are lines to show.
pub fn lyric_status_key(fetching: bool, has_lyrics: bool) -> (key: Option<&'static str>)
    ensures
        fetching ==> (key matches Some(k) && k@ == "desktop.loading_lyrics"@),
        !fetching && !has_lyrics ==> (key matches Some(k) && k@ == "desktop.no_lyrics"@),
        !fetching && has_lyrics ==> key is None,
{
    if fetching {
        Some("desktop.loading_lyrics")
    } else if !has_lyrics {
        Some("desktop.no_lyrics")
    } else {
        None
    }
}

/// One row of the immersive lyric column.
pub struct ColumnRow {
    /// Rows from the center row; the column runs from one above the window to its bottom.
    pub offset: isize,
    /// The lyric line shown there: the current line moved by `offset`, when that is not
    /// before the first line (a line past the end shows as empty).
    pub line: Option<usize>,
    /// The row's color role; a row with no line takes the current line's.
    pub place: LyricPlace,
}

/// The `j`th row of the column for a window of `rows` rows around line `current`.
pub open spec fn column_row_ok(row: ColumnRow, j: int, current: usize, rows: usize) -> bool {
    let half = (rows / 2) as int;
    let offset = j - half - 1;
    let target = current + offset;
    &&& row.offset == offset
    &&& row.line == if 0 <= target <= usize::MAX {
        Some(target as usize)
    } else {
        None::<usize>
    }
    &&& row.place == if 0 <= target <= usize::MAX {
        if offset == 0 {
            LyricPlace::Current
        } else if offset > 0 {
            LyricPlace::Upcoming
        } else {
            LyricPlace::Sung
        }
    } else {
        LyricPlace::Current
    }
}

/// The immersive lyric column around line `current` for a window of `rows` (odd) rows: the
/// current line pinned to the center row, `rows / 2` lines either side, and one extra row
/// above the window that carries the previous line on its way out as the column glides up.
pub fn lyric_column(current: usize, rows: usize) -> (column: Vec<ColumnRow>)
    requires
        rows <= isize::MAX,
    ensures
        column@.len() == 2 * (rows / 2) + 2,
        forall|j: int| 0 <= j < column@.len() ==> column_row_ok(#[trigger] column@[j], j, current, rows),
{
    let half = rows / 2;
    let count = 2 * half + 2;
    let mut column: Vec<ColumnRow> = Vec::new();
    let mut j: usize = 0;
    while j < count
        invariant
            half == rows / 2,
            count == 2 * half + 2,
            j <= count,
            column@.len() == j,
            forall|jj: int| 0 <= jj < j ==> column_row_ok(#[trigger] column@[jj], jj, current, rows),
        decreases count - j,
    {
        let row = if j <= half {
            // Above the center: `half + 1 - j` lines back.
            let back = half + 1 - j;
            let line = if current >= back { Some(current - back) } else { None };
            let place = if current >= back { LyricPlace::Sung } else { LyricPlace::Current };
            ColumnRow { offset: -(back as isize), line, place }
        } else {
            let ahead = j - half - 1;
            let line = current.checked_add(ahead);
            let place = match line {
                Some(_) => lyric_place(current + ahead, current),
                None => LyricPlace::Current,
            };
            ColumnRow { offset: ahead as isize, line, place }
        };
        column.push(row);
        j = j + 1;
    }
    column
}

/// Which corners of an element sit against the window's own.
#[derive(Clone, Copy, Debug, PartialEq, Eq, Structural)]
pub enum ClientCorners {
    All,
    Top,
}

/// Which window edges are tiled: flush against a screen edge or a neighbouring window.
#[derive(Clone, Copy, Debug, PartialEq, Eq, Structural)]
pub struct EdgeTiling {
    pub top: bool,
    pub left: bool,
    pub right: bool,
    pub bottom: bool,
}

/// Which of an element's four corners are rounded.
#[derive(Clone, Copy, Debug, PartialEq, Eq, Structural)]
pub struct CornerRounding {
    pub top_left: bool,
    pub top_right: bool,
    pub bottom_left: bool,
    pub bottom_right: bool,
}

/// The corners rounded for a window frame tiled as `tiling`.
pub open spec fn corner_rounding_spec(tiling: Option<EdgeTiling>, which: ClientCorners) -> CornerRounding {
    match tiling {
        None => CornerRounding { top_left: false, top_right: false, bottom_left: false, bottom_right: false },
        Some(t) => {
            let all = which == ClientCorners::All;
            CornerRounding {
                top_left: !t.top && !t.left,
                top_right: !t.top && !t.right,
                bottom_left: all && !t.bottom && !t.left,
                bottom_right: all && !t.bottom && !t.right,
            }
        },
    }
}

/// The corners to round when the app draws its own window frame (`tiling` is `None` when the
/// compositor draws it and no corner is ours): a corner is rounded unless either edge meeting
/// there is tiled, and the bottom two only for an element reaching all four corners.
pub fn corner_rounding(tiling: Option<EdgeTiling>, which: ClientCorners) -> (rounding: CornerRounding)
    ensures
        rounding == corner_rounding_spec(tiling, which),
{
    match tiling {
        None => CornerRounding { top_left: false, top_right: false, bottom_left: false, bottom_right: false },
        Some(t) => {
            let all = match which {
                ClientCorners::All => true,
                ClientCorners::Top => false,
            };
            CornerRounding {
                top_left: !t.top && !t.left,
                top_right: !t.top && !t.right,
                bottom_left: all && !t.bottom && !t.left,
                bottom_right: all && !t.bottom && !t.right,
            }
        },
    }
}

/// How a track list is ordered.
#[derive(Clone, Copy, Debug, PartialEq, Eq, Structural)]
pub enum TrackSort {
    Original,
    Title,
    Artist,
    Album,
    Duration,
    Added,
}

/// The `:sort` argument for `sort`.
pub open spec fn sort_arg_spec(sort: TrackSort) -> Seq<char> {
    match sort {
        TrackSort::Original => "original"@,
        TrackSort::Title => "title"@,
        TrackSort::Artist => "artist"@,
        TrackSort::Album => "album"@,
        TrackSort::Duration => "duration"@,
        TrackSort::Added => "added"@,
    }
}

/// The `:sort` argument that produces `sort`, so the picker can mark the active option.
pub fn sort_arg(sort: TrackSort) -> (arg: &'static str)
    ensures
        arg@ == sort_arg_spec(sort),
{
    match sort {
        TrackSort::Original => "original",
        TrackSort::Title => "title",
        TrackSort::Artist => "artist",
        TrackSort::Album => "album",
        TrackSort::Duration => "duration",
        TrackSort::Added => "added",
    }
}

/// A playback time of `ms` milliseconds as `m:ss`: whole minutes, then the remaining whole
/// seconds in two digits.
pub open spec fn time_text(ms: u32) -> Seq<char> {
    let seconds = ms / 1000;
    decimal((seconds / 60) as nat) + seq![':'] + seq![
        decimal_chars()[((seconds % 60) / 10) as int],
        decimal_chars()[((seconds % 60) % 10) as int],
    ]
}

/// Prints a playback position as `m:ss`.
pub fn format_time(ms: u32) -> (text: String)
    ensures
        text@ == time_text(ms),
{
    let seconds = ms / 1000;
    let mut text = decimal_text(seconds / 60);
    text.append(":");
    text.append(digit_text((seconds % 60) / 10));
    text.append(digit_text((seconds % 60) % 10));
    proof {
        reveal_strlit(":");
        assert(text@ =~= time_text(ms));
    }
    text
}

/// Whether `a` sorts strictly before `b`: character by character, and a proper prefix first.
/// For UTF-8 text this is the byte order strings are sorted in.
pub open spec fn text_lt(a: Seq<char>, b: Seq<char>) -> bool
    decreases a.len(),
{
    if a.len() == 0 {
        b.len() > 0
    } else if b.len() == 0 {
        false
    } else if (a[0] as u32) < (b[0] as u32) {
        true
    } else if (a[0] as u32) > (b[0] as u32) {
        false
    } else {
        text_lt(a.drop_first(), b.drop_first())
    }
}

/// Nothing sorts both before and after another text.
pub proof fn lemma_text_lt_asymmetric(a: Seq<char>, b: Seq<char>)
    ensures
        text_lt(a, b) ==> !text_lt(b, a),
    decreases a.len(),
{
    if a.len() > 0 && b.len() > 0 && (a[0] as u32) == (b[0] as u32) {
        lemma_text_lt_asymmetric(a.drop_first(), b.drop_first());
    }
}

/// Whether `a` sorts strictly before `b`.
pub fn text_less(a: &str, b: &str) -> (lt: bool)
    ensures
        lt == text_lt(a@, b@),
{
    let na = a.unicode_len();
    let nb = b.unicode_len();
    proof {
        assert(a@.skip(0) =~= a@);
        assert(b@.skip(0) =~= b@);
    }
    let mut i: usize = 0;
    while i < na && i < nb
        invariant
            na == a@.len(),
            nb == b@.len(),
            i <= na,
            i <= nb,
            text_lt(a@, b@) == text_lt(a@.skip(i as int), b@.skip(i as int)),
        decreases na - i,
    {
        let ca = a.get_char(i);
        let cb = b.get_char(i);
        proof {
            assert(a@.skip(i as int)[0] == ca);
            assert(b@.skip(i as int)[0] == cb);
            assert(a@.skip(i as int).drop_first() =~= a@.skip(i + 1));
            assert(b@.skip(i as int).drop_first() =~= b@.skip(i + 1));
        }
        if (ca as u32) < (cb as u32) {
            return true;
        }
        if (ca as u32) > (cb as u32) {
            return false;
        }
        i = i + 1;
    }
    i < nb
}

/// The texts of a list of strings.
pub open spec fn texts(names: Seq<String>) -> Seq<Seq<char>> {
    names.map_values(|name: String| name@)
}

/// Each text sorts no later than the one after it.
pub open spec fn texts_sorted(texts: Seq<Seq<char>>) -> bool {
    forall|i: int| 0 < i < texts.len() ==> !text_lt(#[trigger] texts[i], texts[i - 1])
}

/// Theme names in the order the picker lists them: the same names, sorted. The picker's
/// keyboard selection indexes into this order, so rendering and selection agree.
pub fn sorted_theme_names(names: Vec<String>) -> (sorted: Vec<String>)
    ensures
        texts(sorted@).to_multiset() == texts(names@).to_multiset(),
        texts_sorted(texts(sorted@)),
{
    let mut sorted: Vec<String> = Vec::new();
    proof {
        assert(texts(sorted@) =~= texts(names@).take(0));
    }
    let mut k: usize = 0;
    while k < names.len()
        invariant
            k <= names@.len(),
            texts(sorted@).to_multiset() == texts(names@).take(k as int).to_multiset(),
            texts_sorted(texts(sorted@)),
        decreases names@.len() - k,
    {
        let name = names[k].as_str();
        let mut p: usize = 0;
        while p < sorted.len() && !text_less(name, sorted[p].as_str())
            invariant
                k < names@.len(),
                p <= sorted@.len(),
                name@ == names@[k as int]@,
                texts(sorted@).to_multiset() == texts(names@).take(k as int).to_multiset(),
                texts_sorted(texts(sorted@)),
                forall|j: int| 0 <= j < p ==> !text_lt(name@, #[trigger] texts(sorted@)[j]),
            decreases sorted@.len() - p,
        {
            p = p + 1;
        }
        let ghost before = texts(sorted@);
        proof {
            if p < sorted@.len() {
                assert(text_lt(name@, before[p as int]));
                lemma_text_lt_asymmetric(name@, before[p as int]);
            }
        }
        sorted.insert(p, names[k].clone());
        proof {
            let after = texts(sorted@);
            assert(after =~= before.insert(p as int, name@));
            assert(texts(names@).take(k + 1) =~= texts(names@).take(k as int).push(name@));
            assert forall|i: int| 0 < i < after.len() implies !text_lt(#[trigger] after[i], after[i - 1]) by {
                if i < p {
                    assert(after[i] == before[i] && after[i - 1] == before[i - 1]);
                } else if i == p {
                    assert(after[i] == name@ && after[i - 1] == before[i - 1]);
                    assert(!text_lt(name@, before[i - 1]));
                } else if i == p + 1 {
                    assert(after[i] == before[p as int] && after[i - 1] == name@);
                } else {
                    assert(after[i] == before[i - 1] && after[i - 1] == before[i - 2]);
                }
            }
            vstd::seq_lib::to_multiset_insert(before, p as int, name@);
            vstd::seq_lib::to_multiset_build(texts(names@).take(k as int), name@);

        }
        k = k + 1;
    }
    proof {
        assert(texts(names@).take(names@.len() as int) =~= texts(names@));
    }
    sorted
}

/// The cursor row always reads as selected; without a visual range it is the only one, and
/// with one every row of the range reads as selected and no row outside it but the cursor's.
pub proof fn lemma_selected_rows(ix: usize, selected: usize, visual: Option<(usize, usize)>)
    ensures
        row_selected_spec(selected, selected, visual),
        visual is None ==> (row_selected_spec(ix, selected, visual) <==> ix == selected),
        visual matches Some((a, b)) ==> (a <= ix <= b ==> row_selected_spec(ix, selected, visual)),
        visual matches Some((a, b)) ==> (ix != selected && (ix < a || ix > b) ==> !row_selected_spec(
            ix,
            selected,
            visual,
        )),
{
}

/// Exactly one line is the current one, and the lines read in order: every line before it has
/// been sung and every line after it is upcoming.
pub proof fn lemma_lyric_places_in_order(i: usize, j: usize, current: usize)
    ensures
        (lyric_place_spec(i, current) == LyricPlace::Current) <==> i == current,
        i < j ==> !(lyric_place_spec(i, current) == LyricPlace::Upcoming && lyric_place_spec(j, current)
            != LyricPlace::Upcoming),
        i < j ==> !(lyric_place_spec(j, current) == LyricPlace::Sung && lyric_place_spec(i, current)
            != LyricPlace::Sung),
        (lyric_place_spec(i, current) == LyricPlace::Sung) <==> i < current,
{
}

/// Corner rounding is mirror-symmetric (tiling the left edge instead of the right rounds the
/// mirrored corners), a corner is rounded only where neither of its edges is tiled, an element
/// covering only the top never rounds the bottom corners, an untiled frame covering all four
/// rounds all four, and without a frame of our own nothing is rounded.
pub proof fn lemma_corner_rounding_laws(t: EdgeTiling, which: ClientCorners)
    ensures
        ({
            let r = corner_rounding_spec(Some(t), which);
            let m = corner_rounding_spec(Some(EdgeTiling { left: t.right, right: t.left, ..t }), which);
            &&& m.top_left == r.top_right && m.top_right == r.top_left
            &&& m.bottom_left == r.bottom_right && m.bottom_right == r.bottom_left
            &&& (r.top_left ==> !t.top && !t.left) && (r.top_right ==> !t.top && !t.right)
            &&& (r.bottom_left ==> !t.bottom && !t.left) && (r.bottom_right ==> !t.bottom && !t.right)
            &&& which == ClientCorners::Top ==> !r.bottom_left && !r.bottom_right
            &&& which == ClientCorners::Top && !t.top && !t.left && !t.right ==> r.top_left && r.top_right
            &&& which == ClientCorners::All && !t.top && !t.left && !t.right && !t.bottom ==> r.top_left
                && r.top_right && r.bottom_left && r.bottom_right
        }),
        corner_rounding_spec(None, which) == (CornerRounding {
            top_left: false,
            top_right: false,
            bottom_left: false,
            bottom_right: false,
        }),
{
}

/// Different sorts are spelled differently on the command line.
pub proof fn lemma_sort_args_distinct(a: TrackSort, b: TrackSort)
    ensures
        a != b ==> sort_arg_spec(a) != sort_arg_spec(b),
{
    reveal_strlit("original");
    reveal_strlit("title");
    reveal_strlit("artist");
    reveal_strlit("album");
    reveal_strlit("duration");
    reveal_strlit("added");
    if a != b {
        assert(sort_arg_spec(a).len() != sort_arg_spec(b).len() || sort_arg_spec(a)[0] != sort_arg_spec(b)[0]
            || sort_arg_spec(a)[1] != sort_arg_spec(b)[1]);
    }
}

/// A playback time ends in `:` and two seconds digits that only depend on the seconds past the
/// whole minute: a minute later the time ends the same way.
pub proof fn lemma_time_seconds_field(ms: u32)
    requires
        ms as int + 60000 <= u32::MAX,
    ensures
        ({
            let t = time_text(ms);
            let later = time_text((ms + 60000) as u32);
            &&& t[t.len() - 3] == ':'
            &&& later.subrange(later.len() - 3, later.len() as int) == t.subrange(t.len() - 3, t.len() as int)
        }),
{
    let s0 = ms / 1000;
    let s1 = ((ms + 60000) as u32) / 1000;
    assert(s1 == s0 + 60);
    assert(s1 % 60 == s0 % 60);
    let t = time_text(ms);
    let later = time_text((ms + 60000) as u32);
    assert(later.subrange(later.len() - 3, later.len() as int) =~= t.subrange(t.len() - 3, t.len() as int));
}

} // verus!
