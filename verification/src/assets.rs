//! The app's embedded SVG icons, served to the GUI by path. The icons are the free
//! stroke-rounded set from Hugeicons plus a few hand-drawn ones in the same style; the
//! bytes are compiled into the binary, and this table is what paths resolve against.

use vstd::prelude::*;

use crate::text::same_text;

verus! {

/// How many icons are bundled.
pub const ICON_COUNT: usize = 30;

/// The bundled icons' paths, in table order.
pub open spec fn icon_paths() -> Seq<Seq<char>> {
    seq![
        "icons/arrow-down.svg"@,
        "icons/arrow-left.svg"@,
        "icons/arrow-right.svg"@,
        "icons/clock.svg"@,
        "icons/computer.svg"@,
        "icons/full-screen.svg"@,
        "icons/heart.svg"@,
        "icons/mic.svg"@,
        "icons/music-note.svg"@,
        "icons/next.svg"@,
        "icons/paint-board.svg"@,
        "icons/pause.svg"@,
        "icons/pin.svg"@,
        "icons/play.svg"@,
        "icons/playlist.svg"@,
        "icons/previous.svg"@,
        "icons/repeat.svg"@,
        "icons/repeat-one.svg"@,
        "icons/search.svg"@,
        "icons/settings.svg"@,
        "icons/shuffle.svg"@,
        "icons/sidebar-left.svg"@,
        "icons/sparkles.svg"@,
        "icons/star.svg"@,
        "icons/volume-high.svg"@,
        "icons/volume-off.svg"@,
        "icons/win-close.svg"@,
        "icons/win-maximize.svg"@,
        "icons/win-minimize.svg"@,
        "icons/win-restore.svg"@,
    ]
}

/// The path of bundled icon `ix`.
pub fn icon_path(ix: usize) -> (path: &'static str)
    requires
        ix < ICON_COUNT,
    ensures
        path@ == icon_paths()[ix as int],
{
    match ix {
        0 => "icons/arrow-down.svg",
        1 => "icons/arrow-left.svg",
        2 => "icons/arrow-right.svg",
        3 => "icons/clock.svg",
        4 => "icons/computer.svg",
        5 => "icons/full-screen.svg",
        6 => "icons/heart.svg",
        7 => "icons/mic.svg",
        8 => "icons/music-note.svg",
        9 => "icons/next.svg",
        10 => "icons/paint-board.svg",
        11 => "icons/pause.svg",
        12 => "icons/pin.svg",
        13 => "icons/play.svg",
        14 => "icons/playlist.svg",
        15 => "icons/previous.svg",
        16 => "icons/repeat.svg",
        17 => "icons/repeat-one.svg",
        18 => "icons/search.svg",
        19 => "icons/settings.svg",
        20 => "icons/shuffle.svg",
        21 => "icons/sidebar-left.svg",
        22 => "icons/sparkles.svg",
        23 => "icons/star.svg",
        24 => "icons/volume-high.svg",
        25 => "icons/volume-off.svg",
        26 => "icons/win-close.svg",
        27 => "icons/win-maximize.svg",
        28 => "icons/win-minimize.svg",
        _ => "icons/win-restore.svg",
    }
}

/// Whether `prefix` is a prefix of `text`.
pub open spec fn is_prefix(prefix: Seq<char>, text: Seq<char>) -> bool {
    prefix.len() <= text.len() && text.subrange(0, prefix.len() as int) == prefix
}

/// Whether `text` starts with `prefix`.
pub fn starts_with(text: &str, prefix: &str) -> (starts: bool)
    ensures
        starts == is_prefix(prefix@, text@),
{
    let n = prefix.unicode_len();
    if n > text.unicode_len() {
        return false;
    }
    let mut i: usize = 0;
    while i < n
        invariant
            n == prefix@.len(),
            n <= text@.len(),
            i <= n,
            forall|j: int| 0 <= j < i ==> text@[j] == prefix@[j],
        decreases n - i,
    {
        if text.get_char(i) != prefix.get_char(i) {
            return false;
        }
        i = i + 1;
    }
    proof {
        assert(text@.subrange(0, n as int) =~= prefix@);
    }
    true
}

/// The icon asset source.
pub struct Assets;

impl Assets {
    /// The table position of the icon at `path`, if one is bundled there.
    pub fn find(&self, path: &str) -> (ix: Option<usize>)
        ensures
            match ix {
                Some(i) => i < ICON_COUNT && icon_paths()[i as int] == path@,
                None => forall|i: int| 0 <= i < ICON_COUNT ==> icon_paths()[i] != path@,
            },
    {
        let mut i: usize = 0;
        while i < ICON_COUNT
            invariant
                i <= ICON_COUNT,
                forall|j: int| 0 <= j < i ==> icon_paths()[j] != path@,
            decreases ICON_COUNT - i,
        {
            if same_text(icon_path(i), path) {
                return Some(i);
            }
            i = i + 1;
        }
        None
    }

    /// The paths of every bundled icon under `path`, in table order.
    pub fn list(&self, path: &str) -> (paths: Vec<String>)
        ensures
            paths@.map_values(|p: String| p@) == icon_paths().filter(|name: Seq<char>| is_prefix(path@, name)),
    {
        let mut paths: Vec<String> = Vec::new();
        let mut i: usize = 0;
        while i < ICON_COUNT
            invariant
                i <= ICON_COUNT,
                paths@.map_values(|p: String| p@) == icon_paths().take(i as int).filter(
                    |name: Seq<char>| is_prefix(path@, name),
                ),
            decreases ICON_COUNT - i,
        {
            let name = icon_path(i);
            proof {
                reveal_with_fuel(Seq::<_>::filter, 1);
                assert(icon_paths().take(i + 1).drop_last() =~= icon_paths().take(i as int));
            }
            if starts_with(name, path) {
                let ghost before = paths@;
                paths.push(String::from_str(name));
                proof {
                    assert(paths@.map_values(|p: String| p@) =~= before.map_values(|p: String| p@).push(name@));
                }
            }
            i = i + 1;
        }
        proof {
            assert(icon_paths().take(ICON_COUNT as int) =~= icon_paths());
        }
        paths
    }
}

} // verus!
