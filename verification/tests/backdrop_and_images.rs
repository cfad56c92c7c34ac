use echo_rs::assets::{Assets, ICON_COUNT};
use echo_rs::backdrop::{disc_radius, guard_sources, paint_order, BackdropMode, DISC_COUNT};
use echo_rs::images::{swap_red_blue, ImageCache, CACHE_CAP};
use echo_rs::palette::{cover_histogram, BIN_COUNT};

#[test]
fn smaller_discs_paint_last() {
    let order = paint_order();
    assert!(order.windows(2).all(|w| disc_radius(w[0]) >= disc_radius(w[1])));
    assert_eq!(order[0], 1);
}

#[test]
fn paint_order_is_a_permutation() {
    let mut order = paint_order().to_vec();
    order.sort();
    assert_eq!(order, (0..DISC_COUNT).collect::<Vec<_>>());
    assert_eq!(paint_order(), [1, 0, 3, 2]);
}

#[test]
fn the_only_mode_is_the_default() {
    assert_eq!(BackdropMode::default(), BackdropMode::BlurredShapes);
}

#[test]
fn guard_replicates_the_edges() {
    // A 2x1 picture with a one-texel guard is a 4x3 texture.
    let sources = guard_sources(2, 1, 1);
    assert_eq!(sources.len(), 12);
    let at = |x: usize, y: usize| sources[y * 4 + x];
    assert_eq!(at(0, 0), 0);
    assert_eq!(at(1, 1), 0);
    assert_eq!(at(2, 1), 1);
    assert_eq!(at(3, 2), 1);
}

#[test]
fn no_guard_is_the_picture_itself() {
    assert_eq!(guard_sources(3, 2, 0), [0, 1, 2, 3, 4, 5]);
}

#[test]
fn red_and_blue_swap_in_whole_pixels_only() {
    let mut pixels = vec![1u8, 2, 3, 4, 5, 6, 7, 8, 9, 10];
    swap_red_blue(&mut pixels);
    assert_eq!(pixels, [3, 2, 1, 4, 7, 6, 5, 8, 9, 10]);
    swap_red_blue(&mut pixels);
    assert_eq!(pixels, [1, 2, 3, 4, 5, 6, 7, 8, 9, 10]);
}

#[test]
fn images_convert_once_per_artwork() {
    let mut cache: ImageCache<&str, u32> = ImageCache::new();
    let mut conversions = 0;
    let first = cache.get(7, "cover", || {
        conversions += 1;
        Some(70)
    });
    assert_eq!(first, Some(70));
    let again = cache.get(7, "cover", || {
        conversions += 1;
        Some(71)
    });
    assert_eq!(again, Some(70));
    assert_eq!(conversions, 1);
    assert_eq!(cache.get(8, "broken", || None), None);
    assert_eq!(cache.len(), 1);
}

#[test]
fn a_full_cache_starts_over() {
    let mut cache: ImageCache<usize, usize> = ImageCache::new();
    for key in 0..CACHE_CAP {
        cache.get(key, key, || Some(key));
    }
    assert_eq!(cache.len(), CACHE_CAP);
    assert_eq!(cache.get(CACHE_CAP, 0, || Some(1)), Some(1));
    assert_eq!(cache.len(), 1);
}

#[test]
fn icons_resolve_by_path_and_list_by_prefix() {
    let assets = Assets;
    assert_eq!(assets.find("icons/arrow-down.svg"), Some(0));
    assert_eq!(assets.find("icons/win-restore.svg"), Some(ICON_COUNT - 1));
    assert_eq!(assets.find("icons/missing.svg"), None);
    assert_eq!(assets.list("icons/win-"), ["icons/win-close.svg", "icons/win-maximize.svg", "icons/win-minimize.svg", "icons/win-restore.svg"]);
    assert_eq!(assets.list("icons/").len(), ICON_COUNT);
    assert!(assets.list("fonts/").is_empty());
}

fn image(width: u32, height: u32, paint: impl Fn(u32, u32) -> [u8; 4]) -> Vec<u8> {
    let paint = &paint;
    (0..height)
        .flat_map(|y| (0..width).flat_map(move |x| paint(x, y)))
        .collect()
}

#[test]
fn a_solid_cover_fills_one_bin() {
    let pixels = image(8, 8, |_, _| [200, 40, 40, 255]);
    let hist = cover_histogram(8, 8, &pixels);
    assert_eq!(hist.bins.len(), BIN_COUNT);
    let key = (200 / 16) * 256 + (40 / 16) * 16 + 40 / 16;
    assert_eq!(hist.bins[key].count, 64);
    assert_eq!(hist.bins[key].r, 64 * 200);
    assert_eq!(hist.all.count, 64);
    assert_eq!(hist.bins.iter().filter(|b| b.count > 0).count(), 1);
}

#[test]
fn transparent_pixels_are_not_counted() {
    let pixels = image(4, 4, |x, _| if x < 2 { [255, 0, 0, 0] } else { [0, 0, 200, 255] });
    let hist = cover_histogram(4, 4, &pixels);
    assert_eq!(hist.all.count, 8);
    assert_eq!(hist.all.r, 0);
    assert_eq!(hist.all.b, 8 * 200);
}

#[test]
fn large_covers_are_sampled_with_a_stride() {
    let pixels = image(256, 256, |_, _| [10, 20, 30, 255]);
    let hist = cover_histogram(256, 256, &pixels);
    // 65536 pixels, a stride of 4: every fourth pixel.
    assert_eq!(hist.all.count, 16_384);
}

#[test]
fn a_short_buffer_bounds_the_pixel_count() {
    let pixels = vec![1u8, 2, 3, 255, 4, 5, 6, 255, 7];
    assert_eq!(cover_histogram(100, 100, &pixels).all.count, 2);
    assert_eq!(cover_histogram(0, 0, &pixels).all.count, 0);
}

#[test]
fn overall_totals_are_the_sum_of_the_bins() {
    let pixels = image(16, 16, |x, y| [(x * 16) as u8, (y * 16) as u8, ((x + y) * 7) as u8, if (x + y) % 3 == 0 { 0 } else { 255 }]);
    let hist = cover_histogram(16, 16, &pixels);
    let count: u32 = hist.bins.iter().map(|b| b.count).sum();
    let red: u32 = hist.bins.iter().map(|b| b.r).sum();
    let green: u32 = hist.bins.iter().map(|b| b.g).sum();
    let blue: u32 = hist.bins.iter().map(|b| b.b).sum();
    assert_eq!((count, red, green, blue), (hist.all.count, hist.all.r, hist.all.g, hist.all.b));
    assert!(hist.all.count < 256);
}
