use echo_rs::instance::{fnv1a, pipe_name, socket_path};
use echo_rs::tray::{argb, TrayEvent, TrayLabels};

#[test]
fn argb_moves_alpha_first() {
    assert_eq!(argb(&[1, 2, 3, 4, 5, 6, 7, 8]), [4, 1, 2, 3, 8, 5, 6, 7]);
}

#[test]
fn argb_drops_a_trailing_partial_pixel() {
    assert_eq!(argb(&[1, 2, 3, 4, 9, 9]), [4, 1, 2, 3]);
    assert_eq!(argb(&[]), Vec::<u8>::new());
}

#[test]
fn pipe_name_is_stable_and_differs_per_directory() {
    let name = |dir: &str| pipe_name(dir);
    assert_eq!(name(r"C:\a"), name(r"C:\a"));
    assert_ne!(name(r"C:\a"), name(r"C:\b"));
    assert!(name(r"C:\a").starts_with(r"\\.\pipe\echo-desktop-"));
}

#[test]
fn pipe_name_ends_in_sixteen_hex_digits_of_the_hash() {
    let dir = r"C:\Users\me\AppData\Roaming\echo";
    let expected = format!(r"\\.\pipe\echo-desktop-{:016x}", fnv1a(dir));
    assert_eq!(pipe_name(dir), expected);
}

#[test]
fn fnv1a_matches_the_reference_vectors() {
    assert_eq!(fnv1a(""), 0xcbf2_9ce4_8422_2325);
    assert_eq!(fnv1a("a"), 0xaf63_dc4c_8601_ec8c);
    assert_eq!(fnv1a("foobar"), 0x8594_4171_f739_67e8);
}

#[test]
fn socket_sits_inside_the_config_directory() {
    assert_eq!(socket_path(b"/home/me/.config/echo"), b"/home/me/.config/echo/echo-desktop.sock");
    assert_eq!(socket_path(b"/tmp/"), b"/tmp/echo-desktop.sock");
    assert_eq!(socket_path(b""), b"echo-desktop.sock");
    // Paths are bytes on Unix: a directory name that is not UTF-8 is kept as it is.
    assert_eq!(socket_path(&[0xff, 0xfe]), b"\xff\xfe/echo-desktop.sock");
}

#[test]
fn tray_events_and_labels_are_plain_values() {
    let labels = TrayLabels { show: "Show".to_string(), quit: "Quit".to_string() };
    assert_eq!(labels.show, "Show");
    assert_ne!(TrayEvent::Show, TrayEvent::Quit);
}
