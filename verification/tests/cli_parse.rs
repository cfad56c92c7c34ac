use echo_rs::cli::{parse, Command, Progress, ProgressReport};

fn parse_args(args: &[&str]) -> Command {
    parse(args.iter().map(|arg| (*arg).to_string()).collect())
}

#[test]
fn no_arguments_start_the_player() {
    assert_eq!(parse_args(&[]), Command::Tui);
}

#[test]
fn unknown_arguments_fall_through_to_the_player() {
    // .desktop launchers and terminal emulators pass through things we do not control,
    // so an unrecognised argument must never turn into an error.
    assert_eq!(parse_args(&["--enable-features=x"]), Command::Tui);
    assert_eq!(parse_args(&["spotify:track:123"]), Command::Tui);
}

#[test]
fn upgrade_takes_an_optional_version_and_a_check_flag() {
    assert_eq!(
        parse_args(&["upgrade"]),
        Command::Upgrade {
            target: None,
            check_only: false
        }
    );
    assert_eq!(
        parse_args(&["upgrade", "0.4.6"]),
        Command::Upgrade {
            target: Some("0.4.6".into()),
            check_only: false
        }
    );
    assert_eq!(
        parse_args(&["upgrade", "--check"]),
        Command::Upgrade {
            target: None,
            check_only: true
        }
    );
    assert_eq!(
        parse_args(&["upgrade", "v0.4.6", "--check"]),
        Command::Upgrade {
            target: Some("v0.4.6".into()),
            check_only: true
        }
    );
}

#[test]
fn version_and_help_have_short_forms() {
    assert_eq!(parse_args(&["--version"]), Command::Version);
    assert_eq!(parse_args(&["-V"]), Command::Version);
    assert_eq!(parse_args(&["--help"]), Command::Help);
    assert_eq!(parse_args(&["-h"]), Command::Help);
}

#[test]
fn upgrade_keeps_the_first_bare_word_and_the_short_check_flag() {
    assert_eq!(
        parse_args(&["upgrade", "-x", "1.0", "2.0", "-n"]),
        Command::Upgrade {
            target: Some("1.0".into()),
            check_only: true
        }
    );
}

#[test]
fn flags_only_count_after_upgrade() {
    assert_eq!(parse_args(&["--check", "upgrade"]), Command::Tui);
    assert_eq!(parse_args(&["--help", "upgrade"]), Command::Help);
}

#[test]
fn a_terminal_rewrites_the_line_on_every_update() {
    let mut progress = Progress::new("echo.tar.gz", true);
    for percent in [0u8, 0, 7] {
        match progress.update(percent) {
            ProgressReport::Rewrite(line) => {
                assert_eq!(line, format!("  downloading echo.tar.gz  {percent:>3}%"))
            }
            _ => panic!("a terminal rewrites"),
        }
    }
    assert!(progress.finish());
}

#[test]
fn piped_output_prints_one_line_per_decile() {
    let mut progress = Progress::new("echo.zip", false);
    let mut lines = Vec::new();
    for percent in [0u8, 5, 9, 10, 19, 55, 100] {
        if let ProgressReport::Line(line) = progress.update(percent) {
            lines.push(line);
        }
    }
    assert_eq!(
        lines,
        [
            "  downloading echo.zip    0%",
            "  downloading echo.zip   10%",
            "  downloading echo.zip   55%",
            "  downloading echo.zip  100%",
        ]
    );
    assert!(!progress.finish());
}
