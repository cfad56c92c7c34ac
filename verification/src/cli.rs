//! Argv handling for the `spotify` terminal binary, and the download progress report of its
//! `upgrade` subcommand. Anything unrecognised falls through to the player, because desktop
//! launchers and terminal emulators pass arguments through that nobody controls.

use vstd::prelude::*;

use crate::text::{
    decimal, decimal_text_width3, right_aligned, same_text, starts_with_char,
};

verus! {

/// What the binary was asked to do.
#[derive(Debug, PartialEq, Eq)]
pub enum Command {
    /// Start the player: the default for a bare invocation or unknown arguments.
    Tui,
    Version,
    Help,
    Upgrade { target: Option<String>, check_only: bool },
}

/// The arguments as character sequences.
pub open spec fn arg_views(args: Seq<String>) -> Seq<Seq<char>> {
    args.map_values(|arg: String| arg@)
}

/// `--check` or its short form `-n`.
pub open spec fn is_check_flag(arg: Seq<char>) -> bool {
    arg == "--check"@ || arg == "-n"@
}

/// A bare word: anything that does not start with `-`.
pub open spec fn is_bare(arg: Seq<char>) -> bool {
    !(arg.len() > 0 && arg[0] == '-')
}

/// The first bare word among `args`, if any.
pub open spec fn first_bare(args: Seq<Seq<char>>) -> Option<Seq<char>>
    decreases args.len(),
{
    if args.len() == 0 {
        None
    } else {
        match first_bare(args.drop_last()) {
            Some(word) => Some(word),
            None => if is_bare(args.last()) {
                Some(args.last())
            } else {
                None
            },
        }
    }
}

/// Whether any of `args` asks for a check only.
pub open spec fn has_check_flag(args: Seq<Seq<char>>) -> bool {
    exists|i: int| 0 <= i < args.len() && is_check_flag(#[trigger] args[i])
}

/// What `parse` makes of `args`, stated per command: the first argument picks the command,
/// `upgrade` takes the first bare word after it as its version and any `--check`/`-n` as a
/// request to report only, and everything else starts the player.
pub open spec fn parses_to(args: Seq<Seq<char>>, cmd: Command) -> bool {
    if args.len() == 0 {
        cmd is Tui
    } else if args[0] == "upgrade"@ {
        match cmd {
            Command::Upgrade { target, check_only } => {
                &&& check_only == has_check_flag(args.drop_first())
                &&& match target {
                    Some(t) => first_bare(args.drop_first()) == Some(t@),
                    None => first_bare(args.drop_first()) is None,
                }
            },
            _ => false,
        }
    } else if args[0] == "--version"@ || args[0] == "-V"@ {
        cmd is Version
    } else if args[0] == "--help"@ || args[0] == "-h"@ {
        cmd is Help
    } else {
        cmd is Tui
    }
}

/// Parses the arguments after the program name. Never fails: what it does not recognise
/// starts the player.
pub fn parse(args: Vec<String>) -> (cmd: Command)
    ensures
        parses_to(arg_views(args@), cmd),
{
    let ghost views = arg_views(args@);
    if args.len() == 0 {
        return Command::Tui;
    }
    let first = args[0].as_str();
    if same_text(first, "upgrade") {
        let mut target: Option<String> = None;
        let mut check_only = false;
        let mut i: usize = 1;
        while i < args.len()
            invariant
                views == arg_views(args@),
                1 <= i <= args@.len(),
                check_only == has_check_flag(views.subrange(1, i as int)),
                match target {
                    Some(t) => first_bare(views.subrange(1, i as int)) == Some(t@),
                    None => first_bare(views.subrange(1, i as int)) is None,
                },
            decreases args@.len() - i,
        {
            let ghost before = views.subrange(1, i as int);
            let ghost after = views.subrange(1, i + 1);
            proof {
                assert(after.drop_last() =~= before);
                assert(after.last() == args@[i as int]@);
                assert forall|j: int| 0 <= j < before.len() implies before[j] == after[j] by {}
            }
            let arg = args[i].as_str();
            if same_text(arg, "--check") || same_text(arg, "-n") {
                check_only = true;
                proof {
                    assert(is_check_flag(after[after.len() - 1]));
                    reveal_strlit("--check");
                    reveal_strlit("-n");
                    assert(!is_bare(after.last()));
                }
            } else {
                proof {
                    if has_check_flag(after) {
                        let j = choose|j: int| 0 <= j < after.len() && is_check_flag(#[trigger] after[j]);
                        if j < before.len() {
                            assert(is_check_flag(before[j]));
                        }
                    }
                }
                if !starts_with_char(arg, '-') && target.is_none() {
                    let word = args[i].clone();
                    proof {
                        assert(word@ == after.last());
                        assert(first_bare(after) == Some(after.last()));
                    }
                    target = Some(word);
                }
            }
            proof {
                assert(first_bare(before) is Some ==> first_bare(after) == first_bare(before));
                if check_only {
                    if has_check_flag(before) {
                        let j = choose|j: int| 0 <= j < before.len() && is_check_flag(#[trigger] before[j]);
                        assert(is_check_flag(after[j]));
                    }
                }
            }
            i = i + 1;
        }
        proof {
            assert(views.subrange(1, args@.len() as int) =~= views.drop_first());
        }
        Command::Upgrade { target, check_only }
    } else if same_text(first, "--version") || same_text(first, "-V") {
        Command::Version
    } else if same_text(first, "--help") || same_text(first, "-h") {
        Command::Help
    } else {
        Command::Tui
    }
}

/// What one progress update puts on the terminal.
pub enum ProgressReport {
    /// Rewrite the current terminal line with this text.
    Rewrite(String),
    /// Print this text as a line of its own.
    Line(String),
    /// Print nothing.
    Silent,
}

/// The download progress of `upgrade`: a single rewritten line on a terminal, one line per
/// decile when the output is piped, so logs stay readable.
pub struct Progress {
    pub asset: String,
    pub interactive: bool,
    pub last_decile: Option<u8>,
}

/// The text of one progress report: the asset's name and the percentage right-aligned in
/// three columns.
pub open spec fn progress_line(asset: Seq<char>, percent: u8) -> Seq<char> {
    "  downloading "@ + asset + "  "@ + right_aligned(decimal(percent as nat), 3) + "%"@
}

impl Progress {
    /// A progress report for downloading `asset`; `interactive` is whether the output is a
    /// terminal.
    pub fn new(asset: &str, interactive: bool) -> (progress: Progress)
        ensures
            progress.asset@ == asset@,
            progress.interactive == interactive,
            progress.last_decile is None,
    {
        Progress { asset: String::from_str(asset), interactive, last_decile: None }
    }

    /// The report for reaching `percent`. On a terminal every update rewrites the line; piped,
    /// only the first update in each decile prints, and it remembers that decile.
    pub fn update(&mut self, percent: u8) -> (report: ProgressReport)
        ensures
            final(self).asset == old(self).asset,
            final(self).interactive == old(self).interactive,
            old(self).interactive ==> {
                &&& final(self).last_decile == old(self).last_decile
                &&& report matches ProgressReport::Rewrite(line)
                    && line@ == progress_line(old(self).asset@, percent)
            },
            !old(self).interactive && old(self).last_decile == Some((percent / 10) as u8) ==> {
                &&& final(self).last_decile == old(self).last_decile
                &&& report is Silent
            },
            !old(self).interactive && old(self).last_decile != Some((percent / 10) as u8) ==> {
                &&& final(self).last_decile == Some((percent / 10) as u8)
                &&& report matches ProgressReport::Line(line)
                    && line@ == progress_line(old(self).asset@, percent)
            },
    {
        if self.interactive {
            return ProgressReport::Rewrite(self.line(percent));
        }
        let decile = percent / 10;
        let repeated = match self.last_decile {
            Some(last) => last == decile,
            None => false,
        };
        if repeated {
            ProgressReport::Silent
        } else {
            self.last_decile = Some(decile);
            ProgressReport::Line(self.line(percent))
        }
    }

    /// Whether finishing must end the rewritten line with a newline: only on a terminal.
    pub fn finish(&self) -> (newline: bool)
        ensures
            newline == self.interactive,
    {
        self.interactive
    }

    fn line(&self, percent: u8) -> (line: String)
        ensures
            line@ == progress_line(self.asset@, percent),
    {
        let mut line = String::from_str("  downloading ");
        line.append(self.asset.as_str());
        line.append("  ");
        let digits = decimal_text_width3(percent as u32);
        line.append(digits.as_str());
        line.append("%");
        line
    }
}

/// What `upgrade` does once it knows the release it would install.
#[derive(Clone, Copy, Debug, PartialEq, Eq, Structural)]
pub enum UpgradeDecision {
    /// A development build has nothing to upgrade to; nothing is fetched and it is no error.
    DevelopmentBuild,
    /// `--check`: report that a newer release exists, change nothing.
    ReportAvailable,
    /// `--check`: report that the installed version is current, change nothing.
    ReportUpToDate,
    /// No version was asked for and the latest is not newer: nothing to do.
    UpToDate,
    /// Download and install the release.
    Install,
}

/// What `upgrade` decides.
pub open spec fn upgrade_decision_spec(dev_build: bool, explicit_target: bool, check_only: bool, newer: bool) -> UpgradeDecision {
    if dev_build {
        UpgradeDecision::DevelopmentBuild
    } else if check_only {
        if newer { UpgradeDecision::ReportAvailable } else { UpgradeDecision::ReportUpToDate }
    } else if !explicit_target && !newer {
        UpgradeDecision::UpToDate
    } else {
        UpgradeDecision::Install
    }
}

/// The decision `upgrade` makes. `dev_build` is whether this is a working-tree build,
/// `explicit_target` whether a version was named on the command line, and `newer` whether the
/// release's version is newer than the installed one. A named version is installed even when
/// it is older, so a bad release can be rolled back; without one, only a newer release is.
pub fn upgrade_decision(dev_build: bool, explicit_target: bool, check_only: bool, newer: bool) -> (decision: UpgradeDecision)
    ensures
        decision == upgrade_decision_spec(dev_build, explicit_target, check_only, newer),
{
    if dev_build {
        UpgradeDecision::DevelopmentBuild
    } else if check_only {
        if newer {
            UpgradeDecision::ReportAvailable
        } else {
            UpgradeDecision::ReportUpToDate
        }
    } else if !explicit_target && !newer {
        UpgradeDecision::UpToDate
    } else {
        UpgradeDecision::Install
    }
}

/// How many terminal emulators are tried, in order, when no `TERMINAL` is set or it fails.
pub const TERMINAL_COUNT: usize = 11;

/// The known terminal emulators with the arguments that make them run a command, in the
/// order they are tried.
pub open spec fn known_terminals() -> Seq<Seq<Seq<char>>> {
    seq![
        seq!["x-terminal-emulator"@, "-e"@],
        seq!["gnome-terminal"@, "--"@],
        seq!["konsole"@, "-e"@],
        seq!["xfce4-terminal"@, "-e"@],
        seq!["mate-terminal"@, "-e"@],
        seq!["ghostty"@, "-e"@],
        seq!["alacritty"@, "-e"@],
        seq!["kitty"@, "--"@],
        seq!["wezterm"@, "start"@, "--"@],
        seq!["terminator"@, "-e"@],
        seq!["xterm"@, "-e"@],
    ]
}

/// The launcher words of known terminal `ix`.
fn known_terminal(ix: usize) -> (words: Vec<&'static str>)
    requires
        ix < TERMINAL_COUNT,
    ensures
        words@.map_values(|w: &str| w@) == known_terminals()[ix as int],
{
    let words = match ix {
        0 => vec!["x-terminal-emulator", "-e"],
        1 => vec!["gnome-terminal", "--"],
        2 => vec!["konsole", "-e"],
        3 => vec!["xfce4-terminal", "-e"],
        4 => vec!["mate-terminal", "-e"],
        5 => vec!["ghostty", "-e"],
        6 => vec!["alacritty", "-e"],
        7 => vec!["kitty", "--"],
        8 => vec!["wezterm", "start", "--"],
        9 => vec!["terminator", "-e"],
        _ => vec!["xterm", "-e"],
    };
    proof {
        assert(words@.map_values(|w: &str| w@) =~= known_terminals()[ix as int]);
    }
    words
}

/// The texts of a command line.
pub open spec fn argv_texts(argv: Seq<String>) -> Seq<Seq<char>> {
    argv.map_values(|word: String| word@)
}

/// The command lines to try, in order, to run `exe` with `args` inside a terminal emulator:
/// the user's `TERMINAL` with `-e` first when it is set, then every known emulator.
pub open spec fn terminal_plan(terminal: Option<Seq<char>>, exe: Seq<char>, args: Seq<Seq<char>>) -> Seq<Seq<Seq<char>>> {
    let known = known_terminals().map_values(|launcher: Seq<Seq<char>>| launcher + seq![exe] + args);
    match terminal {
        Some(term) => seq![seq![term, "-e"@, exe] + args] + known,
        None => known,
    }
}

/// Appends `exe` and `args` to `argv`.
fn push_command(argv: &mut Vec<String>, exe: &str, args: &Vec<String>)
    ensures
        argv_texts(final(argv)@) == argv_texts(old(argv)@) + seq![exe@] + argv_texts(args@),
{
    let ghost start = argv_texts(argv@);
    argv.push(String::from_str(exe));
    let mut i: usize = 0;
    while i < args.len()
        invariant
            i <= args@.len(),
            argv_texts(argv@) == start + seq![exe@] + argv_texts(args@).take(i as int),
        decreases args@.len() - i,
    {
        let ghost before = argv_texts(argv@);
        argv.push(args[i].clone());
        proof {
            assert(argv_texts(argv@) =~= before.push(args@[i as int]@));
            assert(argv_texts(args@).take(i + 1) =~= argv_texts(args@).take(i as int).push(args@[i as int]@));
        }
        i = i + 1;
    }
    proof {
        assert(argv_texts(args@).take(args@.len() as int) =~= argv_texts(args@));
    }
}

/// The command lines that relaunch the player inside a terminal emulator when it was started
/// without one, in the order to try them until one spawns. `terminal` is the `TERMINAL`
/// environment variable, `exe` the player's own path and `args` its arguments.
pub fn terminal_commands(terminal: Option<&str>, exe: &str, args: &Vec<String>) -> (plan: Vec<Vec<String>>)
    ensures
        plan@.map_values(|argv: Vec<String>| argv_texts(argv@)) == terminal_plan(
            match terminal {
                Some(t) => Some(t@),
                None => None,
            },
            exe@,
            argv_texts(args@),
        ),
{
    let ghost known = known_terminals().map_values(
        |launcher: Seq<Seq<char>>| launcher + seq![exe@] + argv_texts(args@),
    );
    let mut plan: Vec<Vec<String>> = Vec::new();
    match terminal {
        Some(term) => {
            let mut argv: Vec<String> = Vec::new();
            argv.push(String::from_str(term));
            argv.push(String::from_str("-e"));
            proof {
                assert(argv_texts(argv@) =~= seq![term@, "-e"@]);
            }
            push_command(&mut argv, exe, args);
            proof {
                assert(argv_texts(argv@) =~= seq![term@, "-e"@, exe@] + argv_texts(args@));
            }
            plan.push(argv);
        },
        None => {},
    }
    let ghost lead = plan@.map_values(|argv: Vec<String>| argv_texts(argv@));
    proof {
        match terminal {
            Some(t) => assert(lead =~= seq![seq![t@, "-e"@, exe@] + argv_texts(args@)]),
            None => assert(lead =~= Seq::<Seq<Seq<char>>>::empty()),
        }
    }
    assert(known.len() == TERMINAL_COUNT);
    let mut ix: usize = 0;
    while ix < TERMINAL_COUNT
        invariant
            known.len() == TERMINAL_COUNT,
            known == known_terminals().map_values(
                |launcher: Seq<Seq<char>>| launcher + seq![exe@] + argv_texts(args@),
            ),
            ix <= TERMINAL_COUNT,
            plan@.map_values(|argv: Vec<String>| argv_texts(argv@)) == lead + known.take(ix as int),
        decreases TERMINAL_COUNT - ix,
    {
        let words = known_terminal(ix);
        let mut argv: Vec<String> = Vec::new();
        let mut w: usize = 0;
        while w < words.len()
            invariant
                w <= words@.len(),
                argv_texts(argv@) == words@.map_values(|x: &str| x@).take(w as int),
            decreases words@.len() - w,
        {
            argv.push(String::from_str(words[w]));
            proof {
                assert(words@.map_values(|x: &str| x@).take(w + 1)
                    =~= words@.map_values(|x: &str| x@).take(w as int).push(words@[w as int]@));
            }
            w = w + 1;
        }
        proof {
            assert(words@.map_values(|x: &str| x@).take(words@.len() as int) =~= words@.map_values(|x: &str| x@));
        }
        push_command(&mut argv, exe, args);
        proof {
            assert(argv_texts(argv@) =~= known[ix as int]);
        }
        let ghost before = plan@.map_values(|a: Vec<String>| argv_texts(a@));
        plan.push(argv);
        proof {
            assert(plan@.map_values(|a: Vec<String>| argv_texts(a@)) =~= before.push(known[ix as int]));
            assert(known.take(ix + 1) =~= known.take(ix as int).push(known[ix as int]));
        }
        ix = ix + 1;
    }
    proof {
        assert(known.take(TERMINAL_COUNT as int) =~= known);
    }
    plan
}

/// A development build never fetches or installs anything; `--check` only reports; a release
/// is installed exactly when it is newer or was named explicitly (so naming an older version
/// rolls back), and otherwise the installed version is reported current.
pub proof fn lemma_upgrade_decisions(dev_build: bool, explicit_target: bool, check_only: bool, newer: bool)
    ensures
        ({
            let d = upgrade_decision_spec(dev_build, explicit_target, check_only, newer);
            &&& dev_build <==> d == UpgradeDecision::DevelopmentBuild
            &&& !dev_build && check_only ==> (d == UpgradeDecision::ReportAvailable <==> newer) && d
                != UpgradeDecision::Install
            &&& (d == UpgradeDecision::Install) <==> (!dev_build && !check_only && (newer || explicit_target))
            &&& (d == UpgradeDecision::UpToDate) <==> (!dev_build && !check_only && !newer && !explicit_target)
        }),
{
}

/// Only `upgrade`, `--version`/`-V` and `--help`/`-h` as the first argument pick a command;
/// anything else, and no argument at all, starts the player, and `upgrade` never does.
pub proof fn lemma_parse_picks_by_first_argument(args: Seq<Seq<char>>, cmd: Command)
    requires
        parses_to(args, cmd),
    ensures
        args.len() == 0 ==> cmd is Tui,
        args.len() > 0 && args[0] == "upgrade"@ ==> cmd is Upgrade,
        (cmd is Version) ==> args.len() > 0 && (args[0] == "--version"@ || args[0] == "-V"@),
        (cmd is Help) ==> args.len() > 0 && (args[0] == "--help"@ || args[0] == "-h"@),
        (cmd is Upgrade) ==> args.len() > 0 && args[0] == "upgrade"@,
{
}

} // verus!
