//! Subcommand selection and the argument scans of the subcommands that run
//! without a GPU (`init`, `validate`, `explain`, `inspect`, `analyze`).

use vstd::prelude::*;
use crate::cli::{args_view, is_option, CliError};
use crate::overrides::{parse_override, override_refusal, override_spec, ConfigOverride};
use crate::text::{str_eq, to_owned_string};

verus! {

/// What a command line asks for, by its first argument.
#[derive(Debug, Clone, Copy, PartialEq, Eq)]
pub enum Mode {
    Render,
    Init,
    Validate,
    Explain,
    Inspect,
    Sweep,
    Analyze,
    Run,
    Gui,
    Demo,
    /// No subcommand: `proton_tracer [config] [--batch] [-o dir]`.
    Legacy,
}

/// The mode a subcommand word selects.
pub open spec fn mode_of(word: Option<Seq<char>>) -> Mode {
    match word {
        None => Mode::Legacy,
        Some(w) => if w == "render"@ {
            Mode::Render
        } else if w == "init"@ {
            Mode::Init
        } else if w == "validate"@ {
            Mode::Validate
        } else if w == "explain"@ {
            Mode::Explain
        } else if w == "inspect"@ {
            Mode::Inspect
        } else if w == "sweep"@ {
            Mode::Sweep
        } else if w == "analyze"@ {
            Mode::Analyze
        } else if w == "run"@ {
            Mode::Run
        } else if w == "gui"@ {
            Mode::Gui
        } else if w == "demo"@ {
            Mode::Demo
        } else {
            Mode::Legacy
        },
    }
}

impl Mode {
    /// The modes that trace particles on the GPU: `run`, `gui`, `demo` and
    /// the bare form.
    pub open spec fn needs_gpu(self) -> bool {
        self is Run || self is Gui || self is Demo || self is Legacy
    }

    /// Whether the mode opens a window or a Vulkan device.
    pub fn uses_gpu(self) -> (r: bool)
        ensures
            r == self.needs_gpu(),
    {
        match self {
            Mode::Run | Mode::Gui | Mode::Demo | Mode::Legacy => true,
            _ => false,
        }
    }
}

/// The argument at position `j`, if there is one.
pub open spec fn opt_at(argv: Seq<Seq<char>>, j: int) -> Option<Seq<char>> {
    if 0 <= j < argv.len() {
        Some(argv[j])
    } else {
        None
    }
}

fn arg_at(argv: &Vec<String>, j: usize) -> (r: Option<String>)
    ensures
        match opt_at(args_view(argv@), j as int) {
            Some(a) => r matches Some(s) && s@ == a,
            None => r is None,
        },
{
    if j < argv.len() {
        Some(to_owned_string(argv[j].as_str()))
    } else {
        None
    }
}

fn is_option_str(a: &str) -> (r: bool)
    ensures
        r == is_option(a@),
{
    a.unicode_len() > 0 && a.get_char(0) == '-'
}

/// Which mode `argv` (program name first) selects: its second word.
pub fn select_mode(argv: &Vec<String>) -> (r: Mode)
    ensures
        r == mode_of(opt_at(args_view(argv@), 1)),
{
    if argv.len() < 2 {
        return Mode::Legacy;
    }
    let w = argv[1].as_str();
    if str_eq(w, "render") {
        Mode::Render
    } else if str_eq(w, "init") {
        Mode::Init
    } else if str_eq(w, "validate") {
        Mode::Validate
    } else if str_eq(w, "explain") {
        Mode::Explain
    } else if str_eq(w, "inspect") {
        Mode::Inspect
    } else if str_eq(w, "sweep") {
        Mode::Sweep
    } else if str_eq(w, "analyze") {
        Mode::Analyze
    } else if str_eq(w, "run") {
        Mode::Run
    } else if str_eq(w, "gui") {
        Mode::Gui
    } else if str_eq(w, "demo") {
        Mode::Demo
    } else {
        Mode::Legacy
    }
}

// ── `init [preset] [-o file]` ────────────────────────────────────────────────

/// Parsed `init` arguments.
#[derive(Debug)]
pub struct InitArgs {
    pub preset: Option<String>,
    pub out_path: Option<String>,
}

/// Abstract content of [`InitArgs`].
pub struct InitView {
    pub preset: Option<Seq<char>>,
    pub out: Option<Seq<char>>,
}

impl InitArgs {
    pub open spec fn view_init(&self) -> InitView {
        InitView { preset: crate::cli::opt_view(self.preset), out: crate::cli::opt_view(self.out_path) }
    }
}

/// The `init` arguments from position `i` on; `None` when `--help` is met.
/// `-o` takes the next argument (none when it is last); the first positional
/// argument is the preset; anything else is ignored.
pub open spec fn init_scan(argv: Seq<Seq<char>>, i: int, st: InitView) -> Option<InitView>
    decreases argv.len() - i,
{
    if i < 0 || i >= argv.len() {
        Some(st)
    } else {
        let a = argv[i];
        if a == "-o"@ || a == "--output"@ {
            if i + 1 < argv.len() {
                init_scan(argv, i + 2, InitView { out: Some(argv[i + 1]), ..st })
            } else {
                Some(InitView { out: None, ..st })
            }
        } else if a == "--help"@ || a == "-h"@ {
            None
        } else if !is_option(a) && st.preset is None {
            init_scan(argv, i + 1, InitView { preset: Some(a), ..st })
        } else {
            init_scan(argv, i + 1, st)
        }
    }
}

/// `init [preset] [-o output.toml]`; `Err(Help)` for `--help`.
pub fn parse_init_args(argv: &Vec<String>) -> (r: Result<InitArgs, CliError>)
    ensures
        match init_scan(args_view(argv@), 0, InitView { preset: None, out: None }) {
            Some(v) => r matches Ok(a) && a.view_init() == v,
            None => r matches Err(CliError::Help),
        },
{
    let ghost av = args_view(argv@);
    let mut args = InitArgs { preset: None, out_path: None };
    let n = argv.len();
    let mut i: usize = 0;
    while i < n
        invariant
            n == argv@.len(),
            av == args_view(argv@),
            av.len() == n,
            init_scan(av, 0, InitView { preset: None, out: None }) == init_scan(
                av,
                i as int,
                args.view_init(),
            ),
        decreases n - i,
    {
        let a = argv[i].as_str();
        assert(av[i as int] == a@);
        let ghost before = args.view_init();
        if str_eq(a, "-o") || str_eq(a, "--output") {
            args.out_path = arg_at(argv, i + 1);
            assert(args.view_init() == InitView { out: opt_at(av, i + 1), ..before });
            i = if i + 1 < n {
                i + 2
            } else {
                n
            };
        } else if str_eq(a, "--help") || str_eq(a, "-h") {
            return Err(CliError::Help);
        } else if !is_option_str(a) && args.preset.is_none() {
            args.preset = Some(to_owned_string(a));
            assert(args.view_init() == InitView { preset: Some(a@), ..before });
            i = i + 1;
        } else {
            i = i + 1;
        }
    }
    Ok(args)
}

// ── `validate <deck>` and `explain <deck> [-o dir]` ──────────────────────────

/// Parsed `validate` / `explain` arguments.
#[derive(Debug)]
pub struct DeckArgs {
    pub deck_path: String,
    pub out_dir: Option<String>,
    pub overrides: Vec<ConfigOverride>,
}

/// Abstract state of a deck-argument scan.
pub struct DeckArgView {
    pub deck: Option<Seq<char>>,
    pub out: Option<Seq<char>>,
    pub overrides: Seq<(Seq<char>, Seq<char>)>,
}

/// Where a deck-argument scan ends.
pub enum DeckScan {
    Parsed(DeckArgView),
    /// A `--set` value was refused; holds it.
    BadOverride(Seq<char>),
}

/// The deck arguments from position `i` on. `--set` takes the next argument
/// as an override (nothing happens when it is last); with `with_out`, `-o`
/// takes the next argument as the output directory; the first positional
/// argument is the deck; anything else is ignored.
pub open spec fn deck_scan(argv: Seq<Seq<char>>, with_out: bool, i: int, st: DeckArgView) -> DeckScan
    decreases argv.len() - i,
{
    if i < 0 || i >= argv.len() {
        DeckScan::Parsed(st)
    } else {
        let a = argv[i];
        if with_out && (a == "-o"@ || a == "--output"@) {
            if i + 1 < argv.len() {
                deck_scan(argv, with_out, i + 2, DeckArgView { out: Some(argv[i + 1]), ..st })
            } else {
                DeckScan::Parsed(DeckArgView { out: None, ..st })
            }
        } else if a == "--set"@ {
            if i + 1 < argv.len() {
                match override_spec(argv[i + 1]) {
                    Some(p) => deck_scan(
                        argv,
                        with_out,
                        i + 2,
                        DeckArgView { overrides: st.overrides.push(p), ..st },
                    ),
                    None => DeckScan::BadOverride(argv[i + 1]),
                }
            } else {
                DeckScan::Parsed(st)
            }
        } else if !is_option(a) && st.deck is None {
            deck_scan(argv, with_out, i + 1, DeckArgView { deck: Some(a), ..st })
        } else {
            deck_scan(argv, with_out, i + 1, st)
        }
    }
}

/// The state before any deck argument.
pub open spec fn no_deck_args() -> DeckArgView {
    DeckArgView { deck: None, out: None, overrides: Seq::empty() }
}

impl DeckArgs {
    pub open spec fn view_deck(&self) -> DeckArgView {
        DeckArgView {
            deck: Some(self.deck_path@),
            out: crate::cli::opt_view(self.out_dir),
            overrides: crate::cli::overrides_view(self.overrides@),
        }
    }
}

/// What a parse of deck arguments promises for the scan `s`.
pub open spec fn deck_args_result(s: DeckScan, r: Result<DeckArgs, CliError>) -> bool {
    match s {
        DeckScan::Parsed(v) => match v.deck {
            Some(_) => r matches Ok(a) && a.view_deck() == v,
            None => r matches Err(CliError::MissingPositional),
        },
        DeckScan::BadOverride(x) => r matches Err(CliError::BadOverride(e)) && override_refusal(e, x),
    }
}

fn parse_deck_args(argv: &Vec<String>, with_out: bool) -> (r: Result<DeckArgs, CliError>)
    ensures
        deck_args_result(deck_scan(args_view(argv@), with_out, 0, no_deck_args()), r),
{
    let ghost av = args_view(argv@);
    let mut deck: Option<String> = None;
    let mut out_dir: Option<String> = None;
    let mut overrides: Vec<ConfigOverride> = Vec::new();
    let n = argv.len();
    let mut i: usize = 0;
    assert(crate::cli::overrides_view(overrides@) =~= Seq::<(Seq<char>, Seq<char>)>::empty());
    while i < n
        invariant
            n == argv@.len(),
            av == args_view(argv@),
            av.len() == n,
            deck_scan(av, with_out, 0, no_deck_args()) == deck_scan(
                av,
                with_out,
                i as int,
                DeckArgView {
                    deck: crate::cli::opt_view(deck),
                    out: crate::cli::opt_view(out_dir),
                    overrides: crate::cli::overrides_view(overrides@),
                },
            ),
        decreases n - i,
    {
        let a = argv[i].as_str();
        assert(av[i as int] == a@);
        let ghost before = DeckArgView {
            deck: crate::cli::opt_view(deck),
            out: crate::cli::opt_view(out_dir),
            overrides: crate::cli::overrides_view(overrides@),
        };
        if with_out && (str_eq(a, "-o") || str_eq(a, "--output")) {
            out_dir = arg_at(argv, i + 1);
            assert(crate::cli::opt_view(out_dir) == opt_at(av, i + 1));
            i = if i + 1 < n {
                i + 2
            } else {
                n
            };
        } else if str_eq(a, "--set") {
            if i + 1 < n {
                assert(av[i + 1] == argv@[i + 1]@);
                match parse_override(argv[i + 1].as_str()) {
                    Ok(ov) => {
                        let ghost p = ov.pair();
                        overrides.push(ov);
                        assert(crate::cli::overrides_view(overrides@) =~= before.overrides.push(p));
                        i = i + 2;
                    },
                    Err(e) => {
                        return Err(CliError::BadOverride(e));
                    },
                }
            } else {
                i = n;
            }
        } else if !is_option_str(a) && deck.is_none() {
            deck = Some(to_owned_string(a));
            i = i + 1;
        } else {
            i = i + 1;
        }
    }
    match deck {
        Some(d) => Ok(DeckArgs { deck_path: d, out_dir, overrides }),
        None => Err(CliError::MissingPositional),
    }
}

/// `validate <deck.toml> [--set key=value ...]`.
pub fn parse_validate_args(argv: &Vec<String>) -> (r: Result<DeckArgs, CliError>)
    ensures
        deck_args_result(deck_scan(args_view(argv@), false, 0, no_deck_args()), r),
{
    parse_deck_args(argv, false)
}

/// `explain <deck.toml> [-o run_dir] [--set key=value ...]`.
pub fn parse_explain_args(argv: &Vec<String>) -> (r: Result<DeckArgs, CliError>)
    ensures
        deck_args_result(deck_scan(args_view(argv@), true, 0, no_deck_args()), r),
{
    parse_deck_args(argv, true)
}

// ── `inspect <dir>` and `analyze <run_dir> [--raw]` ──────────────────────────

/// The first argument from position `i` on that is not an option.
pub open spec fn first_positional(argv: Seq<Seq<char>>, i: int) -> Option<Seq<char>>
    decreases argv.len() - i,
{
    if i < 0 || i >= argv.len() {
        None
    } else if !is_option(argv[i]) {
        Some(argv[i])
    } else {
        first_positional(argv, i + 1)
    }
}

/// `inspect <run_dir|sweep_dir>`: the first argument that is not an option.
pub fn parse_inspect_args(argv: &Vec<String>) -> (r: Result<String, CliError>)
    ensures
        match first_positional(args_view(argv@), 0) {
            Some(p) => r matches Ok(s) && s@ == p,
            None => r matches Err(CliError::MissingPositional),
        },
{
    let ghost av = args_view(argv@);
    let n = argv.len();
    let mut i: usize = 0;
    while i < n
        invariant
            n == argv@.len(),
            av == args_view(argv@),
            av.len() == n,
            first_positional(av, 0) == first_positional(av, i as int),
        decreases n - i,
    {
        let a = argv[i].as_str();
        assert(av[i as int] == a@);
        if !is_option_str(a) {
            return Ok(to_owned_string(a));
        }
        i = i + 1;
    }
    Err(CliError::MissingPositional)
}

/// Parsed `analyze` arguments.
#[derive(Debug)]
pub struct AnalyzeArgs {
    pub run_dir: String,
    /// Read the raw integer counts rather than the processed ones.
    pub use_raw: bool,
}

/// The `analyze` arguments from position `i` on, as (directory, raw); `None`
/// when `--help` is met.
pub open spec fn analyze_scan(argv: Seq<Seq<char>>, i: int, dir: Option<Seq<char>>, raw: bool) -> Option<
    (Option<Seq<char>>, bool),
>
    decreases argv.len() - i,
{
    if i < 0 || i >= argv.len() {
        Some((dir, raw))
    } else {
        let a = argv[i];
        if a == "--raw"@ {
            analyze_scan(argv, i + 1, dir, true)
        } else if a == "--help"@ || a == "-h"@ {
            None
        } else if !is_option(a) && dir is None {
            analyze_scan(argv, i + 1, Some(a), raw)
        } else {
            analyze_scan(argv, i + 1, dir, raw)
        }
    }
}

/// `analyze <run_dir> [--raw]`; `Err(Help)` for `--help`.
pub fn parse_analyze_args(argv: &Vec<String>) -> (r: Result<AnalyzeArgs, CliError>)
    ensures
        match analyze_scan(args_view(argv@), 0, None, false) {
            None => r matches Err(CliError::Help),
            Some((None, _)) => r matches Err(CliError::MissingPositional),
            Some((Some(d), raw)) => r matches Ok(a) && a.run_dir@ == d && a.use_raw == raw,
        },
{
    let ghost av = args_view(argv@);
    let mut dir: Option<String> = None;
    let mut raw = false;
    let n = argv.len();
    let mut i: usize = 0;
    while i < n
        invariant
            n == argv@.len(),
            av == args_view(argv@),
            av.len() == n,
            analyze_scan(av, 0, None, false) == analyze_scan(
                av,
                i as int,
                crate::cli::opt_view(dir),
                raw,
            ),
        decreases n - i,
    {
        let a = argv[i].as_str();
        assert(av[i as int] == a@);
        if str_eq(a, "--raw") {
            raw = true;
        } else if str_eq(a, "--help") || str_eq(a, "-h") {
            return Err(CliError::Help);
        } else if !is_option_str(a) && dir.is_none() {
            dir = Some(to_owned_string(a));
        }
        i = i + 1;
    }
    match dir {
        Some(d) => Ok(AnalyzeArgs { run_dir: d, use_raw: raw }),
        None => Err(CliError::MissingPositional),
    }
}

/// The subcommand word of each mode; the bare form has none.
pub open spec fn mode_word(m: Mode) -> Option<Seq<char>> {
    match m {
        Mode::Render => Some("render"@),
        Mode::Init => Some("init"@),
        Mode::Validate => Some("validate"@),
        Mode::Explain => Some("explain"@),
        Mode::Inspect => Some("inspect"@),
        Mode::Sweep => Some("sweep"@),
        Mode::Analyze => Some("analyze"@),
        Mode::Run => Some("run"@),
        Mode::Gui => Some("gui"@),
        Mode::Demo => Some("demo"@),
        Mode::Legacy => None,
    }
}

/// Law: a subcommand word selects a mode exactly when it is that mode's own
/// word (`render`, `init`, `validate`, `explain`, `inspect`, `sweep`,
/// `analyze`, `run`, `gui`, `demo`); any other word, or none, leaves the bare
/// form.
pub proof fn law_mode_words(w: Seq<char>, m: Mode)
    ensures
        m != Mode::Legacy ==> (mode_of(Some(w)) == m <==> mode_word(m) == Some(w)),
        mode_of(None) == Mode::Legacy,
{
    reveal_strlit("render");
    reveal_strlit("init");
    reveal_strlit("validate");
    reveal_strlit("explain");
    reveal_strlit("inspect");
    reveal_strlit("sweep");
    reveal_strlit("analyze");
    reveal_strlit("run");
    reveal_strlit("gui");
    reveal_strlit("demo");
    assert("init"@.len() != "render"@.len());
    assert("validate"@.len() != "render"@.len());
    assert("validate"@.len() != "init"@.len());
    assert("explain"@.len() != "render"@.len());
    assert("explain"@.len() != "init"@.len());
    assert("explain"@.len() != "validate"@.len());
    assert("inspect"@.len() != "render"@.len());
    assert("inspect"@.len() != "init"@.len());
    assert("inspect"@.len() != "validate"@.len());
    assert("inspect"@[0] != "explain"@[0]);
    assert("sweep"@.len() != "render"@.len());
    assert("sweep"@.len() != "init"@.len());
    assert("sweep"@.len() != "validate"@.len());
    assert("sweep"@.len() != "explain"@.len());
    assert("sweep"@.len() != "inspect"@.len());
    assert("analyze"@.len() != "render"@.len());
    assert("analyze"@.len() != "init"@.len());
    assert("analyze"@.len() != "validate"@.len());
    assert("analyze"@[0] != "explain"@[0]);
    assert("analyze"@[0] != "inspect"@[0]);
    assert("analyze"@.len() != "sweep"@.len());
    assert("run"@.len() != "render"@.len());
    assert("run"@.len() != "init"@.len());
    assert("run"@.len() != "validate"@.len());
    assert("run"@.len() != "explain"@.len());
    assert("run"@.len() != "inspect"@.len());
    assert("run"@.len() != "sweep"@.len());
    assert("run"@.len() != "analyze"@.len());
    assert("gui"@.len() != "render"@.len());
    assert("gui"@.len() != "init"@.len());
    assert("gui"@.len() != "validate"@.len());
    assert("gui"@.len() != "explain"@.len());
    assert("gui"@.len() != "inspect"@.len());
    assert("gui"@.len() != "sweep"@.len());
    assert("gui"@.len() != "analyze"@.len());
    assert("gui"@[0] != "run"@[0]);
    assert("demo"@.len() != "render"@.len());
    assert("demo"@[0] != "init"@[0]);
    assert("demo"@.len() != "validate"@.len());
    assert("demo"@.len() != "explain"@.len());
    assert("demo"@.len() != "inspect"@.len());
    assert("demo"@.len() != "sweep"@.len());
    assert("demo"@.len() != "analyze"@.len());
    assert("demo"@.len() != "run"@.len());
    assert("demo"@.len() != "gui"@.len());
}

} // verus!
