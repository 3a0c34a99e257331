//! Command-line parsing of the run modes and of render options.

use vstd::prelude::*;
use crate::config::{ColormapType, ScaleMode};
use crate::overrides::{
    parse_override, override_refusal, override_spec, ConfigOverride, OverrideError,
};
use crate::run_dir::RunOptions;
use crate::text::{str_eq, to_owned_string};

verus! {

/// Parsed command line of the `run`, `gui`, `demo` and legacy modes.
#[derive(Debug)]
pub struct CliArgs {
    pub config_path: Option<String>,
    pub batch_mode: bool,
    pub output_dir: String,
    pub run_opts: RunOptions,
    pub overrides: Vec<ConfigOverride>,
}

/// Why a command line was not turned into [`CliArgs`].
#[derive(Debug)]
pub enum CliError {
    /// `--help` / `-h` was given: print the usage and exit successfully.
    Help,
    /// `--set` was the last argument.
    SetMissingValue,
    /// A `--set` argument was refused.
    BadOverride(OverrideError),
    /// Unknown colormap name (or none given).
    UnknownColormap(Option<String>),
    /// Unknown scale name (or none given).
    UnknownScale(Option<String>),
    /// Unknown `init` preset.
    UnknownInitPreset(String),
    /// The command needs a positional argument (a deck or a directory) and
    /// none was given.
    MissingPositional,
    /// `--counts` wants `raw` or `processed`; holds what was given.
    UnknownCountsKind(Option<String>),
    /// The hits-file render path was used without `--hits`.
    MissingHits,
    /// A hits-file render with neither `--meta` nor both detector sizes.
    MissingDetectorGeometry,
}

/// Which options a mode understands; the others fall through to the
/// positional/ignore arms.
#[derive(Debug, Clone, Copy, PartialEq, Eq)]
pub struct ArgSyntax {
    /// `--batch` / `-b`
    pub batch: bool,
    /// `--help` / `-h`
    pub help: bool,
    /// `--overwrite`, `--resume`, `--set key=value`
    pub run: bool,
}

/// Abstract content of [`CliArgs`].
pub struct ArgView {
    pub config_path: Option<Seq<char>>,
    pub batch: bool,
    pub output: Seq<char>,
    pub overwrite: bool,
    pub resume: bool,
    pub overrides: Seq<(Seq<char>, Seq<char>)>,
}

/// Where a scan of the arguments ends.
pub enum ScanEnd {
    Parsed(ArgView),
    Help,
    SetMissingValue,
    BadOverride(Seq<char>),
}

pub open spec fn opt_view(o: Option<String>) -> Option<Seq<char>> {
    match o {
        Some(s) => Some(s@),
        None => None,
    }
}

pub open spec fn args_view(argv: Seq<String>) -> Seq<Seq<char>> {
    argv.map_values(|s: String| s@)
}

pub open spec fn overrides_view(ovs: Seq<ConfigOverride>) -> Seq<(Seq<char>, Seq<char>)> {
    ovs.map_values(|o: ConfigOverride| o.pair())
}

impl CliArgs {
    pub open spec fn view_args(&self) -> ArgView {
        ArgView {
            config_path: opt_view(self.config_path),
            batch: self.batch_mode,
            output: self.output_dir@,
            overwrite: self.run_opts.overwrite,
            resume: self.run_opts.resume,
            overrides: overrides_view(self.overrides@),
        }
    }
}

/// The state before any argument: no deck, output to `output`.
pub open spec fn initial_args() -> ArgView {
    ArgView {
        config_path: None,
        batch: false,
        output: "output"@,
        overwrite: false,
        resume: false,
        overrides: Seq::empty(),
    }
}

/// An argument that looks like an option.
pub open spec fn is_option(a: Seq<char>) -> bool {
    a.len() > 0 && a[0] == '-'
}

/// The arguments from position `i` on, applied to `st`.
pub open spec fn scan_args(argv: Seq<Seq<char>>, syn: ArgSyntax, i: int, st: ArgView) -> ScanEnd
    decreases argv.len() - i,
{
    if i < 0 || i >= argv.len() {
        ScanEnd::Parsed(st)
    } else {
        let a = argv[i];
        if syn.batch && (a == "--batch"@ || a == "-b"@) {
            scan_args(argv, syn, i + 1, ArgView { batch: true, ..st })
        } else if a == "-o"@ || a == "--output"@ {
            if i + 1 < argv.len() {
                scan_args(argv, syn, i + 2, ArgView { output: argv[i + 1], ..st })
            } else {
                ScanEnd::Parsed(st)
            }
        } else if syn.help && (a == "--help"@ || a == "-h"@) {
            ScanEnd::Help
        } else if syn.run && a == "--overwrite"@ {
            scan_args(argv, syn, i + 1, ArgView { overwrite: true, ..st })
        } else if syn.run && a == "--resume"@ {
            scan_args(argv, syn, i + 1, ArgView { resume: true, ..st })
        } else if syn.run && a == "--set"@ {
            if i + 1 < argv.len() {
                match override_spec(argv[i + 1]) {
                    Some(p) => scan_args(
                        argv,
                        syn,
                        i + 2,
                        ArgView { overrides: st.overrides.push(p), ..st },
                    ),
                    None => ScanEnd::BadOverride(argv[i + 1]),
                }
            } else {
                ScanEnd::SetMissingValue
            }
        } else if !is_option(a) && st.config_path is None {
            scan_args(argv, syn, i + 1, ArgView { config_path: Some(a), ..st })
        } else {
            scan_args(argv, syn, i + 1, st)
        }
    }
}

/// Without `--help` and `--set` a scan always succeeds.
pub proof fn lemma_scan_plain(argv: Seq<Seq<char>>, syn: ArgSyntax, i: int, st: ArgView)
    requires
        !syn.help,
        !syn.run,
    ensures
        scan_args(argv, syn, i, st) is Parsed,
    decreases argv.len() - i,
{
    if 0 <= i < argv.len() {
        let a = argv[i];
        if syn.batch && (a == "--batch"@ || a == "-b"@) {
            lemma_scan_plain(argv, syn, i + 1, ArgView { batch: true, ..st });
        } else if a == "-o"@ || a == "--output"@ {
            if i + 1 < argv.len() {
                lemma_scan_plain(argv, syn, i + 2, ArgView { output: argv[i + 1], ..st });
            }
        } else if !is_option(a) && st.config_path is None {
            lemma_scan_plain(argv, syn, i + 1, ArgView { config_path: Some(a), ..st });
        } else {
            lemma_scan_plain(argv, syn, i + 1, st);
        }
    }
}

fn is_option_str(a: &str) -> (r: bool)
    ensures
        r == is_option(a@),
{
    a.unicode_len() > 0 && a.get_char(0) == '-'
}

/// Scans the arguments with the options `syn` enables.
pub fn scan_cli_args(argv: &Vec<String>, syn: ArgSyntax) -> (r: Result<CliArgs, CliError>)
    ensures
        match scan_args(args_view(argv@), syn, 0, initial_args()) {
            ScanEnd::Parsed(v) => r matches Ok(a) && a.view_args() == v,
            ScanEnd::Help => r matches Err(CliError::Help),
            ScanEnd::SetMissingValue => r matches Err(CliError::SetMissingValue),
            ScanEnd::BadOverride(x) => r matches Err(CliError::BadOverride(e)) && override_refusal(
                e,
                x,
            ),
        },
{
    let ghost av = args_view(argv@);
    let mut args = CliArgs {
        config_path: None,
        batch_mode: false,
        output_dir: to_owned_string("output"),
        run_opts: RunOptions { overwrite: false, resume: false },
        overrides: Vec::new(),
    };
    assert(args.view_args().overrides =~= Seq::<(Seq<char>, Seq<char>)>::empty());
    assert(args.view_args() == initial_args());
    let n = argv.len();
    let mut i: usize = 0;
    while i < n
        invariant
            n == argv@.len(),
            av == args_view(argv@),
            av.len() == n,
            scan_args(av, syn, 0, initial_args()) == scan_args(av, syn, i as int, args.view_args()),
        decreases n - i,
    {
        let a = argv[i].as_str();
        assert(av[i as int] == a@);
        let ghost before = args.view_args();
        if syn.batch && (str_eq(a, "--batch") || str_eq(a, "-b")) {
            args.batch_mode = true;
            assert(args.view_args() == ArgView { batch: true, ..before });
            i = i + 1;
        } else if str_eq(a, "-o") || str_eq(a, "--output") {
            if i + 1 < n {
                args.output_dir = to_owned_string(argv[i + 1].as_str());
                assert(av[i + 1] == argv@[i + 1]@);
                assert(args.view_args() == ArgView { output: av[i + 1], ..before });
            }
            i = if i + 1 < n { i + 2 } else { n };
        } else if syn.help && (str_eq(a, "--help") || str_eq(a, "-h")) {
            return Err(CliError::Help);
        } else if syn.run && str_eq(a, "--overwrite") {
            args.run_opts.overwrite = true;
            assert(args.view_args() == ArgView { overwrite: true, ..before });
            i = i + 1;
        } else if syn.run && str_eq(a, "--resume") {
            args.run_opts.resume = true;
            assert(args.view_args() == ArgView { resume: true, ..before });
            i = i + 1;
        } else if syn.run && str_eq(a, "--set") {
            if i + 1 < n {
                assert(av[i + 1] == argv@[i + 1]@);
                match parse_override(argv[i + 1].as_str()) {
                    Ok(ov) => {
                        let ghost p = ov.pair();
                        args.overrides.push(ov);
                        assert(overrides_view(args.overrides@) =~= before.overrides.push(p));
                        assert(args.view_args() == ArgView {
                            overrides: before.overrides.push(p),
                            ..before
                        });
                        i = i + 2;
                    },
                    Err(e) => {
                        return Err(CliError::BadOverride(e));
                    },
                }
            } else {
                return Err(CliError::SetMissingValue);
            }
        } else if !is_option_str(a) && args.config_path.is_none() {
            args.config_path = Some(to_owned_string(a));
            assert(args.view_args() == ArgView { config_path: Some(a@), ..before });
            i = i + 1;
        } else {
            i = i + 1;
        }
    }
    Ok(args)
}

/// Options of the `run` mode.
pub open spec fn run_syntax() -> ArgSyntax {
    ArgSyntax { batch: false, help: false, run: true }
}

/// Options of the `gui` mode.
pub open spec fn gui_syntax() -> ArgSyntax {
    ArgSyntax { batch: false, help: false, run: false }
}

/// Options of the `demo` mode.
pub open spec fn demo_syntax() -> ArgSyntax {
    ArgSyntax { batch: true, help: false, run: false }
}

/// Options of the legacy `proton_tracer [config] [--batch] [-o dir]` form.
pub open spec fn legacy_syntax() -> ArgSyntax {
    ArgSyntax { batch: true, help: true, run: false }
}

impl CliArgs {
    /// Parses legacy-style args: `proton_tracer [config] [--batch] [-o dir]`.
    pub fn parse_legacy(argv: &Vec<String>) -> (r: Result<CliArgs, CliError>)
        ensures
            match scan_args(args_view(argv@), legacy_syntax(), 0, initial_args()) {
                ScanEnd::Parsed(v) => r matches Ok(a) && a.view_args() == v,
                _ => r matches Err(CliError::Help),
            },
    {
        let r = scan_cli_args(argv, ArgSyntax { batch: true, help: true, run: false });
        proof {
            lemma_scan_no_set(args_view(argv@), legacy_syntax(), 0, initial_args());
        }
        r
    }
}

/// Without `--set` a scan ends parsed or at `--help`.
pub proof fn lemma_scan_no_set(argv: Seq<Seq<char>>, syn: ArgSyntax, i: int, st: ArgView)
    requires
        !syn.run,
    ensures
        scan_args(argv, syn, i, st) is Parsed || scan_args(argv, syn, i, st) is Help,
    decreases argv.len() - i,
{
    if 0 <= i < argv.len() {
        let a = argv[i];
        if syn.batch && (a == "--batch"@ || a == "-b"@) {
            lemma_scan_no_set(argv, syn, i + 1, ArgView { batch: true, ..st });
        } else if a == "-o"@ || a == "--output"@ {
            if i + 1 < argv.len() {
                lemma_scan_no_set(argv, syn, i + 2, ArgView { output: argv[i + 1], ..st });
            }
        } else if syn.help && (a == "--help"@ || a == "-h"@) {
        } else if !is_option(a) && st.config_path is None {
            lemma_scan_no_set(argv, syn, i + 1, ArgView { config_path: Some(a), ..st });
        } else {
            lemma_scan_no_set(argv, syn, i + 1, st);
        }
    }
}

/// `run <deck> [-o dir] [--overwrite] [--resume] [--set key=value ...]`;
/// always a batch run.
pub fn parse_run_args(argv: &Vec<String>) -> (r: Result<CliArgs, CliError>)
    ensures
        match scan_args(args_view(argv@), run_syntax(), 0, initial_args()) {
            ScanEnd::Parsed(v) => r matches Ok(a) && a.view_args() == (ArgView { batch: true, ..v }),
            ScanEnd::Help => false,
            ScanEnd::SetMissingValue => r matches Err(CliError::SetMissingValue),
            ScanEnd::BadOverride(x) => r matches Err(CliError::BadOverride(e)) && override_refusal(
                e,
                x,
            ),
        },
{
    let r = scan_cli_args(argv, ArgSyntax { batch: false, help: false, run: true });
    proof {
        lemma_scan_no_help(args_view(argv@), run_syntax(), 0, initial_args());
    }
    match r {
        Ok(mut a) => {
            a.batch_mode = true;
            Ok(a)
        },
        Err(e) => Err(e),
    }
}

/// Without `--help` a scan never ends at help.
pub proof fn lemma_scan_no_help(argv: Seq<Seq<char>>, syn: ArgSyntax, i: int, st: ArgView)
    requires
        !syn.help,
    ensures
        !(scan_args(argv, syn, i, st) is Help),
    decreases argv.len() - i,
{
    if 0 <= i < argv.len() {
        let a = argv[i];
        if syn.batch && (a == "--batch"@ || a == "-b"@) {
            lemma_scan_no_help(argv, syn, i + 1, ArgView { batch: true, ..st });
        } else if a == "-o"@ || a == "--output"@ {
            if i + 1 < argv.len() {
                lemma_scan_no_help(argv, syn, i + 2, ArgView { output: argv[i + 1], ..st });
            }
        } else if syn.run && a == "--overwrite"@ {
            lemma_scan_no_help(argv, syn, i + 1, ArgView { overwrite: true, ..st });
        } else if syn.run && a == "--resume"@ {
            lemma_scan_no_help(argv, syn, i + 1, ArgView { resume: true, ..st });
        } else if syn.run && a == "--set"@ {
            if i + 1 < argv.len() {
                match override_spec(argv[i + 1]) {
                    Some(p) => lemma_scan_no_help(
                        argv,
                        syn,
                        i + 2,
                        ArgView { overrides: st.overrides.push(p), ..st },
                    ),
                    None => {},
                }
            }
        } else if !is_option(a) && st.config_path is None {
            lemma_scan_no_help(argv, syn, i + 1, ArgView { config_path: Some(a), ..st });
        } else {
            lemma_scan_no_help(argv, syn, i + 1, st);
        }
    }
}

/// `gui [deck] [-o dir]`.
pub fn parse_gui_args(argv: &Vec<String>) -> (r: CliArgs)
    ensures
        scan_args(args_view(argv@), gui_syntax(), 0, initial_args()) == ScanEnd::Parsed(
            r.view_args(),
        ),
{
    proof {
        lemma_scan_plain(args_view(argv@), gui_syntax(), 0, initial_args());
    }
    match scan_cli_args(argv, ArgSyntax { batch: false, help: false, run: false }) {
        Ok(a) => a,
        Err(_) => {
            proof {
                assert(false);
            }
            CliArgs {
                config_path: None,
                batch_mode: false,
                output_dir: String::new(),
                run_opts: RunOptions { overwrite: false, resume: false },
                overrides: Vec::new(),
            }
        },
    }
}

/// Deck of each demo preset name.
pub open spec fn demo_path(preset: Seq<char>) -> Option<Seq<char>> {
    if preset == "zpinch"@ || preset == "z-pinch"@ {
        Some("data/instabilities/zpinch.json"@)
    } else if preset == "sausage-weak"@ {
        Some("data/instabilities/sausage_weak.json"@)
    } else if preset == "sausage-strong"@ {
        Some("data/instabilities/sausage_strong.json"@)
    } else if preset == "kink-weak"@ {
        Some("data/instabilities/kink_weak.json"@)
    } else if preset == "kink-strong"@ {
        Some("data/instabilities/kink_strong.json"@)
    } else if preset == "mixed"@ {
        Some("data/instabilities/mixed.json"@)
    } else {
        None
    }
}

/// Deck of a demo preset name, if it is one.
pub fn demo_preset_path(preset: &str) -> (r: Option<String>)
    ensures
        opt_view(r) == demo_path(preset@),
{
    let p: &str = if str_eq(preset, "zpinch") || str_eq(preset, "z-pinch") {
        "data/instabilities/zpinch.json"
    } else if str_eq(preset, "sausage-weak") {
        "data/instabilities/sausage_weak.json"
    } else if str_eq(preset, "sausage-strong") {
        "data/instabilities/sausage_strong.json"
    } else if str_eq(preset, "kink-weak") {
        "data/instabilities/kink_weak.json"
    } else if str_eq(preset, "kink-strong") {
        "data/instabilities/kink_strong.json"
    } else if str_eq(preset, "mixed") {
        "data/instabilities/mixed.json"
    } else {
        return None;
    };
    Some(to_owned_string(p))
}

/// The demo arguments with the preset name replaced by its deck.
pub open spec fn demo_view(v: ArgView) -> ArgView {
    ArgView {
        config_path: match v.config_path {
            Some(p) => demo_path(p),
            None => None,
        },
        ..v
    }
}

/// `demo [preset] [--batch] [-o dir]`: the positional argument names a demo
/// preset, whose deck becomes the config path.
pub fn parse_demo_args(argv: &Vec<String>) -> (r: CliArgs)
    ensures
        scan_args(args_view(argv@), demo_syntax(), 0, initial_args()) matches ScanEnd::Parsed(v)
            && r.view_args() == demo_view(v),
{
    proof {
        lemma_scan_plain(args_view(argv@), demo_syntax(), 0, initial_args());
    }
    match scan_cli_args(argv, ArgSyntax { batch: true, help: false, run: false }) {
        Ok(mut a) => {
            let path = match &a.config_path {
                Some(preset) => demo_preset_path(preset.as_str()),
                None => None,
            };
            a.config_path = path;
            a
        },
        Err(_) => {
            proof {
                assert(false);
            }
            CliArgs {
                config_path: None,
                batch_mode: false,
                output_dir: String::new(),
                run_opts: RunOptions { overwrite: false, resume: false },
                overrides: Vec::new(),
            }
        },
    }
}

// ── Render options ───────────────────────────────────────────────────────────

/// Colormap named by a render option.
pub open spec fn colormap_of(s: Seq<char>) -> Option<ColormapType> {
    if s == "rcf"@ || s == "rcf_film"@ {
        Some(ColormapType::RcfFilm)
    } else if s == "scientific"@ {
        Some(ColormapType::Scientific)
    } else if s == "grayscale"@ {
        Some(ColormapType::Grayscale)
    } else if s == "hot"@ {
        Some(ColormapType::Hot)
    } else if s == "inverted"@ {
        Some(ColormapType::Inverted)
    } else {
        None
    }
}

/// Name recorded for each colormap.
pub open spec fn colormap_name(c: ColormapType) -> Seq<char> {
    match c {
        ColormapType::RcfFilm => "rcf_film"@,
        ColormapType::Scientific => "scientific"@,
        ColormapType::Grayscale => "grayscale"@,
        ColormapType::Hot => "hot"@,
        ColormapType::Inverted => "inverted"@,
    }
}

/// Scale named by a render option.
pub open spec fn scale_of(s: Seq<char>) -> Option<ScaleMode> {
    if s == "linear"@ {
        Some(ScaleMode::Linear)
    } else if s == "log"@ {
        Some(ScaleMode::Log)
    } else if s == "sqrt"@ {
        Some(ScaleMode::Sqrt)
    } else {
        None
    }
}

/// Name recorded for each scale.
pub open spec fn scale_name(m: ScaleMode) -> Seq<char> {
    match m {
        ScaleMode::Linear => "linear"@,
        ScaleMode::Log => "log"@,
        ScaleMode::Sqrt => "sqrt"@,
    }
}

fn opt_string(s: Option<&str>) -> (r: Option<String>)
    ensures
        match s {
            Some(x) => r matches Some(y) && y@ == x@,
            None => r is None,
        },
{
    match s {
        Some(x) => Some(to_owned_string(x)),
        None => None,
    }
}

/// Parses a `--colormap` value (`rcf`, `rcf_film`, `scientific`, `grayscale`,
/// `hot`, `inverted`).
pub fn parse_colormap(s: Option<&str>) -> (r: Result<ColormapType, CliError>)
    ensures
        match s {
            Some(x) => match colormap_of(x@) {
                Some(c) => r == Ok::<ColormapType, CliError>(c),
                None => r matches Err(CliError::UnknownColormap(Some(y))) && y@ == x@,
            },
            None => r matches Err(CliError::UnknownColormap(None)),
        },
{
    if let Some(x) = s {
        if str_eq(x, "rcf") || str_eq(x, "rcf_film") {
            return Ok(ColormapType::RcfFilm);
        } else if str_eq(x, "scientific") {
            return Ok(ColormapType::Scientific);
        } else if str_eq(x, "grayscale") {
            return Ok(ColormapType::Grayscale);
        } else if str_eq(x, "hot") {
            return Ok(ColormapType::Hot);
        } else if str_eq(x, "inverted") {
            return Ok(ColormapType::Inverted);
        }
    }
    Err(CliError::UnknownColormap(opt_string(s)))
}

/// Parses a `--scale` value (`linear`, `log`, `sqrt`).
pub fn parse_scale(s: Option<&str>) -> (r: Result<ScaleMode, CliError>)
    ensures
        match s {
            Some(x) => match scale_of(x@) {
                Some(m) => r == Ok::<ScaleMode, CliError>(m),
                None => r matches Err(CliError::UnknownScale(Some(y))) && y@ == x@,
            },
            None => r matches Err(CliError::UnknownScale(None)),
        },
{
    if let Some(x) = s {
        if str_eq(x, "linear") {
            return Ok(ScaleMode::Linear);
        } else if str_eq(x, "log") {
            return Ok(ScaleMode::Log);
        } else if str_eq(x, "sqrt") {
            return Ok(ScaleMode::Sqrt);
        }
    }
    Err(CliError::UnknownScale(opt_string(s)))
}

/// Name under which a colormap is recorded.
pub fn colormap_to_str(c: ColormapType) -> (r: &'static str)
    ensures
        r@ == colormap_name(c),
{
    match c {
        ColormapType::RcfFilm => "rcf_film",
        ColormapType::Scientific => "scientific",
        ColormapType::Grayscale => "grayscale",
        ColormapType::Hot => "hot",
        ColormapType::Inverted => "inverted",
    }
}

/// Name under which a scale is recorded.
pub fn scale_to_str(m: ScaleMode) -> (r: &'static str)
    ensures
        r@ == scale_name(m),
{
    match m {
        ScaleMode::Linear => "linear",
        ScaleMode::Log => "log",
        ScaleMode::Sqrt => "sqrt",
    }
}

/// Law: a recorded colormap name parses back to the same colormap, so a
/// re-render reproduces the stored choice.
pub proof fn law_colormap_name_roundtrip(c: ColormapType)
    ensures
        colormap_of(colormap_name(c)) == Some(c),
{
    match c {
        ColormapType::RcfFilm => {
            reveal_strlit("rcf");
            reveal_strlit("rcf_film");
            assert("rcf_film"@.len() != "rcf"@.len());
        },
        ColormapType::Scientific => {
            reveal_strlit("rcf");
            reveal_strlit("rcf_film");
            reveal_strlit("scientific");
            assert("scientific"@.len() != "rcf"@.len());
            assert("scientific"@.len() != "rcf_film"@.len());
        },
        ColormapType::Grayscale => {
            reveal_strlit("rcf");
            reveal_strlit("rcf_film");
            reveal_strlit("scientific");
            reveal_strlit("grayscale");
            assert("grayscale"@.len() != "rcf"@.len());
            assert("grayscale"@.len() != "rcf_film"@.len());
            assert("grayscale"@.len() != "scientific"@.len());
        },
        ColormapType::Hot => {
            reveal_strlit("rcf");
            reveal_strlit("rcf_film");
            reveal_strlit("scientific");
            reveal_strlit("grayscale");
            reveal_strlit("hot");
            assert("hot"@[0] != "rcf"@[0]);
            assert("hot"@.len() != "rcf_film"@.len());
            assert("hot"@.len() != "scientific"@.len());
            assert("hot"@.len() != "grayscale"@.len());
        },
        ColormapType::Inverted => {
            reveal_strlit("rcf");
            reveal_strlit("rcf_film");
            reveal_strlit("scientific");
            reveal_strlit("grayscale");
            reveal_strlit("hot");
            reveal_strlit("inverted");
            assert("inverted"@.len() != "rcf"@.len());
            assert("inverted"@[0] != "rcf_film"@[0]);
            assert("inverted"@.len() != "scientific"@.len());
            assert("inverted"@.len() != "grayscale"@.len());
            assert("inverted"@.len() != "hot"@.len());
        },
    }
}

/// Law: a recorded scale name parses back to the same scale.
pub proof fn law_scale_name_roundtrip(m: ScaleMode)
    ensures
        scale_of(scale_name(m)) == Some(m),
{
    match m {
        ScaleMode::Linear => {
            reveal_strlit("linear");
        },
        ScaleMode::Log => {
            reveal_strlit("linear");
            reveal_strlit("log");
            assert("log"@.len() != "linear"@.len());
        },
        ScaleMode::Sqrt => {
            reveal_strlit("linear");
            reveal_strlit("log");
            reveal_strlit("sqrt");
            assert("sqrt"@.len() != "linear"@.len());
            assert("sqrt"@.len() != "log"@.len());
        },
    }
}

// ── `init` presets ───────────────────────────────────────────────────────────

/// Deck templates that `init` can emit.
#[derive(Debug, Clone, Copy, PartialEq, Eq)]
pub enum DeckTemplate {
    Blank,
    ZPinch,
    KinkStrong,
}

/// Template of each `init` preset name.
pub open spec fn template_of(preset: Seq<char>) -> Option<DeckTemplate> {
    if preset == "blank"@ {
        Some(DeckTemplate::Blank)
    } else if preset == "zpinch"@ {
        Some(DeckTemplate::ZPinch)
    } else if preset == "kink-strong"@ {
        Some(DeckTemplate::KinkStrong)
    } else {
        None
    }
}

/// The template for `init [preset]`; without a preset, the blank deck.
pub fn init_template(preset: Option<&str>) -> (r: Result<DeckTemplate, CliError>)
    ensures
        match preset {
            None => r == Ok::<DeckTemplate, CliError>(DeckTemplate::Blank),
            Some(p) => match template_of(p@) {
                Some(t) => r == Ok::<DeckTemplate, CliError>(t),
                None => r matches Err(CliError::UnknownInitPreset(q)) && q@ == p@,
            },
        },
{
    match preset {
        None => Ok(DeckTemplate::Blank),
        Some(p) => {
            if str_eq(p, "blank") {
                Ok(DeckTemplate::Blank)
            } else if str_eq(p, "zpinch") {
                Ok(DeckTemplate::ZPinch)
            } else if str_eq(p, "kink-strong") {
                Ok(DeckTemplate::KinkStrong)
            } else {
                Err(CliError::UnknownInitPreset(to_owned_string(p)))
            }
        },
    }
}

/// The preset name of each deck template.
pub open spec fn template_name(t: DeckTemplate) -> Seq<char> {
    match t {
        DeckTemplate::Blank => "blank"@,
        DeckTemplate::ZPinch => "zpinch"@,
        DeckTemplate::KinkStrong => "kink-strong"@,
    }
}

/// Law: a preset name selects a template exactly when it is that template's
/// own name (`blank`, `zpinch`, `kink-strong`).
pub proof fn law_template_names(preset: Seq<char>, t: DeckTemplate)
    ensures
        template_of(preset) == Some(t) <==> preset == template_name(t),
{
    reveal_strlit("blank");
    reveal_strlit("zpinch");
    reveal_strlit("kink-strong");
    assert("zpinch"@.len() != "blank"@.len());
    assert("kink-strong"@.len() != "blank"@.len());
    assert("kink-strong"@.len() != "zpinch"@.len());
}

} // verus!
