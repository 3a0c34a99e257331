//! Arguments of the `render` subcommand, the choice of render settings, and the
//! columns of a hit table.
//!
//! Real-valued options (gamma, exposure, blur, background, detector size) are
//! kept as the text given; they are read as floating-point numbers where they
//! are used.

use vstd::prelude::*;
use crate::cli::{
    args_view, colormap_of, opt_view, parse_colormap, parse_scale, scale_of, CliError,
};
use crate::commands::opt_at;
use crate::config::{ColormapType, ScaleMode};
use crate::text::{
    parse_unsigned, parse_unsigned_str, split_on, split_str, str_eq, strings_view, to_owned_string,
    trim, trim_str,
};

verus! {

fn arg_str<'a>(argv: &'a Vec<String>, j: usize) -> (r: Option<&'a str>)
    ensures
        match opt_at(args_view(argv@), j as int) {
            Some(a) => r matches Some(s) && s@ == a,
            None => r is None,
        },
{
    if j < argv.len() {
        Some(argv[j].as_str())
    } else {
        None
    }
}

fn owned(s: Option<&str>) -> (r: Option<String>)
    ensures
        opt_view(r) == (match s {
            Some(x) => Some(x@),
            None => None::<Seq<char>>,
        }),
{
    match s {
        Some(x) => Some(to_owned_string(x)),
        None => None,
    }
}

// ── `render <run_dir> [options]` ─────────────────────────────────────────────

/// Parsed options of a render from a run directory.
#[derive(Debug)]
pub struct RunDirRenderArgs {
    pub colormap: Option<ColormapType>,
    pub scale: Option<ScaleMode>,
    /// Text after the last `--gamma`.
    pub gamma: Option<String>,
    /// Text after the last `--exposure`.
    pub exposure: Option<String>,
    pub out_path: Option<String>,
    /// Render the raw integer counts rather than the processed ones.
    pub use_raw: bool,
}

/// Abstract content of [`RunDirRenderArgs`].
pub struct RenderView {
    pub colormap: Option<ColormapType>,
    pub scale: Option<ScaleMode>,
    pub gamma: Option<Seq<char>>,
    pub exposure: Option<Seq<char>>,
    pub out: Option<Seq<char>>,
    pub raw: bool,
}

impl RunDirRenderArgs {
    pub open spec fn view_render(&self) -> RenderView {
        RenderView {
            colormap: self.colormap,
            scale: self.scale,
            gamma: opt_view(self.gamma),
            exposure: opt_view(self.exposure),
            out: opt_view(self.out_path),
            raw: self.use_raw,
        }
    }
}

/// Where a scan of run-directory render options ends.
pub enum RenderScan {
    Parsed(RenderView),
    BadColormap(Option<Seq<char>>),
    BadScale(Option<Seq<char>>),
    BadCounts(Option<Seq<char>>),
}

/// The counts file a `--counts` value names: `true` for raw.
pub open spec fn counts_kind_of(s: Seq<char>) -> Option<bool> {
    if s == "raw"@ {
        Some(true)
    } else if s == "processed"@ {
        Some(false)
    } else {
        None
    }
}

/// The state before any render option.
pub open spec fn no_render_options() -> RenderView {
    RenderView { colormap: None, scale: None, gamma: None, exposure: None, out: None, raw: false }
}

/// The run-directory render options from position `i` on. Each option takes
/// the next argument (none when it is last); unknown arguments are ignored.
pub open spec fn render_scan(argv: Seq<Seq<char>>, i: int, st: RenderView) -> RenderScan
    decreases argv.len() - i,
{
    if i < 0 || i >= argv.len() {
        RenderScan::Parsed(st)
    } else {
        let a = argv[i];
        let last = i + 1 >= argv.len();
        if a == "--colormap"@ || a == "-c"@ {
            if last {
                RenderScan::BadColormap(None)
            } else {
                match colormap_of(argv[i + 1]) {
                    Some(c) => render_scan(argv, i + 2, RenderView { colormap: Some(c), ..st }),
                    None => RenderScan::BadColormap(Some(argv[i + 1])),
                }
            }
        } else if a == "--scale"@ || a == "-s"@ {
            if last {
                RenderScan::BadScale(None)
            } else {
                match scale_of(argv[i + 1]) {
                    Some(m) => render_scan(argv, i + 2, RenderView { scale: Some(m), ..st }),
                    None => RenderScan::BadScale(Some(argv[i + 1])),
                }
            }
        } else if a == "--gamma"@ {
            if last {
                RenderScan::Parsed(RenderView { gamma: None, ..st })
            } else {
                render_scan(argv, i + 2, RenderView { gamma: Some(argv[i + 1]), ..st })
            }
        } else if a == "--exposure"@ {
            if last {
                RenderScan::Parsed(RenderView { exposure: None, ..st })
            } else {
                render_scan(argv, i + 2, RenderView { exposure: Some(argv[i + 1]), ..st })
            }
        } else if a == "-o"@ || a == "--out"@ {
            if last {
                RenderScan::Parsed(RenderView { out: None, ..st })
            } else {
                render_scan(argv, i + 2, RenderView { out: Some(argv[i + 1]), ..st })
            }
        } else if a == "--counts"@ {
            if last {
                RenderScan::BadCounts(None)
            } else {
                match counts_kind_of(argv[i + 1]) {
                    Some(b) => render_scan(argv, i + 2, RenderView { raw: b, ..st }),
                    None => RenderScan::BadCounts(Some(argv[i + 1])),
                }
            }
        } else {
            render_scan(argv, i + 1, st)
        }
    }
}

/// What a parse of run-directory render options promises for the scan `s`.
pub open spec fn render_args_result(s: RenderScan, r: Result<RunDirRenderArgs, CliError>) -> bool {
    match s {
        RenderScan::Parsed(v) => r matches Ok(a) && a.view_render() == v,
        RenderScan::BadColormap(x) => r matches Err(CliError::UnknownColormap(y)) && opt_view(y)
            == x,
        RenderScan::BadScale(x) => r matches Err(CliError::UnknownScale(y)) && opt_view(y) == x,
        RenderScan::BadCounts(x) => r matches Err(CliError::UnknownCountsKind(y)) && opt_view(y)
            == x,
    }
}

/// Options of `render <run_dir>`: `--colormap`/`-c`, `--scale`/`-s`,
/// `--gamma`, `--exposure`, `-o`/`--out`, `--counts raw|processed`.
pub fn parse_run_dir_render_args(argv: &Vec<String>) -> (r: Result<RunDirRenderArgs, CliError>)
    ensures
        render_args_result(render_scan(args_view(argv@), 0, no_render_options()), r),
{
    let ghost av = args_view(argv@);
    let mut args = RunDirRenderArgs {
        colormap: None,
        scale: None,
        gamma: None,
        exposure: None,
        out_path: None,
        use_raw: false,
    };
    let n = argv.len();
    let mut i: usize = 0;
    while i < n
        invariant
            n == argv@.len(),
            av == args_view(argv@),
            av.len() == n,
            render_scan(av, 0, no_render_options()) == render_scan(av, i as int, args.view_render()),
        decreases n - i,
    {
        let a = argv[i].as_str();
        assert(av[i as int] == a@);
        let ghost before = args.view_render();
        let next = arg_str(argv, i + 1);
        let step: usize = if i + 1 < n {
            2
        } else {
            1
        };
        if str_eq(a, "--colormap") || str_eq(a, "-c") {
            match parse_colormap(next) {
                Ok(c) => {
                    args.colormap = Some(c);
                },
                Err(e) => {
                    return Err(e);
                },
            }
        } else if str_eq(a, "--scale") || str_eq(a, "-s") {
            match parse_scale(next) {
                Ok(m) => {
                    args.scale = Some(m);
                },
                Err(e) => {
                    return Err(e);
                },
            }
        } else if str_eq(a, "--gamma") {
            args.gamma = owned(next);
        } else if str_eq(a, "--exposure") {
            args.exposure = owned(next);
        } else if str_eq(a, "-o") || str_eq(a, "--out") {
            args.out_path = owned(next);
        } else if str_eq(a, "--counts") {
            let ok = match next {
                Some(x) => if str_eq(x, "raw") {
                    args.use_raw = true;
                    true
                } else if str_eq(x, "processed") {
                    args.use_raw = false;
                    true
                } else {
                    false
                },
                None => false,
            };
            if !ok {
                return Err(CliError::UnknownCountsKind(owned(next)));
            }
        } else {
            i = i + 1;
            continue ;
        }
        i = if i + 1 < n {
            i + 2
        } else {
            n
        };
    }
    Ok(args)
}

/// The arguments of a run-directory render with every copy of the directory
/// argument taken out.
pub open spec fn without(argv: Seq<Seq<char>>, x: Seq<char>) -> Seq<Seq<char>> {
    argv.filter(|a: Seq<char>| a != x)
}

/// `argv` without the arguments equal to `x`, in order.
pub fn strip_arg(argv: &Vec<String>, x: &str) -> (r: Vec<String>)
    ensures
        args_view(r@) == without(args_view(argv@), x@),
{
    let ghost av = args_view(argv@);
    let mut out: Vec<String> = Vec::new();
    let n = argv.len();
    let mut i: usize = 0;
    assert(av.take(0).filter(|a: Seq<char>| a != x@) =~= Seq::<Seq<char>>::empty());
    assert(args_view(out@) =~= Seq::<Seq<char>>::empty());
    while i < n
        invariant
            n == argv@.len(),
            av == args_view(argv@),
            av.len() == n,
            i <= n,
            args_view(out@) == av.take(i as int).filter(|a: Seq<char>| a != x@),
        decreases n - i,
    {
        let a = argv[i].as_str();
        assert(av[i as int] == a@);
        let ghost before = out@;
        assert(av.take(i + 1) =~= av.take(i as int).push(a@));
        proof {
            av.take(i as int).lemma_filter_push(a@, |b: Seq<char>| b != x@);
        }
        if !str_eq(a, x) {
            out.push(to_owned_string(a));
            assert(args_view(out@) =~= args_view(before).push(a@));
        }
        i = i + 1;
    }
    assert(av.take(n as int) =~= av);
    out
}

// ── Choice of render settings ────────────────────────────────────────────────

/// The colormap of a re-render: the option if given, else the recorded one if
/// it names a colormap, else RCF film.
pub open spec fn chosen_colormap(arg: Option<ColormapType>, stored: Option<Seq<char>>) -> ColormapType {
    match arg {
        Some(c) => c,
        None => match stored {
            Some(s) => match colormap_of(s) {
                Some(c) => c,
                None => ColormapType::RcfFilm,
            },
            None => ColormapType::RcfFilm,
        },
    }
}

/// The scale of a re-render: the option if given, else the recorded one if it
/// names a scale, else logarithmic.
pub open spec fn chosen_scale(arg: Option<ScaleMode>, stored: Option<Seq<char>>) -> ScaleMode {
    match arg {
        Some(m) => m,
        None => match stored {
            Some(s) => match scale_of(s) {
                Some(m) => m,
                None => ScaleMode::Log,
            },
            None => ScaleMode::Log,
        },
    }
}

/// Picks the colormap: option, then recorded name, then RCF film.
pub fn choose_colormap(arg: Option<ColormapType>, stored: Option<&str>) -> (r: ColormapType)
    ensures
        r == chosen_colormap(
            arg,
            match stored {
                Some(s) => Some(s@),
                None => None,
            },
        ),
{
    match arg {
        Some(c) => c,
        None => match parse_colormap(stored) {
            Ok(c) => c,
            Err(_) => ColormapType::RcfFilm,
        },
    }
}

/// Picks the scale: option, then recorded name, then logarithmic.
pub fn choose_scale(arg: Option<ScaleMode>, stored: Option<&str>) -> (r: ScaleMode)
    ensures
        r == chosen_scale(
            arg,
            match stored {
                Some(s) => Some(s@),
                None => None,
            },
        ),
{
    match arg {
        Some(m) => m,
        None => match parse_scale(stored) {
            Ok(m) => m,
            Err(_) => ScaleMode::Log,
        },
    }
}

} // verus!

verus! {

// ── `render --hits hits.csv [options]` ───────────────────────────────────────

/// Parsed options of a render from a hit table.
#[derive(Debug)]
pub struct HitsRenderArgs {
    pub hits_path: String,
    pub meta_path: Option<String>,
    pub out_path: Option<String>,
    /// Text after the last `--detector-width-mm`.
    pub detector_width_mm: Option<String>,
    /// Text after the last `--detector-height-mm`.
    pub detector_height_mm: Option<String>,
    pub colormap: ColormapType,
    pub scale: ScaleMode,
    /// Every `--gamma` value in order; the last one that reads as a number wins.
    pub gamma: Vec<String>,
    /// Every `--exposure` value in order; the last one that reads as a number wins.
    pub exposure: Vec<String>,
    /// Every `--blur-sigma-um` value in order; the last number wins.
    pub blur_sigma_um: Vec<String>,
    /// Every `--background` value in order; the last number wins.
    pub background: Vec<String>,
    pub width: Option<u32>,
    pub height: Option<u32>,
    pub poisson_noise: bool,
    pub noise_seed: Option<u64>,
}

/// Abstract state of a hit-table render scan.
pub struct HitsView {
    pub hits: Option<Seq<char>>,
    pub meta: Option<Seq<char>>,
    pub out: Option<Seq<char>>,
    pub det_w: Option<Seq<char>>,
    pub det_h: Option<Seq<char>>,
    pub colormap: ColormapType,
    pub scale: ScaleMode,
    pub gamma: Seq<Seq<char>>,
    pub exposure: Seq<Seq<char>>,
    pub blur: Seq<Seq<char>>,
    pub background: Seq<Seq<char>>,
    pub width: Option<u32>,
    pub height: Option<u32>,
    pub poisson: bool,
    pub seed: Option<u64>,
}

impl HitsRenderArgs {
    pub open spec fn view_hits(&self) -> HitsView {
        HitsView {
            hits: Some(self.hits_path@),
            meta: opt_view(self.meta_path),
            out: opt_view(self.out_path),
            det_w: opt_view(self.detector_width_mm),
            det_h: opt_view(self.detector_height_mm),
            colormap: self.colormap,
            scale: self.scale,
            gamma: strings_view(self.gamma@),
            exposure: strings_view(self.exposure@),
            blur: strings_view(self.blur_sigma_um@),
            background: strings_view(self.background@),
            width: self.width,
            height: self.height,
            poisson: self.poisson_noise,
            seed: self.noise_seed,
        }
    }
}

/// Colormap names of the hit-table render (no `rcf` short form).
pub open spec fn hits_colormap_of(s: Seq<char>) -> Option<ColormapType> {
    if s == "rcf_film"@ {
        Some(ColormapType::RcfFilm)
    } else if s == "scientific"@ {
        Some(ColormapType::Scientific)
    } else if s == "grayscale"@ {
        Some(ColormapType::Grayscale)
    } else if s == "hot"@ {
        Some(ColormapType::Hot)
    } else if s == "inverted"@ {
        Some(ColormapType::Inverted)
    } else {
        None
    }
}

/// A `u32` option value: `None` when absent or not a `u32`.
pub open spec fn u32_value(s: Seq<char>) -> Option<u32> {
    match parse_unsigned(s, u32::MAX as nat) {
        Some(v) => Some(v as u32),
        None => None,
    }
}

/// A `u64` option value: `None` when absent or not a `u64`.
pub open spec fn u64_value(s: Seq<char>) -> Option<u64> {
    match parse_unsigned(s, u64::MAX as nat) {
        Some(v) => Some(v as u64),
        None => None,
    }
}

/// Where a scan of hit-table render options ends.
pub enum HitsScan {
    Parsed(HitsView),
    Help,
    BadColormap(Option<Seq<char>>),
    BadScale(Option<Seq<char>>),
}

/// The state before any hit-table render option: RCF film, logarithmic.
pub open spec fn no_hits_options() -> HitsView {
    HitsView {
        hits: None,
        meta: None,
        out: None,
        det_w: None,
        det_h: None,
        colormap: ColormapType::RcfFilm,
        scale: ScaleMode::Log,
        gamma: Seq::empty(),
        exposure: Seq::empty(),
        blur: Seq::empty(),
        background: Seq::empty(),
        width: None,
        height: None,
        poisson: false,
        seed: None,
    }
}

/// Effect of an option that takes a value, `v` (`None` when it is last).
pub open spec fn hits_option(a: Seq<char>, v: Option<Seq<char>>, st: HitsView) -> HitsView {
    if a == "--hits"@ {
        HitsView { hits: v, ..st }
    } else if a == "--meta"@ {
        HitsView { meta: v, ..st }
    } else if a == "--out"@ {
        HitsView { out: v, ..st }
    } else if a == "--detector-width-mm"@ {
        HitsView { det_w: v, ..st }
    } else if a == "--detector-height-mm"@ {
        HitsView { det_h: v, ..st }
    } else if a == "--width"@ {
        HitsView {
            width: match v {
                Some(x) => u32_value(x),
                None => None,
            },
            ..st
        }
    } else if a == "--height"@ {
        HitsView {
            height: match v {
                Some(x) => u32_value(x),
                None => None,
            },
            ..st
        }
    } else if a == "--noise-seed"@ {
        HitsView {
            seed: match v {
                Some(x) => u64_value(x),
                None => None,
            },
            ..st
        }
    } else if a == "--gamma"@ {
        match v {
            Some(x) => HitsView { gamma: st.gamma.push(x), ..st },
            None => st,
        }
    } else if a == "--exposure"@ {
        match v {
            Some(x) => HitsView { exposure: st.exposure.push(x), ..st },
            None => st,
        }
    } else if a == "--blur-sigma-um"@ {
        match v {
            Some(x) => HitsView { blur: st.blur.push(x), ..st },
            None => st,
        }
    } else {
        match v {
            Some(x) => HitsView { background: st.background.push(x), ..st },
            None => st,
        }
    }
}

/// The options that take a value and cannot fail.
pub open spec fn is_hits_value_option(a: Seq<char>) -> bool {
    a == "--hits"@ || a == "--meta"@ || a == "--out"@ || a == "--detector-width-mm"@ || a
        == "--detector-height-mm"@ || a == "--width"@ || a == "--height"@ || a == "--noise-seed"@
        || a == "--gamma"@ || a == "--exposure"@ || a == "--blur-sigma-um"@ || a == "--background"@
}

/// The hit-table render options from position `i` on.
pub open spec fn hits_scan(argv: Seq<Seq<char>>, i: int, st: HitsView) -> HitsScan
    decreases argv.len() - i,
{
    if i < 0 || i >= argv.len() {
        HitsScan::Parsed(st)
    } else {
        let a = argv[i];
        let last = i + 1 >= argv.len();
        if is_hits_value_option(a) {
            if last {
                HitsScan::Parsed(hits_option(a, None, st))
            } else {
                hits_scan(argv, i + 2, hits_option(a, Some(argv[i + 1]), st))
            }
        } else if a == "--colormap"@ {
            if last {
                HitsScan::BadColormap(None)
            } else {
                match hits_colormap_of(argv[i + 1]) {
                    Some(c) => hits_scan(argv, i + 2, HitsView { colormap: c, ..st }),
                    None => HitsScan::BadColormap(Some(argv[i + 1])),
                }
            }
        } else if a == "--scale"@ {
            if last {
                HitsScan::BadScale(None)
            } else {
                match scale_of(argv[i + 1]) {
                    Some(m) => hits_scan(argv, i + 2, HitsView { scale: m, ..st }),
                    None => HitsScan::BadScale(Some(argv[i + 1])),
                }
            }
        } else if a == "--poisson-noise"@ {
            hits_scan(argv, i + 1, HitsView { poisson: true, ..st })
        } else if a == "--help"@ || a == "-h"@ {
            HitsScan::Help
        } else {
            hits_scan(argv, i + 1, st)
        }
    }
}

/// What a parse of hit-table render options promises for the scan `s`.
pub open spec fn hits_args_result(s: HitsScan, r: Result<HitsRenderArgs, CliError>) -> bool {
    match s {
        HitsScan::Parsed(v) => match v.hits {
            Some(_) => r matches Ok(a) && a.view_hits() == v,
            None => r matches Err(CliError::MissingHits),
        },
        HitsScan::Help => r matches Err(CliError::Help),
        HitsScan::BadColormap(x) => r matches Err(CliError::UnknownColormap(y)) && opt_view(y) == x,
        HitsScan::BadScale(x) => r matches Err(CliError::UnknownScale(y)) && opt_view(y) == x,
    }
}

fn parse_hits_colormap(s: Option<&str>) -> (r: Result<ColormapType, CliError>)
    ensures
        match s {
            Some(x) => match hits_colormap_of(x@) {
                Some(c) => r == Ok::<ColormapType, CliError>(c),
                None => r matches Err(CliError::UnknownColormap(Some(y))) && y@ == x@,
            },
            None => r matches Err(CliError::UnknownColormap(None)),
        },
{
    if let Some(x) = s {
        if str_eq(x, "rcf_film") {
            return Ok(ColormapType::RcfFilm);
        } else if str_eq(x, "scientific") {
            return Ok(ColormapType::Scientific);
        } else if str_eq(x, "grayscale") {
            return Ok(ColormapType::Grayscale);
        } else if str_eq(x, "hot") {
            return Ok(ColormapType::Hot);
        } else if str_eq(x, "inverted") {
            return Ok(ColormapType::Inverted);
        }
    }
    Err(CliError::UnknownColormap(owned(s)))
}

fn u32_of(s: Option<&str>) -> (r: Option<u32>)
    ensures
        r == (match s {
            Some(x) => u32_value(x@),
            None => None,
        }),
{
    match s {
        Some(x) => match parse_unsigned_str(x, u32::MAX as u64) {
            Some(v) => Some(v as u32),
            None => None,
        },
        None => None,
    }
}

fn u64_of(s: Option<&str>) -> (r: Option<u64>)
    ensures
        r == (match s {
            Some(x) => u64_value(x@),
            None => None,
        }),
{
    match s {
        Some(x) => parse_unsigned_str(x, u64::MAX),
        None => None,
    }
}

/// The options of a hit-table render while they are read.
struct HitsState {
    hits: Option<String>,
    meta: Option<String>,
    out: Option<String>,
    det_w: Option<String>,
    det_h: Option<String>,
    colormap: ColormapType,
    scale: ScaleMode,
    gamma: Vec<String>,
    exposure: Vec<String>,
    blur: Vec<String>,
    background: Vec<String>,
    width: Option<u32>,
    height: Option<u32>,
    poisson: bool,
    seed: Option<u64>,
}

impl HitsState {
    spec fn view_state(&self) -> HitsView {
        HitsView {
            hits: opt_view(self.hits),
            meta: opt_view(self.meta),
            out: opt_view(self.out),
            det_w: opt_view(self.det_w),
            det_h: opt_view(self.det_h),
            colormap: self.colormap,
            scale: self.scale,
            gamma: strings_view(self.gamma@),
            exposure: strings_view(self.exposure@),
            blur: strings_view(self.blur@),
            background: strings_view(self.background@),
            width: self.width,
            height: self.height,
            poisson: self.poisson,
            seed: self.seed,
        }
    }
}

fn push_value(list: &mut Vec<String>, v: Option<&str>)
    ensures
        strings_view(final(list)@) == (match v {
            Some(x) => strings_view(old(list)@).push(x@),
            None => strings_view(old(list)@),
        }),
{
    if let Some(x) = v {
        list.push(to_owned_string(x));
        assert(strings_view(list@) =~= strings_view(old(list)@).push(x@));
    }
}

/// Applies an option that takes a value (`is_hits_value_option(a)`).
fn apply_hits_option(st: &mut HitsState, a: &str, v: Option<&str>)
    requires
        is_hits_value_option(a@),
    ensures
        final(st).view_state() == hits_option(
            a@,
            match v {
                Some(x) => Some(x@),
                None => None,
            },
            old(st).view_state(),
        ),
{
    if str_eq(a, "--hits") {
        st.hits = owned(v);
    } else if str_eq(a, "--meta") {
        st.meta = owned(v);
    } else if str_eq(a, "--out") {
        st.out = owned(v);
    } else if str_eq(a, "--detector-width-mm") {
        st.det_w = owned(v);
    } else if str_eq(a, "--detector-height-mm") {
        st.det_h = owned(v);
    } else if str_eq(a, "--width") {
        st.width = u32_of(v);
    } else if str_eq(a, "--height") {
        st.height = u32_of(v);
    } else if str_eq(a, "--noise-seed") {
        st.seed = u64_of(v);
    } else if str_eq(a, "--gamma") {
        push_value(&mut st.gamma, v);
    } else if str_eq(a, "--exposure") {
        push_value(&mut st.exposure, v);
    } else if str_eq(a, "--blur-sigma-um") {
        push_value(&mut st.blur, v);
    } else {
        push_value(&mut st.background, v);
    }
}

fn hits_value_option(a: &str) -> (r: bool)
    ensures
        r == is_hits_value_option(a@),
{
    str_eq(a, "--hits") || str_eq(a, "--meta") || str_eq(a, "--out") || str_eq(
        a,
        "--detector-width-mm",
    ) || str_eq(a, "--detector-height-mm") || str_eq(a, "--width") || str_eq(a, "--height")
        || str_eq(a, "--noise-seed") || str_eq(a, "--gamma") || str_eq(a, "--exposure") || str_eq(
        a,
        "--blur-sigma-um",
    ) || str_eq(a, "--background")
}

/// Options of `render --hits hits.csv`: `--hits`, `--meta`, `--out`,
/// `--detector-width-mm`, `--detector-height-mm`, `--colormap`, `--scale`,
/// `--gamma`, `--exposure`, `--width`, `--height`, `--blur-sigma-um`,
/// `--background`, `--poisson-noise`, `--noise-seed`; `--help` stops.
/// `--hits` is required.
pub fn parse_hits_render_args(argv: &Vec<String>) -> (r: Result<HitsRenderArgs, CliError>)
    ensures
        hits_args_result(hits_scan(args_view(argv@), 0, no_hits_options()), r),
{
    let ghost av = args_view(argv@);
    let mut st = HitsState {
        hits: None,
        meta: None,
        out: None,
        det_w: None,
        det_h: None,
        colormap: ColormapType::RcfFilm,
        scale: ScaleMode::Log,
        gamma: Vec::new(),
        exposure: Vec::new(),
        blur: Vec::new(),
        background: Vec::new(),
        width: None,
        height: None,
        poisson: false,
        seed: None,
    };
    assert(strings_view(st.gamma@) =~= Seq::<Seq<char>>::empty());
    assert(strings_view(st.exposure@) =~= Seq::<Seq<char>>::empty());
    assert(strings_view(st.blur@) =~= Seq::<Seq<char>>::empty());
    assert(strings_view(st.background@) =~= Seq::<Seq<char>>::empty());
    assert(st.view_state() == no_hits_options());
    let n = argv.len();
    let mut i: usize = 0;
    while i < n
        invariant
            n == argv@.len(),
            av == args_view(argv@),
            av.len() == n,
            hits_scan(av, 0, no_hits_options()) == hits_scan(av, i as int, st.view_state()),
        decreases n - i,
    {
        let a = argv[i].as_str();
        assert(av[i as int] == a@);
        let next = arg_str(argv, i + 1);
        if hits_value_option(a) {
            apply_hits_option(&mut st, a, next);
            i = if i + 1 < n {
                i + 2
            } else {
                n
            };
        } else if str_eq(a, "--colormap") {
            match parse_hits_colormap(next) {
                Ok(c) => {
                    st.colormap = c;
                },
                Err(e) => {
                    return Err(e);
                },
            }
            i = if i + 1 < n {
                i + 2
            } else {
                n
            };
        } else if str_eq(a, "--scale") {
            match parse_scale(next) {
                Ok(m) => {
                    st.scale = m;
                },
                Err(e) => {
                    return Err(e);
                },
            }
            i = if i + 1 < n {
                i + 2
            } else {
                n
            };
        } else if str_eq(a, "--poisson-noise") {
            st.poisson = true;
            i = i + 1;
        } else if str_eq(a, "--help") || str_eq(a, "-h") {
            return Err(CliError::Help);
        } else {
            i = i + 1;
        }
    }
    match st.hits {
        None => Err(CliError::MissingHits),
        Some(h) => Ok(
            HitsRenderArgs {
                hits_path: h,
                meta_path: st.meta,
                out_path: st.out,
                detector_width_mm: st.det_w,
                detector_height_mm: st.det_h,
                colormap: st.colormap,
                scale: st.scale,
                gamma: st.gamma,
                exposure: st.exposure,
                blur_sigma_um: st.blur,
                background: st.background,
                width: st.width,
                height: st.height,
                poisson_noise: st.poisson,
                noise_seed: st.seed,
            },
        ),
    }
}

} // verus!

verus! {

// ── Hit tables ───────────────────────────────────────────────────────────────

/// Index of the first of `cols`, from `i` on, whose trimmed name is `name`.
pub open spec fn column_index(cols: Seq<Seq<char>>, name: Seq<char>, i: int) -> Option<int>
    decreases cols.len() - i,
{
    if i < 0 || i >= cols.len() {
        None
    } else if trim(cols[i]) == name {
        Some(i)
    } else {
        column_index(cols, name, i + 1)
    }
}

/// Where the columns a render reads sit in a hit table.
#[derive(Debug, Clone, Copy, PartialEq, Eq)]
pub struct HitColumns {
    pub y: usize,
    pub z: usize,
    pub weight: Option<usize>,
}

/// Why a hit table cannot be read.
#[derive(Debug, Clone, PartialEq, Eq)]
pub enum HitTableError {
    /// A required column (`y_mm` or `z_mm`) is not in the header; holds its name.
    MissingColumn(String),
}

pub open spec fn opt_int(o: Option<usize>) -> Option<int> {
    match o {
        Some(v) => Some(v as int),
        None => None,
    }
}

fn find_column(cols: &Vec<String>, name: &str) -> (r: Option<usize>)
    ensures
        opt_int(r) == column_index(strings_view(cols@), name@, 0),
{
    let ghost cv = strings_view(cols@);
    let n = cols.len();
    let mut i: usize = 0;
    while i < n
        invariant
            n == cols@.len(),
            cv == strings_view(cols@),
            cv.len() == n,
            column_index(cv, name@, 0) == column_index(cv, name@, i as int),
        decreases n - i,
    {
        assert(cv[i as int] == cols@[i as int]@);
        if str_eq(trim_str(cols[i].as_str()), name) {
            return Some(i);
        }
        i = i + 1;
    }
    None
}

/// Whether a line of a hit table can be its header: the first line that does
/// not start with `#` is.
pub fn is_header_line(line: &str) -> (r: bool)
    ensures
        r == !(line@.len() > 0 && line@[0] == '#'),
{
    !crate::text::starts_with_char(line, '#')
}

/// The columns of a hit table from its header (comma-separated names, spaces
/// around a name ignored): `y_mm` and `z_mm` are required, `weight` is not.
pub fn hit_columns(header: &str) -> (r: Result<HitColumns, HitTableError>)
    ensures
        ({
            let cols = split_on(header@, ',');
            match column_index(cols, "y_mm"@, 0) {
                None => r matches Err(HitTableError::MissingColumn(n)) && n@ == "y_mm"@,
                Some(y) => match column_index(cols, "z_mm"@, 0) {
                    None => r matches Err(HitTableError::MissingColumn(n)) && n@ == "z_mm"@,
                    Some(z) => r matches Ok(c) && c.y == y && c.z == z && opt_int(c.weight)
                        == column_index(cols, "weight"@, 0),
                },
            }
        }),
{
    let cols = split_str(header, ',');
    let y = match find_column(&cols, "y_mm") {
        Some(y) => y,
        None => {
            return Err(HitTableError::MissingColumn(to_owned_string("y_mm")));
        },
    };
    let z = match find_column(&cols, "z_mm") {
        Some(z) => z,
        None => {
            return Err(HitTableError::MissingColumn(to_owned_string("z_mm")));
        },
    };
    let weight = find_column(&cols, "weight");
    Ok(HitColumns { y, z, weight })
}

/// The text of the fields a render reads from one row.
#[derive(Debug, Clone, PartialEq, Eq)]
pub struct HitFields {
    pub y: String,
    pub z: String,
    pub weight: Option<String>,
}

/// Whether a trimmed row is skipped: empty or a comment.
pub open spec fn skipped_row(t: Seq<char>) -> bool {
    t.len() == 0 || t[0] == '#'
}

/// The fields of a row of a hit table: the row is trimmed, skipped when empty
/// or a comment, split at commas, and each field read is trimmed. A row
/// without a `y` or `z` field gives `None`; a missing weight field gives no
/// weight.
pub fn hit_row_fields(line: &str, cols: HitColumns) -> (r: Option<HitFields>)
    ensures
        ({
            let t = trim(line@);
            let f = split_on(t, ',');
            if skipped_row(t) || cols.y >= f.len() || cols.z >= f.len() {
                r is None
            } else {
                r matches Some(h) && h.y@ == trim(f[cols.y as int]) && h.z@ == trim(
                    f[cols.z as int],
                ) && opt_view(h.weight) == (match cols.weight {
                    Some(w) => if w < f.len() {
                        Some(trim(f[w as int]))
                    } else {
                        None
                    },
                    None => None,
                })
            }
        }),
{
    let t = trim_str(line);
    if t.unicode_len() == 0 || t.get_char(0) == '#' {
        return None;
    }
    let f = split_str(t, ',');
    let ghost fv = strings_view(f@);
    let n = f.len();
    if cols.y >= n || cols.z >= n {
        return None;
    }
    assert(fv[cols.y as int] == f@[cols.y as int]@);
    assert(fv[cols.z as int] == f@[cols.z as int]@);
    let y = to_owned_string(trim_str(f[cols.y].as_str()));
    let z = to_owned_string(trim_str(f[cols.z].as_str()));
    let weight = match cols.weight {
        Some(w) => if w < n {
            assert(fv[w as int] == f@[w as int]@);
            Some(to_owned_string(trim_str(f[w].as_str())))
        } else {
            None
        },
        None => None,
    };
    Some(HitFields { y, z, weight })
}

} // verus!

verus! {

/// Law: re-rendering a run without options reproduces the colormap and scale
/// its metadata records (the names written by [`crate::cli::colormap_to_str`]
/// and [`crate::cli::scale_to_str`]).
pub proof fn law_rerender_keeps_recorded_choice(c: ColormapType, m: ScaleMode)
    ensures
        chosen_colormap(None, Some(crate::cli::colormap_name(c))) == c,
        chosen_scale(None, Some(crate::cli::scale_name(m))) == m,
{
    crate::cli::law_colormap_name_roundtrip(c);
    crate::cli::law_scale_name_roundtrip(m);
}

/// Law: an option given on the command line wins over what the metadata
/// records.
pub proof fn law_render_option_wins(
    c: ColormapType,
    m: ScaleMode,
    stored_c: Option<Seq<char>>,
    stored_m: Option<Seq<char>>,
)
    ensures
        chosen_colormap(Some(c), stored_c) == c,
        chosen_scale(Some(m), stored_m) == m,
{
}

/// Where a hit-table render takes the detector's size from.
#[derive(Debug, Clone, Copy, PartialEq, Eq)]
pub enum DetectorGeometryFrom {
    /// The `--meta` sidecar file.
    MetaFile,
    /// `--detector-width-mm` and `--detector-height-mm`.
    SizeOptions,
}

/// Where the detector size comes from: the `--meta` file when one is given;
/// otherwise both size options are needed, `width_read` / `height_read`
/// telling whether each was given and reads as a number.
pub fn detector_geometry_from(args: &HitsRenderArgs, width_read: bool, height_read: bool) -> (r: Result<
    DetectorGeometryFrom,
    CliError,
>)
    ensures
        args.meta_path is Some ==> r == Ok::<DetectorGeometryFrom, CliError>(
            DetectorGeometryFrom::MetaFile,
        ),
        args.meta_path is None && width_read && height_read ==> r == Ok::<
            DetectorGeometryFrom,
            CliError,
        >(DetectorGeometryFrom::SizeOptions),
        args.meta_path is None && !(width_read && height_read) ==> r matches Err(
            CliError::MissingDetectorGeometry,
        ),
{
    if args.meta_path.is_some() {
        Ok(DetectorGeometryFrom::MetaFile)
    } else if width_read && height_read {
        Ok(DetectorGeometryFrom::SizeOptions)
    } else {
        Err(CliError::MissingDetectorGeometry)
    }
}

/// Law: each hit-table render option that takes a value writes only its own
/// setting. A path or size option (`--hits`, `--meta`, `--out`,
/// `--detector-width-mm`, `--detector-height-mm`) takes the value as given, or
/// nothing when it is last; `--width`, `--height` and `--noise-seed` take the
/// value read as an integer; `--gamma`, `--exposure`, `--blur-sigma-um` and
/// `--background` push the value onto their own list (and change nothing
/// when it is missing). Every other setting is left as it was.
pub proof fn law_hits_option_writes_its_own_setting(v: Option<Seq<char>>, st: HitsView)
    ensures
        ({
            let n32 = match v {
                Some(x) => u32_value(x),
                None => None,
            };
            let n64 = match v {
                Some(x) => u64_value(x),
                None => None,
            };
            let pushed = |l: Seq<Seq<char>>|
                match v {
                    Some(x) => l.push(x),
                    None => l,
                };
            &&& hits_option("--hits"@, v, st) == (HitsView { hits: v, ..st })
            &&& hits_option("--meta"@, v, st) == (HitsView { meta: v, ..st })
            &&& hits_option("--out"@, v, st) == (HitsView { out: v, ..st })
            &&& hits_option("--detector-width-mm"@, v, st) == (HitsView { det_w: v, ..st })
            &&& hits_option("--detector-height-mm"@, v, st) == (HitsView { det_h: v, ..st })
            &&& hits_option("--width"@, v, st) == (HitsView { width: n32, ..st })
            &&& hits_option("--height"@, v, st) == (HitsView { height: n32, ..st })
            &&& hits_option("--noise-seed"@, v, st) == (HitsView { seed: n64, ..st })
            &&& hits_option("--gamma"@, v, st) == (HitsView { gamma: pushed(st.gamma), ..st })
            &&& hits_option("--exposure"@, v, st) == (HitsView { exposure: pushed(st.exposure), ..st })
            &&& hits_option("--blur-sigma-um"@, v, st) == (HitsView { blur: pushed(st.blur), ..st })
            &&& hits_option("--background"@, v, st) == (HitsView { background: pushed(st.background), ..st })
        }),
{
    reveal_strlit("--hits");
    reveal_strlit("--meta");
    reveal_strlit("--out");
    reveal_strlit("--detector-width-mm");
    reveal_strlit("--detector-height-mm");
    reveal_strlit("--width");
    reveal_strlit("--height");
    reveal_strlit("--noise-seed");
    reveal_strlit("--gamma");
    reveal_strlit("--exposure");
    reveal_strlit("--blur-sigma-um");
    reveal_strlit("--background");
    assert("--meta"@[2] != "--hits"@[2]);
    assert("--out"@.len() != "--hits"@.len());
    assert("--out"@.len() != "--meta"@.len());
    assert("--detector-width-mm"@.len() != "--hits"@.len());
    assert("--detector-width-mm"@.len() != "--meta"@.len());
    assert("--detector-width-mm"@.len() != "--out"@.len());
    assert("--detector-height-mm"@.len() != "--hits"@.len());
    assert("--detector-height-mm"@.len() != "--meta"@.len());
    assert("--detector-height-mm"@.len() != "--out"@.len());
    assert("--detector-height-mm"@.len() != "--detector-width-mm"@.len());
    assert("--width"@.len() != "--hits"@.len());
    assert("--width"@.len() != "--meta"@.len());
    assert("--width"@.len() != "--out"@.len());
    assert("--width"@.len() != "--detector-width-mm"@.len());
    assert("--width"@.len() != "--detector-height-mm"@.len());
    assert("--height"@.len() != "--hits"@.len());
    assert("--height"@.len() != "--meta"@.len());
    assert("--height"@.len() != "--out"@.len());
    assert("--height"@.len() != "--detector-width-mm"@.len());
    assert("--height"@.len() != "--detector-height-mm"@.len());
    assert("--height"@.len() != "--width"@.len());
    assert("--noise-seed"@.len() != "--hits"@.len());
    assert("--noise-seed"@.len() != "--meta"@.len());
    assert("--noise-seed"@.len() != "--out"@.len());
    assert("--noise-seed"@.len() != "--detector-width-mm"@.len());
    assert("--noise-seed"@.len() != "--detector-height-mm"@.len());
    assert("--noise-seed"@.len() != "--width"@.len());
    assert("--noise-seed"@.len() != "--height"@.len());
    assert("--gamma"@.len() != "--hits"@.len());
    assert("--gamma"@.len() != "--meta"@.len());
    assert("--gamma"@.len() != "--out"@.len());
    assert("--gamma"@.len() != "--detector-width-mm"@.len());
    assert("--gamma"@.len() != "--detector-height-mm"@.len());
    assert("--gamma"@[2] != "--width"@[2]);
    assert("--gamma"@.len() != "--height"@.len());
    assert("--gamma"@.len() != "--noise-seed"@.len());
    assert("--exposure"@.len() != "--hits"@.len());
    assert("--exposure"@.len() != "--meta"@.len());
    assert("--exposure"@.len() != "--out"@.len());
    assert("--exposure"@.len() != "--detector-width-mm"@.len());
    assert("--exposure"@.len() != "--detector-height-mm"@.len());
    assert("--exposure"@.len() != "--width"@.len());
    assert("--exposure"@.len() != "--height"@.len());
    assert("--exposure"@.len() != "--noise-seed"@.len());
    assert("--exposure"@.len() != "--gamma"@.len());
    assert("--blur-sigma-um"@.len() != "--hits"@.len());
    assert("--blur-sigma-um"@.len() != "--meta"@.len());
    assert("--blur-sigma-um"@.len() != "--out"@.len());
    assert("--blur-sigma-um"@.len() != "--detector-width-mm"@.len());
    assert("--blur-sigma-um"@.len() != "--detector-height-mm"@.len());
    assert("--blur-sigma-um"@.len() != "--width"@.len());
    assert("--blur-sigma-um"@.len() != "--height"@.len());
    assert("--blur-sigma-um"@.len() != "--noise-seed"@.len());
    assert("--blur-sigma-um"@.len() != "--gamma"@.len());
    assert("--blur-sigma-um"@.len() != "--exposure"@.len());
    assert("--background"@.len() != "--hits"@.len());
    assert("--background"@.len() != "--meta"@.len());
    assert("--background"@.len() != "--out"@.len());
    assert("--background"@.len() != "--detector-width-mm"@.len());
    assert("--background"@.len() != "--detector-height-mm"@.len());
    assert("--background"@.len() != "--width"@.len());
    assert("--background"@.len() != "--height"@.len());
    assert("--background"@[2] != "--noise-seed"@[2]);
    assert("--background"@.len() != "--gamma"@.len());
    assert("--background"@.len() != "--exposure"@.len());
    assert("--background"@.len() != "--blur-sigma-um"@.len());
}

/// Law: in a hit-table render command line, an option that takes a value and
/// is followed by one applies [`hits_option`] to that value, and the scan goes
/// on after the value.
pub proof fn law_hits_scan_value_option(argv: Seq<Seq<char>>, i: int, st: HitsView)
    requires
        0 <= i,
        i + 1 < argv.len(),
        is_hits_value_option(argv[i]),
    ensures
        hits_scan(argv, i, st) == hits_scan(argv, i + 2, hits_option(argv[i], Some(argv[i + 1]), st)),
{
}

/// Law: `--counts raw` selects the raw counts and `--counts processed` the
/// processed ones; no other value selects either.
pub proof fn law_counts_kind(s: Seq<char>)
    ensures
        counts_kind_of("raw"@) == Some(true),
        counts_kind_of("processed"@) == Some(false),
        counts_kind_of(s) == Some(true) <==> s == "raw"@,
        counts_kind_of(s) == Some(false) <==> s == "processed"@,
{
    reveal_strlit("raw");
    reveal_strlit("processed");
    assert("processed"@.len() != "raw"@.len());
}

/// Law: in a run-directory render command line, `--counts` followed by `raw`
/// or `processed` sets the choice of counts file to raw or processed
/// respectively, changes nothing else, and the scan goes on after the value.
pub proof fn law_render_scan_counts(argv: Seq<Seq<char>>, i: int, st: RenderView)
    requires
        0 <= i,
        i + 1 < argv.len(),
        argv[i] == "--counts"@,
    ensures
        argv[i + 1] == "raw"@ ==> render_scan(argv, i, st) == render_scan(
            argv,
            i + 2,
            RenderView { raw: true, ..st },
        ),
        argv[i + 1] == "processed"@ ==> render_scan(argv, i, st) == render_scan(
            argv,
            i + 2,
            RenderView { raw: false, ..st },
        ),
{
    law_counts_kind(argv[i + 1]);
    reveal_strlit("--counts");
    reveal_strlit("--colormap");
    reveal_strlit("-c");
    reveal_strlit("--scale");
    reveal_strlit("-s");
    reveal_strlit("--gamma");
    reveal_strlit("--exposure");
    reveal_strlit("-o");
    reveal_strlit("--out");
    assert("--counts"@.len() != "--colormap"@.len());
    assert("--counts"@.len() != "-c"@.len());
    assert("--counts"@.len() != "--scale"@.len());
    assert("--counts"@.len() != "-s"@.len());
    assert("--counts"@.len() != "--gamma"@.len());
    assert("--counts"@.len() != "--exposure"@.len());
    assert("--counts"@.len() != "-o"@.len());
    assert("--counts"@.len() != "--out"@.len());
}

/// Law: in a run-directory render command line, an option followed by a
/// value sets only its own setting and the scan goes on after the value:
/// `--gamma` the gamma text, `--exposure` the exposure text, `-o`/`--out` the
/// output path, and `--colormap`/`-c` and `--scale`/`-s` the colormap or scale
/// the value names.
pub proof fn law_render_scan_option(argv: Seq<Seq<char>>, i: int, st: RenderView)
    requires
        0 <= i,
        i + 1 < argv.len(),
    ensures
        argv[i] == "--gamma"@ ==> render_scan(argv, i, st) == render_scan(
            argv,
            i + 2,
            RenderView { gamma: Some(argv[i + 1]), ..st },
        ),
        argv[i] == "--exposure"@ ==> render_scan(argv, i, st) == render_scan(
            argv,
            i + 2,
            RenderView { exposure: Some(argv[i + 1]), ..st },
        ),
        argv[i] == "-o"@ || argv[i] == "--out"@ ==> render_scan(argv, i, st) == render_scan(
            argv,
            i + 2,
            RenderView { out: Some(argv[i + 1]), ..st },
        ),
        (argv[i] == "--colormap"@ || argv[i] == "-c"@) && colormap_of(argv[i + 1]) is Some
            ==> render_scan(argv, i, st) == render_scan(
            argv,
            i + 2,
            RenderView { colormap: colormap_of(argv[i + 1]), ..st },
        ),
        (argv[i] == "--scale"@ || argv[i] == "-s"@) && scale_of(argv[i + 1]) is Some
            ==> render_scan(argv, i, st) == render_scan(
            argv,
            i + 2,
            RenderView { scale: scale_of(argv[i + 1]), ..st },
        ),
{
    reveal_strlit("--colormap");
    reveal_strlit("-c");
    reveal_strlit("--scale");
    reveal_strlit("-s");
    reveal_strlit("--gamma");
    reveal_strlit("--exposure");
    reveal_strlit("-o");
    reveal_strlit("--out");
    assert("-c"@.len() != "--colormap"@.len());
    assert("--scale"@.len() != "--colormap"@.len());
    assert("--scale"@.len() != "-c"@.len());
    assert("-s"@.len() != "--colormap"@.len());
    assert("-s"@[1] != "-c"@[1]);
    assert("-s"@.len() != "--scale"@.len());
    assert("--gamma"@.len() != "--colormap"@.len());
    assert("--gamma"@.len() != "-c"@.len());
    assert("--gamma"@[2] != "--scale"@[2]);
    assert("--gamma"@.len() != "-s"@.len());
    assert("--exposure"@[2] != "--colormap"@[2]);
    assert("--exposure"@.len() != "-c"@.len());
    assert("--exposure"@.len() != "--scale"@.len());
    assert("--exposure"@.len() != "-s"@.len());
    assert("--exposure"@.len() != "--gamma"@.len());
    assert("-o"@.len() != "--colormap"@.len());
    assert("-o"@[1] != "-c"@[1]);
    assert("-o"@.len() != "--scale"@.len());
    assert("-o"@[1] != "-s"@[1]);
    assert("-o"@.len() != "--gamma"@.len());
    assert("-o"@.len() != "--exposure"@.len());
    assert("--out"@.len() != "--colormap"@.len());
    assert("--out"@.len() != "-c"@.len());
    assert("--out"@.len() != "--scale"@.len());
    assert("--out"@.len() != "-s"@.len());
    assert("--out"@.len() != "--gamma"@.len());
    assert("--out"@.len() != "--exposure"@.len());
    assert("--out"@.len() != "-o"@.len());
}

/// Law: the hit-table render names each colormap by its recorded name (the
/// name [`crate::cli::colormap_to_str`] writes), and by nothing else.
pub proof fn law_hits_colormap_names(s: Seq<char>, c: ColormapType)
    ensures
        hits_colormap_of(s) == Some(c) <==> s == crate::cli::colormap_name(c),
{
    crate::cli::law_colormap_name_roundtrip(c);
    reveal_strlit("rcf");
    reveal_strlit("rcf_film");
    reveal_strlit("scientific");
    reveal_strlit("grayscale");
    reveal_strlit("hot");
    reveal_strlit("inverted");
}

/// Law: in a hit-table render command line, `--colormap` and `--scale`
/// followed by a name they know set only the colormap or the scale, and
/// `--poisson-noise` only turns on Poisson noise; the scan goes on after them.
pub proof fn law_hits_scan_choice_options(argv: Seq<Seq<char>>, i: int, st: HitsView)
    requires
        0 <= i < argv.len(),
    ensures
        argv[i] == "--colormap"@ && i + 1 < argv.len() && hits_colormap_of(argv[i + 1]) is Some
            ==> hits_scan(argv, i, st) == hits_scan(
            argv,
            i + 2,
            HitsView { colormap: hits_colormap_of(argv[i + 1])->0, ..st },
        ),
        argv[i] == "--scale"@ && i + 1 < argv.len() && scale_of(argv[i + 1]) is Some ==> hits_scan(
            argv,
            i,
            st,
        ) == hits_scan(argv, i + 2, HitsView { scale: scale_of(argv[i + 1])->0, ..st }),
        argv[i] == "--poisson-noise"@ ==> hits_scan(argv, i, st) == hits_scan(
            argv,
            i + 1,
            HitsView { poisson: true, ..st },
        ),
{
    reveal_strlit("--hits");
    reveal_strlit("--meta");
    reveal_strlit("--out");
    reveal_strlit("--detector-width-mm");
    reveal_strlit("--detector-height-mm");
    reveal_strlit("--width");
    reveal_strlit("--height");
    reveal_strlit("--noise-seed");
    reveal_strlit("--gamma");
    reveal_strlit("--exposure");
    reveal_strlit("--blur-sigma-um");
    reveal_strlit("--background");
    reveal_strlit("--colormap");
    reveal_strlit("--scale");
    reveal_strlit("--poisson-noise");
    assert("--colormap"@.len() != "--hits"@.len());
    assert("--colormap"@.len() != "--meta"@.len());
    assert("--colormap"@.len() != "--out"@.len());
    assert("--colormap"@.len() != "--detector-width-mm"@.len());
    assert("--colormap"@.len() != "--detector-height-mm"@.len());
    assert("--colormap"@.len() != "--width"@.len());
    assert("--colormap"@.len() != "--height"@.len());
    assert("--colormap"@.len() != "--noise-seed"@.len());
    assert("--colormap"@.len() != "--gamma"@.len());
    assert("--colormap"@[2] != "--exposure"@[2]);
    assert("--colormap"@.len() != "--blur-sigma-um"@.len());
    assert("--colormap"@.len() != "--background"@.len());
    assert("--scale"@.len() != "--hits"@.len());
    assert("--scale"@.len() != "--meta"@.len());
    assert("--scale"@.len() != "--out"@.len());
    assert("--scale"@.len() != "--detector-width-mm"@.len());
    assert("--scale"@.len() != "--detector-height-mm"@.len());
    assert("--scale"@[2] != "--width"@[2]);
    assert("--scale"@.len() != "--height"@.len());
    assert("--scale"@.len() != "--noise-seed"@.len());
    assert("--scale"@[2] != "--gamma"@[2]);
    assert("--scale"@.len() != "--exposure"@.len());
    assert("--scale"@.len() != "--blur-sigma-um"@.len());
    assert("--scale"@.len() != "--background"@.len());
    assert("--scale"@.len() != "--colormap"@.len());
    assert("--poisson-noise"@.len() != "--hits"@.len());
    assert("--poisson-noise"@.len() != "--meta"@.len());
    assert("--poisson-noise"@.len() != "--out"@.len());
    assert("--poisson-noise"@.len() != "--detector-width-mm"@.len());
    assert("--poisson-noise"@.len() != "--detector-height-mm"@.len());
    assert("--poisson-noise"@.len() != "--width"@.len());
    assert("--poisson-noise"@.len() != "--height"@.len());
    assert("--poisson-noise"@.len() != "--noise-seed"@.len());
    assert("--poisson-noise"@.len() != "--gamma"@.len());
    assert("--poisson-noise"@.len() != "--exposure"@.len());
    assert("--poisson-noise"@[2] != "--blur-sigma-um"@[2]);
    assert("--poisson-noise"@.len() != "--background"@.len());
    assert("--poisson-noise"@.len() != "--colormap"@.len());
    assert("--poisson-noise"@.len() != "--scale"@.len());
}

} // verus!
