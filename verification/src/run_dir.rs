//! Layout of a reproducible run directory and the records kept in its
//! `metadata.json`.
//!
//! ```text
//! <run_dir>/
//!   input_deck.toml        copy of the deck actually used
//!   resolved_config.json   fully-resolved SI config
//!   metadata.json          provenance, hardware, diagnostics
//!   log.txt                mirror of terminal output
//!   counts/raw_counts.bin        u32 little-endian [H×W] row-major
//!   counts/processed_counts.bin  f32 little-endian [H×W] row-major
//!   images/radiograph.png
//!   tables/hits.csv              optional
//! ```

use vstd::prelude::*;
use crate::overrides::ConfigOverride;
use crate::text::to_owned_string;

verus! {

/// How to treat an output directory that already holds files.
#[derive(Debug, Clone, Copy, PartialEq, Eq)]
pub struct RunOptions {
    pub overwrite: bool,
    pub resume: bool,
}

impl Default for RunOptions {
    fn default() -> (r: Self)
        ensures
            r == (RunOptions { overwrite: false, resume: false }),
    {
        RunOptions { overwrite: false, resume: false }
    }
}

/// What opening a run directory has to do on disk.
#[derive(Debug, Clone, Copy, PartialEq, Eq)]
pub enum OpenPlan {
    /// Create the directory (and its parents), then the sub-directories.
    Create,
    /// Remove the existing directory, then create it afresh.
    Replace,
    /// Keep the existing contents; create missing sub-directories only.
    Resume,
    /// Refuse: the directory exists, is not empty, and neither option is set.
    Refuse,
}

/// Decides how to open a run directory:
/// - non-existent or empty: create it;
/// - non-empty with `overwrite`: remove and recreate;
/// - non-empty with `resume` (and not `overwrite`): reuse;
/// - non-empty otherwise: refuse.
pub fn plan_open(exists: bool, non_empty: bool, opts: &RunOptions) -> (r: OpenPlan)
    ensures
        !(exists && non_empty) ==> r == OpenPlan::Create,
        exists && non_empty && opts.overwrite ==> r == OpenPlan::Replace,
        exists && non_empty && !opts.overwrite && opts.resume ==> r == OpenPlan::Resume,
        exists && non_empty && !opts.overwrite && !opts.resume ==> r == OpenPlan::Refuse,
{
    if exists && non_empty {
        if opts.overwrite {
            OpenPlan::Replace
        } else if opts.resume {
            OpenPlan::Resume
        } else {
            OpenPlan::Refuse
        }
    } else {
        OpenPlan::Create
    }
}

/// `base` joined with `comp` as `PathBuf::join` does on Unix: an absolute
/// `comp` replaces `base`; otherwise a `/` goes between them unless `base`
/// is empty or already ends with one.
pub open spec fn join_path(base: Seq<char>, comp: Seq<char>) -> Seq<char> {
    if comp.len() > 0 && comp[0] == '/' {
        comp
    } else if base.len() == 0 || base.last() == '/' {
        base + comp
    } else {
        base + seq!['/'] + comp
    }
}

/// Joins two path fragments (see [`join_path`]).
pub fn join(base: &str, comp: &str) -> (r: String)
    ensures
        r@ == join_path(base@, comp@),
{
    let nc = comp.unicode_len();
    if nc > 0 && comp.get_char(0) == '/' {
        return to_owned_string(comp);
    }
    let nb = base.unicode_len();
    let mut r = to_owned_string(base);
    if nb > 0 && base.get_char(nb - 1) != '/' {
        r.append("/");
        proof {
            reveal_strlit("/");
        }
    }
    r.append(comp);
    r
}

/// A run directory rooted at a path.
pub struct RunDir {
    root: String,
}

impl View for RunDir {
    type V = Seq<char>;

    open spec fn view(&self) -> Seq<char> {
        self.root_spec()
    }
}

impl RunDir {
    pub closed spec fn root_spec(&self) -> Seq<char> {
        self.root@
    }

    /// The run directory at `root` (the directory itself is prepared on disk
    /// as [`plan_open`] decides).
    pub fn at(root: String) -> (r: RunDir)
        ensures
            r@ == root@,
    {
        RunDir { root }
    }

    pub fn root(&self) -> (r: &str)
        ensures
            r@ == self@,
    {
        self.root.as_str()
    }

    pub fn counts_dir(&self) -> (r: String)
        ensures
            r@ == join_path(self@, "counts"@),
    {
        join(self.root.as_str(), "counts")
    }

    pub fn images_dir(&self) -> (r: String)
        ensures
            r@ == join_path(self@, "images"@),
    {
        join(self.root.as_str(), "images")
    }

    pub fn tables_dir(&self) -> (r: String)
        ensures
            r@ == join_path(self@, "tables"@),
    {
        join(self.root.as_str(), "tables")
    }

    /// The sub-directories every run directory holds.
    pub fn subdirs(&self) -> (r: Vec<String>)
        ensures
            r@.len() == 3,
            r@[0]@ == join_path(self@, "counts"@),
            r@[1]@ == join_path(self@, "images"@),
            r@[2]@ == join_path(self@, "tables"@),
    {
        let mut v = Vec::new();
        v.push(self.counts_dir());
        v.push(self.images_dir());
        v.push(self.tables_dir());
        v
    }

    pub fn raw_counts_path(&self) -> (r: String)
        ensures
            r@ == join_path(join_path(self@, "counts"@), "raw_counts.bin"@),
    {
        join(self.counts_dir().as_str(), "raw_counts.bin")
    }

    pub fn processed_counts_path(&self) -> (r: String)
        ensures
            r@ == join_path(join_path(self@, "counts"@), "processed_counts.bin"@),
    {
        join(self.counts_dir().as_str(), "processed_counts.bin")
    }

    pub fn hits_bin_path(&self) -> (r: String)
        ensures
            r@ == join_path(join_path(self@, "counts"@), "hits.bin"@),
    {
        join(self.counts_dir().as_str(), "hits.bin")
    }

    pub fn radiograph_png_path(&self) -> (r: String)
        ensures
            r@ == join_path(join_path(self@, "images"@), "radiograph.png"@),
    {
        join(self.images_dir().as_str(), "radiograph.png")
    }

    pub fn hits_csv_path(&self) -> (r: String)
        ensures
            r@ == join_path(join_path(self@, "tables"@), "hits.csv"@),
    {
        join(self.tables_dir().as_str(), "hits.csv")
    }

    pub fn resolved_config_path(&self) -> (r: String)
        ensures
            r@ == join_path(self@, "resolved_config.json"@),
    {
        join(self.root.as_str(), "resolved_config.json")
    }

    pub fn metadata_path(&self) -> (r: String)
        ensures
            r@ == join_path(self@, "metadata.json"@),
    {
        join(self.root.as_str(), "metadata.json")
    }

    pub fn log_path(&self) -> (r: String)
        ensures
            r@ == join_path(self@, "log.txt"@),
    {
        join(self.root.as_str(), "log.txt")
    }

    /// Where the copy of the input deck goes, keeping the deck's extension.
    pub fn input_deck_path(&self, original_ext: &str) -> (r: String)
        ensures
            r@ == join_path(self@, "input_deck."@ + original_ext@),
    {
        let mut name = to_owned_string("input_deck.");
        name.append(original_ext);
        join(self.root.as_str(), name.as_str())
    }
}

// ── Metadata records ─────────────────────────────────────────────────────────

/// Name, status and timing of a run.
#[derive(Debug, Clone)]
pub struct RunRecord {
    pub run_name: String,
    pub status: String,
    pub argv: Vec<String>,
    pub started_at: String,
    pub completed_at: Option<String>,
}

impl RunRecord {
    /// The record of a run that has just started.
    pub fn running(run_name: String, argv: Vec<String>, started_at: String) -> (r: RunRecord)
        ensures
            r.run_name == run_name,
            r.status@ == "running"@,
            r.argv == argv,
            r.started_at == started_at,
            r.completed_at is None,
    {
        RunRecord {
            run_name,
            status: to_owned_string("running"),
            argv,
            started_at,
            completed_at: None,
        }
    }

    /// Marks the run complete at the given time.
    pub fn mark_complete(&mut self, completed_at: String)
        ensures
            final(self).status@ == "complete"@,
            final(self).completed_at == Some(completed_at),
            final(self).run_name == old(self).run_name,
            final(self).argv == old(self).argv,
            final(self).started_at == old(self).started_at,
    {
        self.status = to_owned_string("complete");
        self.completed_at = Some(completed_at);
    }
}

/// Build provenance of the program that made the run.
#[derive(Debug, Clone)]
pub struct CodeInfo {
    pub name: String,
    pub version: String,
    pub git_commit: Option<String>,
    pub git_dirty: bool,
    pub build_profile: String,
}

/// Machine the run was made on.
#[derive(Debug, Clone)]
pub struct HardwareInfo {
    pub hostname: String,
    pub os: String,
    pub gpu: Option<String>,
    pub vulkan_api_version: Option<String>,
    pub backend: String,
}

impl HardwareInfo {
    /// Host and OS known, GPU not yet probed; the backend is Vulkan.
    pub fn host(hostname: String, os: String) -> (r: HardwareInfo)
        ensures
            r.hostname == hostname,
            r.os == os,
            r.gpu is None,
            r.vulkan_api_version is None,
            r.backend@ == "Vulkan"@,
    {
        HardwareInfo {
            hostname,
            os,
            gpu: None,
            vulkan_api_version: None,
            backend: to_owned_string("Vulkan"),
        }
    }
}

/// Input files of a run and their digests.
#[derive(Debug, Clone)]
pub struct InputFiles {
    pub deck_path: String,
    pub field_path: Option<String>,
    pub field_sha256: Option<String>,
    pub e_field_path: Option<String>,
    pub e_field_sha256: Option<String>,
}

impl InputFiles {
    /// Only the deck is known.
    pub fn deck(deck_path: String) -> (r: InputFiles)
        ensures
            r.deck_path == deck_path,
            r.field_path is None,
            r.field_sha256 is None,
            r.e_field_path is None,
            r.e_field_sha256 is None,
    {
        InputFiles {
            deck_path,
            field_path: None,
            field_sha256: None,
            e_field_path: None,
            e_field_sha256: None,
        }
    }
}

/// Files a run wrote, relative to the run directory.
#[derive(Debug, Clone)]
pub struct OutputFiles {
    pub resolved_config: String,
    pub log: String,
    pub input_deck: Option<String>,
    pub raw_counts: Option<String>,
    pub processed_counts: Option<String>,
    pub hits_bin: Option<String>,
    pub radiograph_png: Option<String>,
    pub hits_csv: Option<String>,
}

impl OutputFiles {
    /// What every run writes from the start: the resolved config and the log.
    pub fn initial() -> (r: OutputFiles)
        ensures
            r.resolved_config@ == "resolved_config.json"@,
            r.log@ == "log.txt"@,
            r.input_deck is None,
            r.raw_counts is None,
            r.processed_counts is None,
            r.hits_bin is None,
            r.radiograph_png is None,
            r.hits_csv is None,
    {
        OutputFiles {
            resolved_config: to_owned_string("resolved_config.json"),
            log: to_owned_string("log.txt"),
            input_deck: None,
            raw_counts: None,
            processed_counts: None,
            hits_bin: None,
            radiograph_png: None,
            hits_csv: None,
        }
    }

    /// Records the counts and radiograph written by a successful export.
    pub fn record_exports(&mut self)
        ensures
            final(self).raw_counts matches Some(p) && p@ == "counts/raw_counts.bin"@,
            final(self).processed_counts matches Some(p) && p@ == "counts/processed_counts.bin"@,
            final(self).radiograph_png matches Some(p) && p@ == "images/radiograph.png"@,
            final(self).resolved_config == old(self).resolved_config,
            final(self).log == old(self).log,
            final(self).input_deck == old(self).input_deck,
            final(self).hits_bin == old(self).hits_bin,
            final(self).hits_csv == old(self).hits_csv,
    {
        self.raw_counts = Some(to_owned_string("counts/raw_counts.bin"));
        self.processed_counts = Some(to_owned_string("counts/processed_counts.bin"));
        self.radiograph_png = Some(to_owned_string("images/radiograph.png"));
    }
}

/// Layout of one binary counts file.
#[derive(Debug, Clone)]
pub struct CountsBinarySpec {
    pub dtype: String,
    pub endianness: String,
    pub shape: [u32; 2],
    pub layout: String,
    pub row_axis: String,
    pub col_axis: String,
    pub units: String,
}

/// Layouts of the raw and processed counts files.
#[derive(Debug, Clone)]
pub struct CountsFormat {
    pub raw: CountsBinarySpec,
    pub processed: CountsBinarySpec,
}

impl CountsFormat {
    /// Counts of a `width` × `height` detector texture: rows follow the
    /// detector z axis, columns the y axis; raw counts are `uint32`,
    /// processed ones `float32`, both little-endian row-major.
    pub fn for_detector(width: u32, height: u32) -> (r: CountsFormat)
        ensures
            r.raw.shape@ == seq![height, width],
            r.processed.shape@ == seq![height, width],
            r.raw.dtype@ == "uint32"@,
            r.processed.dtype@ == "float32"@,
            r.raw.endianness@ == "little"@,
            r.processed.endianness@ == "little"@,
            r.raw.layout@ == "row-major"@,
            r.processed.layout@ == "row-major"@,
            r.raw.row_axis@ == "detector_z"@,
            r.processed.row_axis@ == "detector_z"@,
            r.raw.col_axis@ == "detector_y"@,
            r.processed.col_axis@ == "detector_y"@,
            r.raw.units@ == "proton counts"@,
            r.processed.units@ == "detector-response-adjusted counts"@,
    {
        CountsFormat {
            raw: CountsBinarySpec {
                dtype: to_owned_string("uint32"),
                endianness: to_owned_string("little"),
                shape: [height, width],
                layout: to_owned_string("row-major"),
                row_axis: to_owned_string("detector_z"),
                col_axis: to_owned_string("detector_y"),
                units: to_owned_string("proton counts"),
            },
            processed: CountsBinarySpec {
                dtype: to_owned_string("float32"),
                endianness: to_owned_string("little"),
                shape: [height, width],
                layout: to_owned_string("row-major"),
                row_axis: to_owned_string("detector_z"),
                col_axis: to_owned_string("detector_y"),
                units: to_owned_string("detector-response-adjusted counts"),
            },
        }
    }
}

/// One `--set` override as recorded in the metadata.
#[derive(Debug, Clone)]
pub struct CliOverrideRecord {
    pub key: String,
    pub value: String,
}

/// The metadata records of the overrides given on the command line, in order.
pub fn cli_override_records(ovs: &Vec<ConfigOverride>) -> (r: Vec<CliOverrideRecord>)
    ensures
        r@.len() == ovs@.len(),
        forall|i: int|
            0 <= i < ovs@.len() ==> #[trigger] r@[i].key@ == ovs@[i].canonical_key@ && r@[i].value@
                == ovs@[i].raw_value@,
{
    let mut r: Vec<CliOverrideRecord> = Vec::new();
    for i in 0..ovs.len()
        invariant
            r@.len() == i,
            forall|j: int|
                #![trigger r@[j]]
                0 <= j < i ==> r@[j].key@ == ovs@[j].canonical_key@ && r@[j].value@
                    == ovs@[j].raw_value@,
    {
        let ov = &ovs[i];
        r.push(
            CliOverrideRecord {
                key: to_owned_string(ov.canonical_key.as_str()),
                value: to_owned_string(ov.raw_value.as_str()),
            },
        );
    }
    r
}

} // verus!
