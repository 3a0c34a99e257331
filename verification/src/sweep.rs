//! Parameter sweeps: `--param` specs, run labels, the zipped run list and
//! the live manifest of a sweep directory.

use vstd::prelude::*;
use crate::cli::{initial_args, is_option, run_syntax, scan_args, ArgView, ScanEnd};
use crate::text::{
    digit_value, digits_value, lemma_dec_digits,
    after_last, after_last_str, dec, push_char, push_decimal, push_zero_padded, str_eq,
    strings_view, to_owned_string, zero_pad,
};

verus! {

// ── Data ─────────────────────────────────────────────────────────────────────

/// One swept parameter: a canonical key and its values, in order.
#[derive(Debug, Clone)]
pub struct SweepParam {
    /// Canonical key, e.g. `source.energy_MeV`.
    pub key: String,
    /// Values as typed or expanded, e.g. `["5", "10", "15", "20"]`.
    pub values: Vec<String>,
}

/// A parsed `sweep` command line.
#[derive(Debug, Clone)]
pub struct SweepSpec {
    pub deck_path: String,
    pub params: Vec<SweepParam>,
    pub output_dir: String,
    pub overwrite: bool,
}

/// Live record of a sweep, kept as JSON in the sweep directory.
#[derive(Debug, Clone)]
pub struct SweepManifest {
    pub sweep_schema_version: u32,
    pub deck: String,
    pub params: Vec<ManifestParam>,
    pub runs: Vec<ManifestRun>,
    pub started_at: String,
    pub completed_at: Option<String>,
}

/// A swept parameter as recorded in the manifest.
#[derive(Debug, Clone)]
pub struct ManifestParam {
    pub key: String,
    pub values: Vec<String>,
}

/// One point of the sweep.
#[derive(Debug, Clone)]
pub struct ManifestRun {
    pub label: String,
    pub run_dir: String,
    pub overrides: Vec<ManifestOverride>,
    /// `pending`, `running`, `complete` or `failed`.
    pub status: String,
}

/// One override applied at a sweep point.
#[derive(Debug, Clone)]
pub struct ManifestOverride {
    pub key: String,
    pub value: String,
}

impl SweepParam {
    pub open spec fn pair(&self) -> (Seq<char>, Seq<Seq<char>>) {
        (self.key@, strings_view(self.values@))
    }
}

impl ManifestParam {
    pub open spec fn pair(&self) -> (Seq<char>, Seq<Seq<char>>) {
        (self.key@, strings_view(self.values@))
    }
}

impl ManifestOverride {
    pub open spec fn pair(&self) -> (Seq<char>, Seq<char>) {
        (self.key@, self.value@)
    }
}

pub open spec fn params_view(ps: Seq<SweepParam>) -> Seq<(Seq<char>, Seq<Seq<char>>)> {
    ps.map_values(|p: SweepParam| p.pair())
}

pub open spec fn manifest_overrides_view(ovs: Seq<ManifestOverride>) -> Seq<(Seq<char>, Seq<char>)> {
    ovs.map_values(|o: ManifestOverride| o.pair())
}

// ── Labels and directory names ───────────────────────────────────────────────

/// Joins `parts` with `sep` between consecutive parts.
pub open spec fn join_with(parts: Seq<Seq<char>>, sep: char) -> Seq<char>
    decreases parts.len(),
{
    if parts.len() == 0 {
        Seq::empty()
    } else if parts.len() == 1 {
        parts[0]
    } else {
        join_with(parts.drop_last(), sep) + seq![sep] + parts.last()
    }
}

/// Label piece of one override: the last dotted component of the key, `_`,
/// and the value (e.g. `energy_MeV_5`).
pub open spec fn label_piece(o: (Seq<char>, Seq<char>)) -> Seq<char> {
    after_last(o.0, '.') + seq!['_'] + o.1
}

/// Label of a sweep point: its label pieces joined by `_`.
pub open spec fn run_label(ovs: Seq<(Seq<char>, Seq<char>)>) -> Seq<char> {
    join_with(ovs.map_values(|o: (Seq<char>, Seq<char>)| label_piece(o)), '_')
}

/// Label (and directory name) of a sweep point.
pub fn make_run_label(overrides: &Vec<ManifestOverride>) -> (r: String)
    ensures
        r@ == run_label(manifest_overrides_view(overrides@)),
{
    let ghost ovs = manifest_overrides_view(overrides@);
    let ghost pieces = ovs.map_values(|o: (Seq<char>, Seq<char>)| label_piece(o));
    let mut s = String::new();
    let n = overrides.len();
    for i in 0..n
        invariant
            n == overrides@.len(),
            ovs == manifest_overrides_view(overrides@),
            pieces == ovs.map_values(|o: (Seq<char>, Seq<char>)| label_piece(o)),
            s@ == join_with(pieces.take(i as int), '_'),
    {
        let o = &overrides[i];
        let ghost before = s@;
        if i > 0 {
            push_char(&mut s, '_');
        }
        s.append(after_last_str(o.key.as_str(), '.'));
        push_char(&mut s, '_');
        s.append(o.value.as_str());
        proof {
            assert(pieces[i as int] == label_piece(ovs[i as int]));
            assert(pieces.take(i + 1).drop_last() =~= pieces.take(i as int));
            if i == 0 {
                assert(before =~= Seq::<char>::empty());
                assert(s@ =~= pieces[0]);
            } else {
                assert(s@ =~= before + seq!['_'] + pieces[i as int]);
            }
        }
    }
    assert(pieces.take(n as int) =~= pieces);
    s
}

/// Name of the `n`-th automatically numbered sweep directory, `sweep_NNN`.
pub open spec fn sweep_dir_name_spec(n: nat) -> Seq<char> {
    "sweep_"@ + zero_pad(dec(n), 3)
}

/// `sweep_` followed by `n` zero-padded to three digits.
pub fn sweep_dir_name(n: u64) -> (r: String)
    ensures
        r@ == sweep_dir_name_spec(n as nat),
{
    let mut s = to_owned_string("sweep_");
    push_zero_padded(&mut s, n, 3);
    s
}

/// `sweep_` followed by a timestamp, used once all numbered names are taken.
pub fn sweep_dir_name_at(secs: u64) -> (r: String)
    ensures
        r@ == "sweep_"@ + dec(secs as nat),
{
    let mut s = to_owned_string("sweep_");
    push_decimal(&mut s, secs);
    s
}

// ── Zipped run list ──────────────────────────────────────────────────────────

/// All parameters have as many values as the first one (zip mode).
pub open spec fn zip_ok(ps: Seq<(Seq<char>, Seq<Seq<char>>)>) -> bool {
    &&& ps.len() > 0
    &&& forall|j: int| 0 <= j < ps.len() ==> (#[trigger] ps[j]).1.len() == ps[0].1.len()
}

/// Overrides of sweep point `i`: every key with its `i`-th value.
pub open spec fn point_overrides(ps: Seq<(Seq<char>, Seq<Seq<char>>)>, i: int) -> Seq<
    (Seq<char>, Seq<char>),
> {
    ps.map_values(|p: (Seq<char>, Seq<Seq<char>>)| (p.0, p.1[i]))
}

/// The overrides of sweep point `i`.
pub fn point_overrides_of(params: &Vec<SweepParam>, i: usize) -> (r: Vec<ManifestOverride>)
    requires
        zip_ok(params_view(params@)),
        i < params@[0].values@.len(),
    ensures
        manifest_overrides_view(r@) == point_overrides(params_view(params@), i as int),
{
    let ghost pv = params_view(params@);
    let mut r: Vec<ManifestOverride> = Vec::new();
    for j in 0..params.len()
        invariant
            pv == params_view(params@),
            zip_ok(pv),
            i < params@[0].values@.len(),
            manifest_overrides_view(r@) =~= point_overrides(pv, i as int).take(j as int),
    {
        let p = &params[j];
        assert(pv[j as int].1.len() == pv[0].1.len());
        assert(pv[j as int] == p.pair());
        assert(strings_view(p.values@)[i as int] == p.values@[i as int]@);
        let ghost before = r@;
        r.push(
            ManifestOverride {
                key: to_owned_string(p.key.as_str()),
                value: to_owned_string(p.values[i].as_str()),
            },
        );
        assert(manifest_overrides_view(r@) =~= manifest_overrides_view(before).push(
            point_overrides(pv, i as int)[j as int],
        ));
    }
    assert(point_overrides(pv, i as int).take(params@.len() as int) =~= point_overrides(
        pv,
        i as int,
    ));
    r
}

// ── Manifest ─────────────────────────────────────────────────────────────────

/// Status of a sweep point.
#[derive(Debug, Clone, Copy, PartialEq, Eq)]
pub enum RunStatus {
    Pending,
    Running,
    Complete,
    Failed,
}

/// Name under which a status is recorded.
pub open spec fn status_name(s: RunStatus) -> Seq<char> {
    match s {
        RunStatus::Pending => "pending"@,
        RunStatus::Running => "running"@,
        RunStatus::Complete => "complete"@,
        RunStatus::Failed => "failed"@,
    }
}

pub fn status_str(s: RunStatus) -> (r: &'static str)
    ensures
        r@ == status_name(s),
{
    match s {
        RunStatus::Pending => "pending",
        RunStatus::Running => "running",
        RunStatus::Complete => "complete",
        RunStatus::Failed => "failed",
    }
}

fn copy_strings(v: &Vec<String>) -> (r: Vec<String>)
    ensures
        strings_view(r@) == strings_view(v@),
{
    let mut r: Vec<String> = Vec::new();
    for i in 0..v.len()
        invariant
            strings_view(r@) =~= strings_view(v@).take(i as int),
    {
        let ghost before = r@;
        r.push(to_owned_string(v[i].as_str()));
        assert(strings_view(r@) =~= strings_view(before).push(v@[i as int]@));
    }
    assert(strings_view(v@).take(v@.len() as int) =~= strings_view(v@));
    r
}

/// The manifest of a sweep that has just started: every point pending, in
/// order, labelled by [`run_label`] and run in the directory of that name.
pub fn initial_manifest(spec: &SweepSpec, started_at: String) -> (r: SweepManifest)
    requires
        zip_ok(params_view(spec.params@)),
    ensures
        r.sweep_schema_version == 1,
        r.deck@ == spec.deck_path@,
        r.params@.len() == spec.params@.len(),
        forall|j: int| 0 <= j < spec.params@.len() ==> #[trigger] r.params@[j].pair() == spec.params@[j].pair(),
        r.runs@.len() == spec.params@[0].values@.len(),
        forall|i: int|
            #![trigger r.runs@[i]]
            0 <= i < r.runs@.len() ==> {
                let ovs = point_overrides(params_view(spec.params@), i);
                &&& manifest_overrides_view(r.runs@[i].overrides@) == ovs
                &&& r.runs@[i].label@ == run_label(ovs)
                &&& r.runs@[i].run_dir@ == run_label(ovs)
                &&& r.runs@[i].status@ == "pending"@
            },
        r.started_at == started_at,
        r.completed_at is None,
{
    let mut params: Vec<ManifestParam> = Vec::new();
    for j in 0..spec.params.len()
        invariant
            params@.len() == j,
            forall|k: int| 0 <= k < j ==> #[trigger] params@[k].pair() == spec.params@[k].pair(),
    {
        let p = &spec.params[j];
        params.push(
            ManifestParam { key: to_owned_string(p.key.as_str()), values: copy_strings(&p.values) },
        );
    }
    let n = spec.params[0].values.len();
    let mut runs: Vec<ManifestRun> = Vec::new();
    for i in 0..n
        invariant
            n == spec.params@[0].values@.len(),
            zip_ok(params_view(spec.params@)),
            runs@.len() == i,
            forall|k: int|
                #![trigger runs@[k]]
                0 <= k < i ==> {
                    let ovs = point_overrides(params_view(spec.params@), k);
                    &&& manifest_overrides_view(runs@[k].overrides@) == ovs
                    &&& runs@[k].label@ == run_label(ovs)
                    &&& runs@[k].run_dir@ == run_label(ovs)
                    &&& runs@[k].status@ == "pending"@
                },
    {
        let overrides = point_overrides_of(&spec.params, i);
        let label = make_run_label(&overrides);
        let run_dir = to_owned_string(label.as_str());
        runs.push(
            ManifestRun { label, run_dir, overrides, status: to_owned_string("pending") },
        );
    }
    SweepManifest {
        sweep_schema_version: 1,
        deck: to_owned_string(spec.deck_path.as_str()),
        params,
        runs,
        started_at,
        completed_at: None,
    }
}

impl SweepManifest {
    /// Records the status of sweep point `idx`; nothing else changes.
    pub fn set_status(&mut self, idx: usize, status: RunStatus)
        requires
            idx < old(self).runs@.len(),
        ensures
            final(self).runs@.len() == old(self).runs@.len(),
            final(self).runs@[idx as int].status@ == status_name(status),
            final(self).runs@[idx as int].label == old(self).runs@[idx as int].label,
            final(self).runs@[idx as int].run_dir == old(self).runs@[idx as int].run_dir,
            final(self).runs@[idx as int].overrides@ == old(self).runs@[idx as int].overrides@,
            forall|k: int|
                0 <= k < final(self).runs@.len() && k != idx ==> #[trigger] final(self).runs@[k]
                    == old(self).runs@[k],
            final(self).sweep_schema_version == old(self).sweep_schema_version,
            final(self).deck == old(self).deck,
            final(self).params == old(self).params,
            final(self).started_at == old(self).started_at,
            final(self).completed_at == old(self).completed_at,
    {
        let old_run = &self.runs[idx];
        let updated = ManifestRun {
            label: old_run.label.clone(),
            run_dir: old_run.run_dir.clone(),
            overrides: clone_overrides(&old_run.overrides),
            status: to_owned_string(status_str(status)),
        };
        self.runs.set(idx, updated);
    }
}

fn clone_overrides(v: &Vec<ManifestOverride>) -> (r: Vec<ManifestOverride>)
    ensures
        r@ == v@,
{
    let mut r: Vec<ManifestOverride> = Vec::new();
    for i in 0..v.len()
        invariant
            r@ == v@.take(i as int),
    {
        let o = &v[i];
        r.push(ManifestOverride { key: o.key.clone(), value: o.value.clone() });
        assert(r@ =~= v@.take(i + 1));
    }
    assert(v@.take(v@.len() as int) =~= v@);
    r
}

} // verus!

verus! {

// ── Run bookkeeping ──────────────────────────────────────────────────────────

/// Number of runs whose status is `name`.
pub open spec fn count_status(runs: Seq<ManifestRun>, name: Seq<char>) -> nat
    decreases runs.len(),
{
    if runs.len() == 0 {
        0
    } else {
        count_status(runs.drop_last(), name) + if runs.last().status@ == name {
            1nat
        } else {
            0nat
        }
    }
}

proof fn lemma_count_two(runs: Seq<ManifestRun>, a: Seq<char>, b: Seq<char>)
    requires
        a != b,
    ensures
        count_status(runs, a) + count_status(runs, b) <= runs.len(),
    decreases runs.len(),
{
    if runs.len() > 0 {
        lemma_count_two(runs.drop_last(), a, b);
    }
}

/// Completed, failed and not-yet-finished runs of a sweep.
#[derive(Debug, Clone, Copy, PartialEq, Eq)]
pub struct StatusCounts {
    pub complete: usize,
    pub failed: usize,
    pub pending: usize,
}

/// Counts the runs by status; every run that is neither complete nor failed
/// counts as pending.
pub fn status_counts(runs: &Vec<ManifestRun>) -> (r: StatusCounts)
    ensures
        r.complete == count_status(runs@, "complete"@),
        r.failed == count_status(runs@, "failed"@),
        r.complete + r.failed + r.pending == runs@.len(),
{
    let mut complete: usize = 0;
    let mut failed: usize = 0;
    let n = runs.len();
    proof {
        reveal_strlit("complete");
        reveal_strlit("failed");
        assert("complete"@.len() != "failed"@.len());
    }
    for i in 0..n
        invariant
            n == runs@.len(),
            complete == count_status(runs@.take(i as int), "complete"@),
            failed == count_status(runs@.take(i as int), "failed"@),
            complete + failed <= i,
            "complete"@ != "failed"@,
    {
        assert(runs@.take(i + 1).drop_last() =~= runs@.take(i as int));
        let st = runs[i].status.as_str();
        if crate::text::str_eq(st, "complete") {
            complete = complete + 1;
        } else if crate::text::str_eq(st, "failed") {
            failed = failed + 1;
        }
    }
    assert(runs@.take(n as int) =~= runs@);
    StatusCounts { complete, failed, pending: n - complete - failed }
}

/// What to do with an existing sweep directory before a sweep starts.
#[derive(Debug, Clone, Copy, PartialEq, Eq)]
pub enum SweepDirPlan {
    /// Create the directory (it does not exist yet).
    Create,
    /// Remove the existing directory, then create it.
    Replace,
    /// Refuse: it exists and `--overwrite` was not given.
    Refuse,
}

pub fn plan_sweep_dir(exists: bool, overwrite: bool) -> (r: SweepDirPlan)
    ensures
        !exists ==> r == SweepDirPlan::Create,
        exists && overwrite ==> r == SweepDirPlan::Replace,
        exists && !overwrite ==> r == SweepDirPlan::Refuse,
{
    if !exists {
        SweepDirPlan::Create
    } else if overwrite {
        SweepDirPlan::Replace
    } else {
        SweepDirPlan::Refuse
    }
}

/// `--set key=value` arguments for the given overrides.
pub open spec fn set_args(ovs: Seq<(Seq<char>, Seq<char>)>) -> Seq<Seq<char>>
    decreases ovs.len(),
{
    if ovs.len() == 0 {
        Seq::empty()
    } else {
        set_args(ovs.drop_last()) + seq!["--set"@, ovs.last().0 + seq!['='] + ovs.last().1]
    }
}

/// Command line (after the program name) that runs one sweep point:
/// `run <deck> -o <run_out> --set k=v ...`.
pub fn sweep_run_argv(deck: &str, run_out: &str, overrides: &Vec<ManifestOverride>) -> (r: Vec<
    String,
>)
    ensures
        strings_view(r@) == seq!["run"@, deck@, "-o"@, run_out@] + set_args(
            manifest_overrides_view(overrides@),
        ),
{
    let mut r: Vec<String> = Vec::new();
    r.push(to_owned_string("run"));
    r.push(to_owned_string(deck));
    r.push(to_owned_string("-o"));
    r.push(to_owned_string(run_out));
    let ghost head = seq!["run"@, deck@, "-o"@, run_out@];
    let ghost ovs = manifest_overrides_view(overrides@);
    assert(strings_view(r@) =~= head);
    assert(ovs.take(0) =~= Seq::<(Seq<char>, Seq<char>)>::empty());
    for i in 0..overrides.len()
        invariant
            ovs == manifest_overrides_view(overrides@),
            strings_view(r@) =~= head + set_args(ovs.take(i as int)),
    {
        let o = &overrides[i];
        let ghost before = r@;
        r.push(to_owned_string("--set"));
        let mut kv = to_owned_string(o.key.as_str());
        push_char(&mut kv, '=');
        kv.append(o.value.as_str());
        r.push(kv);
        assert(ovs.take(i + 1).drop_last() =~= ovs.take(i as int));
        assert(ovs.take(i + 1).last() == ovs[i as int]);
        assert(ovs[i as int] == (o.key@, o.value@));
        assert(kv@ == o.key@ + seq!['='] + o.value@);
        assert(strings_view(r@) =~= strings_view(before) + seq!["--set"@, kv@]);
        assert(set_args(ovs.take(i + 1)) == set_args(ovs.take(i as int)) + seq![
            "--set"@,
            kv@,
        ]);
        assert(strings_view(r@) =~= head + set_args(ovs.take(i + 1)));
    }
    assert(ovs.take(overrides@.len() as int) =~= ovs);
    r
}

} // verus!

verus! {

// ── The `sweep` command line ─────────────────────────────────────────────────

/// Why a `sweep` command line was refused.
#[derive(Debug, Clone)]
pub enum SweepError {
    /// `--param` was the last argument.
    ParamMissingValue,
    /// A `--param` spec without `=`; holds the spec.
    MissingEquals(String),
    /// A `--param` key that cannot be overridden; holds the key.
    UnknownKey(String),
    /// A range that is not `start:stop:step`; holds the value text.
    RangeSyntax(String),
    /// A range whose numbers could not be expanded; holds the reason.
    Range(String),
    /// A `--param` whose value list came out empty; holds the key.
    EmptyValues(String),
    /// An argument that is not a sweep option; holds it.
    UnknownOption(String),
    /// No deck path was given.
    MissingDeck,
    /// No `--param` was given.
    NoParams,
    /// Value lists of different lengths (zip mode needs equal lengths).
    LengthMismatch { first_key: String, first_len: usize, key: String, len: usize },
}

/// Abstract content of [`SweepError`].
pub enum SweepFailure {
    ParamMissingValue,
    MissingEquals(Seq<char>),
    UnknownKey(Seq<char>),
    RangeSyntax(Seq<char>),
    Range(Seq<char>),
    EmptyValues(Seq<char>),
    UnknownOption(Seq<char>),
    MissingDeck,
    NoParams,
    LengthMismatch(Seq<char>, nat, Seq<char>, nat),
}

impl SweepError {
    pub open spec fn failure(&self) -> SweepFailure {
        match self {
            SweepError::ParamMissingValue => SweepFailure::ParamMissingValue,
            SweepError::MissingEquals(s) => SweepFailure::MissingEquals(s@),
            SweepError::UnknownKey(s) => SweepFailure::UnknownKey(s@),
            SweepError::RangeSyntax(s) => SweepFailure::RangeSyntax(s@),
            SweepError::Range(s) => SweepFailure::Range(s@),
            SweepError::EmptyValues(s) => SweepFailure::EmptyValues(s@),
            SweepError::UnknownOption(s) => SweepFailure::UnknownOption(s@),
            SweepError::MissingDeck => SweepFailure::MissingDeck,
            SweepError::NoParams => SweepFailure::NoParams,
            SweepError::LengthMismatch { first_key, first_len, key, len } => SweepFailure::LengthMismatch(
                first_key@,
                *first_len as nat,
                key@,
                *len as nat,
            ),
        }
    }
}

/// What a `--param key=values` spec says.
pub enum ParamSyntax {
    MissingEquals,
    UnknownKey(Seq<char>),
    RangeSyntax(Seq<char>),
    /// Canonical key and the three (untrimmed) parts of `start:stop:step`.
    Range(Seq<char>, Seq<char>, Seq<char>, Seq<char>),
    /// Canonical key and the comma-separated values, each trimmed.
    List(Seq<char>, Seq<Seq<char>>),
}

/// Reading of a `--param` spec: key before the first `=`, values after it;
/// a value text holding `:` is a range `start:stop:step`, any other is a
/// comma-separated list.
pub open spec fn param_syntax(spec: Seq<char>) -> ParamSyntax {
    match spec.index_of_first('=') {
        None => ParamSyntax::MissingEquals,
        Some(eq) => {
            let key = crate::overrides::key_part(spec, eq);
            let vals = crate::overrides::value_part(spec, eq);
            match crate::overrides::canonical_key_of(key) {
                None => ParamSyntax::UnknownKey(key),
                Some(k) => if vals.contains(':') {
                    let parts = crate::text::split_on(vals, ':');
                    if parts.len() != 3 {
                        ParamSyntax::RangeSyntax(vals)
                    } else {
                        ParamSyntax::Range(k, parts[0], parts[1], parts[2])
                    }
                } else {
                    ParamSyntax::List(
                        k,
                        crate::text::split_on(vals, ',').map_values(
                            |v: Seq<char>| crate::text::trim(v),
                        ),
                    )
                },
            }
        },
    }
}

/// Abstract state of the argument scan.
pub struct SweepArgView {
    pub deck: Option<Seq<char>>,
    pub output: Option<Seq<char>>,
    pub params: Seq<(Seq<char>, Seq<Seq<char>>)>,
    pub overwrite: bool,
}

pub open spec fn initial_sweep_args() -> SweepArgView {
    SweepArgView { deck: None, output: None, params: Seq::empty(), overwrite: false }
}

/// Where a scan of the `sweep` arguments stops.
pub enum SweepScan {
    Finished(SweepArgView),
    Help,
    /// A range must be expanded before going on at argument `next`.
    NeedRange(int, Seq<char>, Seq<char>, Seq<char>, Seq<char>, SweepArgView),
    Failed(SweepFailure),
}

/// First parameter (from `j` on) whose value count differs from the first one's.
pub open spec fn first_mismatch(ps: Seq<(Seq<char>, Seq<Seq<char>>)>, j: int) -> Option<int>
    decreases ps.len() - j,
{
    if j < 0 || j >= ps.len() {
        None
    } else if ps[j].1.len() != ps[0].1.len() {
        Some(j)
    } else {
        first_mismatch(ps, j + 1)
    }
}

/// The checks made once all arguments are read.
pub open spec fn finish_sweep_args(st: SweepArgView) -> SweepScan {
    if st.deck is None {
        SweepScan::Failed(SweepFailure::MissingDeck)
    } else if st.params.len() == 0 {
        SweepScan::Failed(SweepFailure::NoParams)
    } else {
        match first_mismatch(st.params, 1) {
            Some(j) => SweepScan::Failed(
                SweepFailure::LengthMismatch(
                    st.params[0].0,
                    st.params[0].1.len(),
                    st.params[j].0,
                    st.params[j].1.len(),
                ),
            ),
            None => SweepScan::Finished(st),
        }
    }
}

/// The `sweep` arguments from position `i` on, applied to `st`.
pub open spec fn sweep_scan(argv: Seq<Seq<char>>, i: int, st: SweepArgView) -> SweepScan
    decreases argv.len() - i,
{
    if i < 0 || i >= argv.len() {
        finish_sweep_args(st)
    } else {
        let a = argv[i];
        if a == "--help"@ || a == "-h"@ {
            SweepScan::Help
        } else if a == "-o"@ || a == "--output"@ {
            if i + 1 < argv.len() {
                sweep_scan(argv, i + 2, SweepArgView { output: Some(argv[i + 1]), ..st })
            } else {
                finish_sweep_args(SweepArgView { output: None, ..st })
            }
        } else if a == "--overwrite"@ {
            sweep_scan(argv, i + 1, SweepArgView { overwrite: true, ..st })
        } else if a == "--param"@ {
            if i + 1 < argv.len() {
                match param_syntax(argv[i + 1]) {
                    ParamSyntax::MissingEquals => SweepScan::Failed(
                        SweepFailure::MissingEquals(argv[i + 1]),
                    ),
                    ParamSyntax::UnknownKey(k) => SweepScan::Failed(SweepFailure::UnknownKey(k)),
                    ParamSyntax::RangeSyntax(v) => SweepScan::Failed(SweepFailure::RangeSyntax(v)),
                    ParamSyntax::Range(k, p0, p1, p2) => SweepScan::NeedRange(i + 2, k, p0, p1, p2, st),
                    ParamSyntax::List(k, vs) => if vs.len() == 0 {
                        SweepScan::Failed(SweepFailure::EmptyValues(k))
                    } else {
                        sweep_scan(argv, i + 2, SweepArgView { params: st.params.push((k, vs)), ..st })
                    },
                }
            } else {
                SweepScan::Failed(SweepFailure::ParamMissingValue)
            }
        } else if !crate::cli::is_option(a) && st.deck is None {
            sweep_scan(argv, i + 1, SweepArgView { deck: Some(a), ..st })
        } else {
            SweepScan::Failed(SweepFailure::UnknownOption(a))
        }
    }
}

/// Going on after a range was expanded: an expansion error stops the scan,
/// an empty expansion is refused, otherwise the parameter is added.
pub open spec fn resume_scan(
    argv: Seq<Seq<char>>,
    next: int,
    key: Seq<char>,
    st: SweepArgView,
    expanded: Result<Seq<Seq<char>>, Seq<char>>,
) -> SweepScan {
    match expanded {
        Err(m) => SweepScan::Failed(SweepFailure::Range(m)),
        Ok(vs) => if vs.len() == 0 {
            SweepScan::Failed(SweepFailure::EmptyValues(key))
        } else {
            sweep_scan(argv, next, SweepArgView { params: st.params.push((key, vs)), ..st })
        },
    }
}

/// Arguments of a sweep before the output directory is settled.
#[derive(Debug)]
pub struct SweepArgs {
    pub deck_path: String,
    pub params: Vec<SweepParam>,
    /// `None`: use the next free `runs/sweep_NNN`.
    pub output_dir: Option<String>,
    pub overwrite: bool,
}

/// State of a scan paused at a range.
#[derive(Debug)]
pub struct SweepArgState {
    deck_path: Option<String>,
    output_dir: Option<String>,
    params: Vec<SweepParam>,
    overwrite: bool,
    next: usize,
}

/// A range that must be expanded (with floating-point stepping) before the
/// scan can go on.
#[derive(Debug)]
pub struct RangeRequest {
    pub key: String,
    pub start: String,
    pub stop: String,
    pub step: String,
    /// Where the scan goes on.
    pub state: SweepArgState,
}

/// Where parsing of the `sweep` command line stands.
#[derive(Debug)]
pub enum SweepArgStep {
    Finished(SweepArgs),
    Help,
    NeedRange(RangeRequest),
}

pub open spec fn opt_view(o: Option<String>) -> Option<Seq<char>> {
    crate::cli::opt_view(o)
}

impl SweepArgs {
    pub open spec fn view_args(&self) -> SweepArgView {
        SweepArgView {
            deck: Some(self.deck_path@),
            output: opt_view(self.output_dir),
            params: params_view(self.params@),
            overwrite: self.overwrite,
        }
    }
}

impl SweepArgState {
    pub closed spec fn view_state(&self) -> SweepArgView {
        SweepArgView {
            deck: opt_view(self.deck_path),
            output: opt_view(self.output_dir),
            params: params_view(self.params@),
            overwrite: self.overwrite,
        }
    }

    pub closed spec fn next_index(&self) -> int {
        self.next as int
    }
}

impl RangeRequest {
    pub open spec fn view_state(&self) -> SweepArgView {
        self.state.view_state()
    }

    pub open spec fn next_index(&self) -> int {
        self.state.next_index()
    }
}

/// Whether an executable step is the one the scan specifies.
pub open spec fn step_is(r: Result<SweepArgStep, SweepError>, s: SweepScan) -> bool {
    match s {
        SweepScan::Finished(v) => r matches Ok(SweepArgStep::Finished(a)) && a.view_args() == v,
        SweepScan::Help => r matches Ok(SweepArgStep::Help),
        SweepScan::NeedRange(next, k, p0, p1, p2, v) => r matches Ok(SweepArgStep::NeedRange(q))
            && q.next_index() == next && q.key@ == k && q.start@ == p0 && q.stop@ == p1 && q.step@
            == p2 && q.view_state() == v,
        SweepScan::Failed(f) => r matches Err(e) && e.failure() == f,
    }
}

/// The final checks: a deck, at least one parameter, equal value counts.
fn finish_sweep(st: SweepArgState) -> (r: Result<SweepArgStep, SweepError>)
    ensures
        step_is(r, finish_sweep_args(st.view_state())),
{
    let ghost v = st.view_state();
    let deck_path = match st.deck_path {
        Some(d) => d,
        None => {
            return Err(SweepError::MissingDeck);
        },
    };
    if st.params.len() == 0 {
        return Err(SweepError::NoParams);
    }
    let n = st.params[0].values.len();
    let mut j: usize = 1;
    while j < st.params.len()
        invariant
            1 <= j <= st.params@.len(),
            v.params == params_view(st.params@),
            v == st.view_state(),
            v.deck is Some,
            n == v.params[0].1.len(),
            first_mismatch(v.params, 1) == first_mismatch(v.params, j as int),
        decreases st.params@.len() - j,
    {
        let p = &st.params[j];
        assert(v.params[j as int] == p.pair());
        assert(v.params[0] == st.params@[0].pair());
        if p.values.len() != n {
            assert(first_mismatch(v.params, j as int) == Some(j as int));
            return Err(
                SweepError::LengthMismatch {
                    first_key: to_owned_string(st.params[0].key.as_str()),
                    first_len: n,
                    key: to_owned_string(p.key.as_str()),
                    len: p.values.len(),
                },
            );
        }
        j = j + 1;
    }
    let a = SweepArgs {
        deck_path,
        params: st.params,
        output_dir: st.output_dir,
        overwrite: st.overwrite,
    };
    Ok(SweepArgStep::Finished(a))
}

/// Reads a `--param` spec (the range case stops before any expansion).
pub fn parse_param_spec(spec: &str) -> (r: Result<ParamSpec, SweepError>)
    ensures
        match param_syntax(spec@) {
            ParamSyntax::MissingEquals => r matches Err(SweepError::MissingEquals(s)) && s@ == spec@,
            ParamSyntax::UnknownKey(k) => r matches Err(SweepError::UnknownKey(s)) && s@ == k,
            ParamSyntax::RangeSyntax(v) => r matches Err(SweepError::RangeSyntax(s)) && s@ == v,
            ParamSyntax::Range(k, p0, p1, p2) => r matches Ok(ParamSpec::Range { key, start, stop, step })
                && key@ == k && start@ == p0 && stop@ == p1 && step@ == p2,
            ParamSyntax::List(k, vs) => r matches Ok(ParamSpec::List(p)) && p.pair() == (k, vs),
        },
{
    let (key_raw, vals) = match crate::overrides::split_key_value(spec) {
        None => {
            return Err(SweepError::MissingEquals(to_owned_string(spec)));
        },
        Some(kv) => kv,
    };
    let key = match crate::overrides::canonicalize_key(key_raw) {
        Ok(k) => k,
        Err(_) => {
            return Err(SweepError::UnknownKey(to_owned_string(key_raw)));
        },
    };
    let vchars = crate::text::chars_of(vals);
    if crate::text::contains_char(&vchars, ':') {
        let parts = crate::text::split_str(vals, ':');
        if parts.len() != 3 {
            return Err(SweepError::RangeSyntax(to_owned_string(vals)));
        }
        assert(strings_view(parts@)[0] == parts@[0]@);
        assert(strings_view(parts@)[1] == parts@[1]@);
        assert(strings_view(parts@)[2] == parts@[2]@);
        Ok(
            ParamSpec::Range {
                key: to_owned_string(key),
                start: to_owned_string(parts[0].as_str()),
                stop: to_owned_string(parts[1].as_str()),
                step: to_owned_string(parts[2].as_str()),
            },
        )
    } else {
        let pieces = crate::text::split_str(vals, ',');
        let ghost pv = strings_view(pieces@);
        let mut values: Vec<String> = Vec::new();
        for i in 0..pieces.len()
            invariant
                pv == strings_view(pieces@),
                strings_view(values@) =~= pv.take(i as int).map_values(
                    |v: Seq<char>| crate::text::trim(v),
                ),
        {
            let ghost before = values@;
            values.push(to_owned_string(crate::text::trim_str(pieces[i].as_str())));
            assert(pv[i as int] == pieces@[i as int]@);
            assert(strings_view(values@) =~= strings_view(before).push(
                crate::text::trim(pv[i as int]),
            ));
            assert(pv.take(i + 1).map_values(|v: Seq<char>| crate::text::trim(v)) =~= pv.take(
                i as int,
            ).map_values(|v: Seq<char>| crate::text::trim(v)).push(crate::text::trim(pv[i as int])));
        }
        assert(pv.take(pieces@.len() as int) =~= pv);
        Ok(ParamSpec::List(SweepParam { key: to_owned_string(key), values }))
    }
}

/// A `--param` spec as read: a complete value list, or a range still to expand.
#[derive(Debug)]
pub enum ParamSpec {
    List(SweepParam),
    Range { key: String, start: String, stop: String, step: String },
}

/// Scans the `sweep` arguments from the state's position on.
fn continue_sweep_args(argv: &Vec<String>, start: SweepArgState) -> (r: Result<
    SweepArgStep,
    SweepError,
>)
    requires
        start.next <= argv@.len(),
    ensures
        step_is(r, sweep_scan(crate::cli::args_view(argv@), start.next as int, start.view_state())),
{
    let ghost av = crate::cli::args_view(argv@);
    let ghost target = sweep_scan(av, start.next as int, start.view_state());
    let mut st = start;
    let n = argv.len();
    while st.next < n
        invariant
            n == argv@.len(),
            av == crate::cli::args_view(argv@),
            av.len() == n,
            st.next <= n,
            target == sweep_scan(av, st.next as int, st.view_state()),
            target == sweep_scan(crate::cli::args_view(argv@), start.next as int, start.view_state()),
        decreases n - st.next,
    {
        let i = st.next;
        let a = argv[i].as_str();
        assert(av[i as int] == a@);
        let ghost before = st.view_state();
        if str_eq(a, "--help") || str_eq(a, "-h") {
            return Ok(SweepArgStep::Help);
        } else if str_eq(a, "-o") || str_eq(a, "--output") {
            if i + 1 < n {
                assert(av[i + 1] == argv@[i + 1]@);
                st.output_dir = Some(to_owned_string(argv[i + 1].as_str()));
                st.next = i + 2;
                assert(st.view_state() == (SweepArgView { output: Some(av[i + 1]), ..before }));
            } else {
                st.output_dir = None;
                assert(st.view_state() == (SweepArgView { output: None, ..before }));
                return finish_sweep(st);
            }
        } else if str_eq(a, "--overwrite") {
            st.overwrite = true;
            st.next = i + 1;
            assert(st.view_state() == (SweepArgView { overwrite: true, ..before }));
        } else if str_eq(a, "--param") {
            if i + 1 >= n {
                return Err(SweepError::ParamMissingValue);
            }
            assert(av[i + 1] == argv@[i + 1]@);
            match parse_param_spec(argv[i + 1].as_str()) {
                Err(e) => {
                    return Err(e);
                },
                Ok(ParamSpec::Range { key, start, stop, step }) => {
                    st.next = i + 2;
                    return Ok(SweepArgStep::NeedRange(RangeRequest { key, start, stop, step, state: st }));
                },
                Ok(ParamSpec::List(p)) => {
                    if p.values.len() == 0 {
                        return Err(SweepError::EmptyValues(p.key));
                    }
                    let ghost pp = p.pair();
                    st.params.push(p);
                    st.next = i + 2;
                    assert(params_view(st.params@) =~= before.params.push(pp));
                    assert(st.view_state() == (SweepArgView {
                        params: before.params.push(pp),
                        ..before
                    }));
                },
            }
        } else if !crate::text::starts_with_char(a, '-') && st.deck_path.is_none() {
            st.deck_path = Some(to_owned_string(a));
            st.next = i + 1;
            assert(st.view_state() == (SweepArgView { deck: Some(a@), ..before }));
        } else {
            return Err(SweepError::UnknownOption(to_owned_string(a)));
        }
    }
    finish_sweep(st)
}

/// Starts reading a `sweep` command line:
/// `sweep <deck> --param key=values [--param ...] [-o dir] [--overwrite]`.
/// Stops at `--help`, at the first error, at the end, or at a range that
/// must be expanded first (see [`resume_sweep_args`]).
pub fn parse_sweep_args(argv: &Vec<String>) -> (r: Result<SweepArgStep, SweepError>)
    ensures
        step_is(r, sweep_scan(crate::cli::args_view(argv@), 0, initial_sweep_args())),
{
    let st = SweepArgState {
        deck_path: None,
        output_dir: None,
        params: Vec::new(),
        overwrite: false,
        next: 0,
    };
    assert(st.view_state().params =~= Seq::<(Seq<char>, Seq<Seq<char>>)>::empty());
    assert(st.view_state() == initial_sweep_args());
    continue_sweep_args(argv, st)
}

/// Goes on reading the command line after a range was expanded into
/// `expanded` (or failed to expand, with a reason).
pub fn resume_sweep_args(
    argv: &Vec<String>,
    req: RangeRequest,
    expanded: Result<Vec<String>, String>,
) -> (r: Result<SweepArgStep, SweepError>)
    ensures
        req.next_index() <= argv@.len() ==> step_is(
            r,
            resume_scan(
                crate::cli::args_view(argv@),
                req.next_index(),
                req.key@,
                req.view_state(),
                match expanded {
                    Ok(v) => Ok(strings_view(v@)),
                    Err(m) => Err(m@),
                },
            ),
        ),
{
    let RangeRequest { key, start: _, stop: _, step: _, state } = req;
    let mut st = state;
    match expanded {
        Err(m) => Err(SweepError::Range(m)),
        Ok(values) => {
            if values.len() == 0 {
                return Err(SweepError::EmptyValues(key));
            }
            if st.next > argv.len() {
                return Err(SweepError::NoParams);
            }
            let ghost before = st.view_state();
            let p = SweepParam { key, values };
            let ghost pp = p.pair();
            st.params.push(p);
            assert(params_view(st.params@) =~= before.params.push(pp));
            assert(st.view_state() == (SweepArgView { params: before.params.push(pp), ..before }));
            continue_sweep_args(argv, st)
        },
    }
}

impl SweepSpec {
    /// The sweep to run: the output directory given, or else `default_dir`.
    pub fn from_args(args: SweepArgs, default_dir: String) -> (r: SweepSpec)
        ensures
            r.deck_path == args.deck_path,
            r.params == args.params,
            r.overwrite == args.overwrite,
            r.output_dir@ == (match args.output_dir {
                Some(d) => d@,
                None => default_dir@,
            }),
    {
        let output_dir = match args.output_dir {
            Some(d) => d,
            None => default_dir,
        };
        SweepSpec { deck_path: args.deck_path, params: args.params, output_dir, overwrite: args.overwrite }
    }
}

} // verus!

verus! {

proof fn lemma_trim_unchanged(s: Seq<char>)
    requires
        s.len() > 0,
        !crate::text::is_ws(s[0]),
        !crate::text::is_ws(s.last()),
    ensures
        crate::text::trim(s) == s,
{
    assert(crate::text::leading_ws(s) == 0);
    assert(s.skip(0) =~= s);
    assert(crate::text::trailing_ws(s) == 0);
    assert(s.take(s.len() as int) =~= s);
}

proof fn lemma_canonical_keys_plain(k: Seq<char>)
    requires
        crate::overrides::canonical_key_of(k) == Some(k),
    ensures
        crate::text::trim(k) == k,
        !k.contains('='),
{
    let keys = seq![
        "source.energy_MeV"@,
        "source.n_particles"@,
        "source.beam_radius_mm"@,
        "source.angular_spread_deg"@,
        "source.energy_spread_percent"@,
        "source.temperature_MeV"@,
        "source.cutoff_mev"@,
        "numerics.dt_ps"@,
        "numerics.max_steps"@,
        "detector.width_mm"@,
        "detector.height_mm"@,
        "field.scale_B"@,
        "field.scale_E"@,
    ];
    reveal_strlit("source.energy_MeV");
    reveal_strlit("source.n_particles");
    reveal_strlit("source.beam_radius_mm");
    reveal_strlit("source.angular_spread_deg");
    reveal_strlit("source.energy_spread_percent");
    reveal_strlit("source.temperature_MeV");
    reveal_strlit("source.cutoff_mev");
    reveal_strlit("numerics.dt_ps");
    reveal_strlit("numerics.max_steps");
    reveal_strlit("detector.width_mm");
    reveal_strlit("detector.height_mm");
    reveal_strlit("field.scale_B");
    reveal_strlit("field.scale_E");
    assert(keys.contains(k));
    let i = choose|i: int| 0 <= i < keys.len() && keys[i] == k;
    assert forall|j: int| 0 <= j < k.len() implies k[j] != '=' && (
    #[trigger] k[j]) as u32 >= 0x2e && (k[j] as u32) < 0x7f by {
        assert(0 <= i < 13);
    }
    lemma_trim_unchanged(k);
}

/// Law: every override of a sweep point, passed to its run as
/// `--set key=value`, is read back as the same override — as long as the
/// value has no surrounding whitespace (list values never have).
pub proof fn law_sweep_override_roundtrip(k: Seq<char>, v: Seq<char>)
    requires
        crate::overrides::canonical_key_of(k) == Some(k),
        crate::text::trim(v) == v,
    ensures
        crate::overrides::override_spec(k + seq!['='] + v) == Some((k, v)),
{
    lemma_canonical_keys_plain(k);
    let s = k + seq!['='] + v;
    s.index_of_first_ensures('=');
    assert(s[k.len() as int] == '=');
    assert(s.contains('='));
    let eq = s.index_of_first('=').unwrap();
    if eq < k.len() {
        assert(s[eq] == k[eq]);
        assert(k.contains('='));
    }
    assert(eq == k.len());
    assert(s.take(eq) =~= k);
    assert(s.skip(eq + 1) =~= v);
}

} // verus!

verus! {

// ── A sweep point's command line, read back ──────────────────────────────────

/// The `key=value` argument of one override.
pub open spec fn set_value(o: (Seq<char>, Seq<char>)) -> Seq<char> {
    o.0 + seq!['='] + o.1
}

/// The two arguments `set_args` holds for override `k`.
pub open spec fn set_pair_at(ovs: Seq<(Seq<char>, Seq<char>)>, k: int) -> (Seq<char>, Seq<char>) {
    (set_args(ovs)[2 * k], set_args(ovs)[2 * k + 1])
}

proof fn lemma_set_args_index(ovs: Seq<(Seq<char>, Seq<char>)>)
    ensures
        set_args(ovs).len() == 2 * ovs.len(),
        forall|k: int|
            0 <= k < ovs.len() ==> #[trigger] set_pair_at(ovs, k) == ("--set"@, set_value(ovs[k])),
    decreases ovs.len(),
{
    if ovs.len() > 0 {
        let init = ovs.drop_last();
        lemma_set_args_index(init);
        let last = ovs.last();
        assert(set_args(ovs) == set_args(init) + seq!["--set"@, last.0 + seq!['='] + last.1]);
        assert forall|k: int| 0 <= k < ovs.len() implies #[trigger] set_pair_at(ovs, k) == (
            "--set"@,
            set_value(ovs[k]),
        ) by {
            if k < init.len() {
                assert(set_pair_at(init, k) == ("--set"@, set_value(init[k])));
                assert(init[k] == ovs[k]);
            }
        }
    }
}

/// The arguments the `run` mode knows that start with `-`.
proof fn lemma_run_options_distinct()
    ensures
        "--set"@ != "-o"@,
        "--set"@ != "--output"@,
        "--set"@ != "--overwrite"@,
        "--set"@ != "--resume"@,
        "-o"@ != "--output"@,
        "-o"@[0] == '-',
        "--output"@[0] == '-',
        "--overwrite"@[0] == '-',
        "--resume"@[0] == '-',
        "--set"@[0] == '-',
        "-o"@.len() > 0,
        "--output"@.len() > 0,
        "--overwrite"@.len() > 0,
        "--resume"@.len() > 0,
        "--set"@.len() > 0,
{
    reveal_strlit("--set");
    reveal_strlit("-o");
    reveal_strlit("--output");
    reveal_strlit("--overwrite");
    reveal_strlit("--resume");
    assert("--set"@.len() != "-o"@.len());
    assert("--set"@.len() != "--output"@.len());
    assert("--set"@.len() != "--overwrite"@.len());
    assert("--set"@.len() != "--resume"@.len());
    assert("-o"@.len() != "--output"@.len());
}

proof fn lemma_scan_sets(
    head: Seq<Seq<char>>,
    ovs: Seq<(Seq<char>, Seq<char>)>,
    k: int,
    st: ArgView,
)
    requires
        0 <= k <= ovs.len(),
        forall|j: int|
            0 <= j < ovs.len() ==> crate::overrides::canonical_key_of((#[trigger] ovs[j]).0)
                == Some(ovs[j].0) && crate::text::trim(ovs[j].1) == ovs[j].1,
    ensures
        scan_args(head + set_args(ovs), run_syntax(), head.len() + 2 * k, st) == ScanEnd::Parsed(
            ArgView { overrides: st.overrides + ovs.skip(k), ..st },
        ),
    decreases ovs.len() - k,
{
    let av = head + set_args(ovs);
    lemma_set_args_index(ovs);
    let i = head.len() + 2 * k;
    if k == ovs.len() {
        assert(ovs.skip(k) =~= Seq::<(Seq<char>, Seq<char>)>::empty());
        assert(st.overrides + ovs.skip(k) =~= st.overrides);
        assert(ArgView { overrides: st.overrides + ovs.skip(k), ..st } == st);
    } else {
        lemma_run_options_distinct();
        let o = ovs[k];
        assert(set_pair_at(ovs, k) == ("--set"@, set_value(o)));
        assert(av[i] == set_args(ovs)[2 * k]);
        assert(av[i + 1] == set_args(ovs)[2 * k + 1]);
        assert(av[i] == "--set"@);
        assert(av[i + 1] == set_value(o));
        law_sweep_override_roundtrip(o.0, o.1);
        assert(crate::overrides::override_spec(av[i + 1]) == Some(o));
        let st2 = ArgView { overrides: st.overrides.push(o), ..st };
        lemma_scan_sets(head, ovs, k + 1, st2);
        assert(head.len() + 2 * (k + 1) == i + 2);
        assert(st2.overrides + ovs.skip(k + 1) =~= st.overrides + ovs.skip(k));
    }
}

/// Law: the command line a sweep point's run gets ([`sweep_run_argv`], after
/// its leading `run`) is read by the `run` mode as the sweep's deck, the
/// point's directory and exactly the point's overrides, in order, as long as
/// the deck path does not start with `-` and every override has a canonical
/// key and a value without surrounding whitespace.
pub proof fn law_sweep_point_argv_parses(
    deck: Seq<char>,
    out: Seq<char>,
    ovs: Seq<(Seq<char>, Seq<char>)>,
)
    requires
        !is_option(deck),
        forall|j: int|
            0 <= j < ovs.len() ==> crate::overrides::canonical_key_of((#[trigger] ovs[j]).0)
                == Some(ovs[j].0) && crate::text::trim(ovs[j].1) == ovs[j].1,
    ensures
        scan_args(seq![deck, "-o"@, out] + set_args(ovs), run_syntax(), 0, initial_args())
            == ScanEnd::Parsed(
            ArgView {
                config_path: Some(deck),
                batch: false,
                output: out,
                overwrite: false,
                resume: false,
                overrides: ovs,
            },
        ),
{
    lemma_run_options_distinct();
    let head = seq![deck, "-o"@, out];
    let av = head + set_args(ovs);
    assert(av[0] == deck);
    assert(av[1] == "-o"@);
    assert(av[2] == out);
    // The deck is not an option, so it is none of the option words.
    assert(deck != "-o"@ && deck != "--output"@ && deck != "--overwrite"@ && deck != "--resume"@
        && deck != "--set"@);
    let s0 = initial_args();
    let s1 = ArgView { config_path: Some(deck), ..s0 };
    let s2 = ArgView { output: out, ..s1 };
    assert(scan_args(av, run_syntax(), 0, s0) == scan_args(av, run_syntax(), 1, s1));
    assert(scan_args(av, run_syntax(), 1, s1) == scan_args(av, run_syntax(), 3, s2));
    lemma_scan_sets(head, ovs, 0, s2);
    assert(ovs.skip(0) =~= ovs);
    assert(s2.overrides + ovs.skip(0) =~= ovs);
}

} // verus!

verus! {

// ── Automatically numbered sweep directories ─────────────────────────────────

proof fn lemma_zeros_value(k: nat)
    ensures
        digits_value(Seq::new(k, |i: int| '0')) == 0,
    decreases k,
{
    if k > 0 {
        let z = Seq::new(k, |i: int| '0');
        assert(z.drop_last() =~= Seq::new((k - 1) as nat, |i: int| '0'));
        lemma_zeros_value((k - 1) as nat);
        assert(digit_value(z.last()) == 0);
    }
}

proof fn lemma_leading_zeros_value(z: Seq<char>, s: Seq<char>)
    requires
        digits_value(z) == 0,
    ensures
        digits_value(z + s) == digits_value(s),
    decreases s.len(),
{
    if s.len() == 0 {
        assert(z + s =~= z);
    } else {
        assert((z + s).drop_last() =~= z + s.drop_last());
        assert((z + s).last() == s.last());
        lemma_leading_zeros_value(z, s.drop_last());
    }
}

proof fn lemma_padded_value(n: nat)
    ensures
        digits_value(zero_pad(dec(n), 3)) == n,
{
    lemma_dec_digits(n);
    let d = dec(n);
    if d.len() < 3 {
        let z = Seq::new((3 - d.len()) as nat, |i: int| '0');
        lemma_zeros_value((3 - d.len()) as nat);
        lemma_leading_zeros_value(z, d);
    }
}

/// Law: distinct numbers give distinct automatically numbered sweep
/// directory names, so `sweep_001`, `sweep_002`, … never collide.
pub proof fn law_sweep_dir_names_distinct(a: nat, b: nat)
    requires
        a != b,
    ensures
        sweep_dir_name_spec(a) != sweep_dir_name_spec(b),
{
    if sweep_dir_name_spec(a) == sweep_dir_name_spec(b) {
        let p = "sweep_"@;
        assert(sweep_dir_name_spec(a).skip(p.len() as int) =~= zero_pad(dec(a), 3));
        assert(sweep_dir_name_spec(b).skip(p.len() as int) =~= zero_pad(dec(b), 3));
        lemma_padded_value(a);
        lemma_padded_value(b);
    }
}

} // verus!

verus! {

/// The first position, from `k` on, that is not taken.
pub open spec fn first_free(taken: Seq<bool>, k: int) -> Option<int>
    decreases taken.len() - k,
{
    if k < 0 || k >= taken.len() {
        None
    } else if !taken[k] {
        Some(k)
    } else {
        first_free(taken, k + 1)
    }
}

/// The number of the next automatically numbered sweep directory:
/// `taken[k]` says whether `sweep_` numbered `k + 1` already exists; the
/// result is the least free number, or `None` when every one listed is taken.
pub fn first_free_sweep_number(taken: &Vec<bool>) -> (r: Option<u64>)
    ensures
        match first_free(taken@, 0) {
            Some(k) => r == Some((k + 1) as u64),
            None => r is None,
        },
{
    let n = taken.len();
    let mut k: usize = 0;
    while k < n
        invariant
            n == taken@.len(),
            k <= n,
            first_free(taken@, 0) == first_free(taken@, k as int),
        decreases n - k,
    {
        if !taken[k] {
            return Some(k as u64 + 1);
        }
        k = k + 1;
    }
    None
}


/// `first_mismatch` from `j` on finds nothing exactly when every parameter
/// from `j` on has as many values as the first; what it finds is such a
/// parameter whose count differs.
proof fn lemma_first_mismatch(ps: Seq<(Seq<char>, Seq<Seq<char>>)>, j: int)
    requires
        0 <= j,
    ensures
        first_mismatch(ps, j) is None <==> (forall|k: int|
            j <= k < ps.len() ==> (#[trigger] ps[k]).1.len() == ps[0].1.len()),
        first_mismatch(ps, j) matches Some(m) ==> j <= m < ps.len() && ps[m].1.len()
            != ps[0].1.len(),
    decreases ps.len() - j,
{
    if j < ps.len() {
        lemma_first_mismatch(ps, j + 1);
        if first_mismatch(ps, j) is None {
            assert forall|k: int| j <= k < ps.len() implies (#[trigger] ps[k]).1.len()
                == ps[0].1.len() by {
                if k > j {
                    assert(j + 1 <= k);
                }
            }
        }
    }
}

/// Law (zip mode): the final checks accept exactly the argument states with a
/// deck and parameters whose value lists all have the first one's length, and
/// keep such a state unchanged. With a deck and parameters, any other length,
/// shorter or longer, is refused with `LengthMismatch`, which names the first
/// parameter with its count and a count that differs from it.
pub proof fn law_finish_sweep_zips(st: SweepArgView)
    ensures
        finish_sweep_args(st) is Finished <==> (st.deck is Some && zip_ok(st.params)),
        finish_sweep_args(st) matches SweepScan::Finished(v) ==> v == st,
        st.deck is Some && st.params.len() > 0 && !zip_ok(st.params) ==> (finish_sweep_args(
            st,
        ) matches SweepScan::Failed(SweepFailure::LengthMismatch(k0, n0, k, n)) && k0
            == st.params[0].0 && n0 == st.params[0].1.len() && n != n0),
{
    if st.params.len() > 0 {
        lemma_first_mismatch(st.params, 1);
        if first_mismatch(st.params, 1) is None {
            assert forall|j: int| 0 <= j < st.params.len() implies (#[trigger] st.params[j]).1.len()
                == st.params[0].1.len() by {
                if j > 0 {
                    assert(1 <= j);
                }
            }
        } else {
            let m = first_mismatch(st.params, 1)->0;
            assert(st.params[m].1.len() != st.params[0].1.len());
        }
    }
}

/// Law (zip mode): whatever the arguments and the state a scan starts from,
/// a scan of the `sweep` command line that finishes holds a deck and
/// parameters whose value lists all have the same length.
pub proof fn law_finished_sweep_is_zipped(argv: Seq<Seq<char>>, i: int, st: SweepArgView)
    ensures
        sweep_scan(argv, i, st) matches SweepScan::Finished(v) ==> v.deck is Some && zip_ok(
            v.params,
        ),
    decreases argv.len() - i,
{
    if i < 0 || i >= argv.len() {
        law_finish_sweep_zips(st);
    } else {
        let a = argv[i];
        if a == "--help"@ || a == "-h"@ {
        } else if a == "-o"@ || a == "--output"@ {
            if i + 1 < argv.len() {
                law_finished_sweep_is_zipped(
                    argv,
                    i + 2,
                    SweepArgView { output: Some(argv[i + 1]), ..st },
                );
            } else {
                law_finish_sweep_zips(SweepArgView { output: None, ..st });
            }
        } else if a == "--overwrite"@ {
            law_finished_sweep_is_zipped(argv, i + 1, SweepArgView { overwrite: true, ..st });
        } else if a == "--param"@ {
            if i + 1 < argv.len() {
                match param_syntax(argv[i + 1]) {
                    ParamSyntax::List(k, vs) => {
                        if vs.len() > 0 {
                            law_finished_sweep_is_zipped(
                                argv,
                                i + 2,
                                SweepArgView { params: st.params.push((k, vs)), ..st },
                            );
                        }
                    },
                    _ => {},
                }
            }
        } else if !crate::cli::is_option(a) && st.deck is None {
            law_finished_sweep_is_zipped(argv, i + 1, SweepArgView { deck: Some(a), ..st });
        }
    }
}

/// Law (zip mode): going on after a range was expanded, a scan that finishes
/// likewise holds a deck and value lists of one common length.
pub proof fn law_resumed_sweep_is_zipped(
    argv: Seq<Seq<char>>,
    next: int,
    key: Seq<char>,
    st: SweepArgView,
    expanded: Result<Seq<Seq<char>>, Seq<char>>,
)
    ensures
        resume_scan(argv, next, key, st, expanded) matches SweepScan::Finished(v) ==> v.deck is Some
            && zip_ok(v.params),
{
    if let Ok(vs) = expanded {
        if vs.len() > 0 {
            law_finished_sweep_is_zipped(
                argv,
                next,
                SweepArgView { params: st.params.push((key, vs)), ..st },
            );
        }
    }
}

} // verus!
