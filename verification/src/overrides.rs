//! `--set key=value` deck overrides: key canonicalization and value parsing.

use vstd::prelude::*;
use crate::text::{
    chars_of, find_first, parse_unsigned, parse_unsigned_str, str_eq, to_owned_string, trim, trim_str,
};

verus! {

/// A single `--set key=value` override parsed from the command line.
#[derive(Debug, Clone)]
pub struct ConfigOverride {
    /// Canonical key matching the deck's names (e.g. `source.energy_MeV`).
    pub canonical_key: String,
    /// Value exactly as typed, with surrounding whitespace removed.
    pub raw_value: String,
}

/// Why an override was refused.
#[derive(Debug, Clone)]
pub enum OverrideError {
    /// No `=` in the argument; holds the argument.
    MissingEquals(String),
    /// The key is not one that can be overridden; holds the key.
    UnknownKey(String),
    /// The value is not a non-negative integer of the required width.
    NotAnInteger { key: String, value: String },
}

/// The canonical form of an override key, or `None` for keys that cannot be
/// overridden. Lower-case aliases and a few short forms are accepted.
pub open spec fn canonical_key_of(k: Seq<char>) -> Option<Seq<char>> {
    if k == "source.energy_MeV"@ || k == "source.energy_mev"@ {
        Some("source.energy_MeV"@)
    } else if k == "source.n_particles"@ {
        Some("source.n_particles"@)
    } else if k == "source.beam_radius_mm"@ {
        Some("source.beam_radius_mm"@)
    } else if k == "source.angular_spread_deg"@ {
        Some("source.angular_spread_deg"@)
    } else if k == "source.energy_spread_percent"@ {
        Some("source.energy_spread_percent"@)
    } else if k == "source.temperature_MeV"@ || k == "source.temperature_mev"@ {
        Some("source.temperature_MeV"@)
    } else if k == "source.cutoff_mev"@ || k == "source.cutoff_MeV"@ {
        Some("source.cutoff_mev"@)
    } else if k == "numerics.dt_ps"@ || k == "dt_ps"@ {
        Some("numerics.dt_ps"@)
    } else if k == "numerics.max_steps"@ || k == "max_steps"@ {
        Some("numerics.max_steps"@)
    } else if k == "detector.width_mm"@ {
        Some("detector.width_mm"@)
    } else if k == "detector.height_mm"@ {
        Some("detector.height_mm"@)
    } else if k == "field.scale_B"@ || k == "field.scale_b"@ {
        Some("field.scale_B"@)
    } else if k == "field.scale_E"@ || k == "field.scale_e"@ {
        Some("field.scale_E"@)
    } else {
        None
    }
}

/// Maps an accepted key (or alias) to its canonical deck name.
pub fn canonicalize_key(key: &str) -> (r: Result<&'static str, OverrideError>)
    ensures
        match canonical_key_of(key@) {
            Some(c) => r matches Ok(k) && k@ == c,
            None => r matches Err(OverrideError::UnknownKey(k)) && k@ == key@,
        },
{
    if str_eq(key, "source.energy_MeV") || str_eq(key, "source.energy_mev") {
        Ok("source.energy_MeV")
    } else if str_eq(key, "source.n_particles") {
        Ok("source.n_particles")
    } else if str_eq(key, "source.beam_radius_mm") {
        Ok("source.beam_radius_mm")
    } else if str_eq(key, "source.angular_spread_deg") {
        Ok("source.angular_spread_deg")
    } else if str_eq(key, "source.energy_spread_percent") {
        Ok("source.energy_spread_percent")
    } else if str_eq(key, "source.temperature_MeV") || str_eq(key, "source.temperature_mev") {
        Ok("source.temperature_MeV")
    } else if str_eq(key, "source.cutoff_mev") || str_eq(key, "source.cutoff_MeV") {
        Ok("source.cutoff_mev")
    } else if str_eq(key, "numerics.dt_ps") || str_eq(key, "dt_ps") {
        Ok("numerics.dt_ps")
    } else if str_eq(key, "numerics.max_steps") || str_eq(key, "max_steps") {
        Ok("numerics.max_steps")
    } else if str_eq(key, "detector.width_mm") {
        Ok("detector.width_mm")
    } else if str_eq(key, "detector.height_mm") {
        Ok("detector.height_mm")
    } else if str_eq(key, "field.scale_B") || str_eq(key, "field.scale_b") {
        Ok("field.scale_B")
    } else if str_eq(key, "field.scale_E") || str_eq(key, "field.scale_e") {
        Ok("field.scale_E")
    } else {
        Err(OverrideError::UnknownKey(to_owned_string(key)))
    }
}

/// The key part of `key=value`: the text before the first `=`, trimmed.
pub open spec fn key_part(s: Seq<char>, eq: int) -> Seq<char> {
    trim(s.take(eq))
}

/// The value part of `key=value`: the text after the first `=`, trimmed.
pub open spec fn value_part(s: Seq<char>, eq: int) -> Seq<char> {
    trim(s.skip(eq + 1))
}

/// Splits `s` at its first `=` into trimmed key and value.
pub fn split_key_value<'a>(s: &'a str) -> (r: Option<(&'a str, &'a str)>)
    ensures
        match s@.index_of_first('=') {
            None => r is None,
            Some(eq) => r matches Some((k, v)) && k@ == key_part(s@, eq) && v@ == value_part(
                s@,
                eq,
            ),
        },
{
    let chars = chars_of(s);
    match find_first(&chars, '=') {
        None => None,
        Some(eq) => {
            let n = chars.len();
            let key_raw = s.substring_char(0, eq);
            let value_raw = s.substring_char(eq + 1, n);
            assert(key_raw@ =~= s@.take(eq as int));
            assert(value_raw@ =~= s@.skip(eq + 1));
            Some((trim_str(key_raw), trim_str(value_raw)))
        },
    }
}

/// The (canonical key, value) an override argument stands for, or `None` when
/// [`parse_override`] refuses it.
pub open spec fn override_spec(s: Seq<char>) -> Option<(Seq<char>, Seq<char>)> {
    match s.index_of_first('=') {
        None => None,
        Some(eq) => match canonical_key_of(key_part(s, eq)) {
            None => None,
            Some(c) => Some((c, value_part(s, eq))),
        },
    }
}

/// Whether `e` is the error [`parse_override`] gives for the refused argument
/// `s`: no `=` at all, or a key that cannot be overridden.
pub open spec fn override_refusal(e: OverrideError, s: Seq<char>) -> bool {
    match s.index_of_first('=') {
        None => e matches OverrideError::MissingEquals(a) && a@ == s,
        Some(eq) => e matches OverrideError::UnknownKey(k) && k@ == key_part(s, eq),
    }
}

impl ConfigOverride {
    /// The (canonical key, value) pair held.
    pub open spec fn pair(&self) -> (Seq<char>, Seq<char>) {
        (self.canonical_key@, self.raw_value@)
    }
}

/// Parses a `key=value` string into a [`ConfigOverride`].
///
/// Accepts lowercase aliases (e.g. `source.energy_mev`) but stores the
/// canonical deck form (e.g. `source.energy_MeV`) so metadata is consistent.
pub fn parse_override(s: &str) -> (r: Result<ConfigOverride, OverrideError>)
    ensures
        match s@.index_of_first('=') {
            None => r matches Err(OverrideError::MissingEquals(a)) && a@ == s@,
            Some(eq) => match canonical_key_of(key_part(s@, eq)) {
                None => r matches Err(OverrideError::UnknownKey(k)) && k@ == key_part(s@, eq),
                Some(c) => r matches Ok(o) && o.canonical_key@ == c && o.raw_value@ == value_part(
                    s@,
                    eq,
                ),
            },
        },
        r matches Ok(o) ==> override_spec(s@) == Some(o.pair()),
        r is Err ==> override_spec(s@) is None,
        r matches Err(e) ==> override_refusal(e, s@),
{
    match split_key_value(s) {
        None => Err(OverrideError::MissingEquals(to_owned_string(s))),
        Some((key, value)) => {
            let canonical = canonicalize_key(key)?;
            Ok(ConfigOverride {
                canonical_key: to_owned_string(canonical),
                raw_value: to_owned_string(value),
            })
        },
    }
}

/// Parses a `u64` override value, naming the key in the error.
pub fn parse_u64(key: &str, value: &str) -> (r: Result<u64, OverrideError>)
    ensures
        match parse_unsigned(value@, u64::MAX as nat) {
            Some(v) => r == Ok::<u64, OverrideError>(v as u64),
            None => r matches Err(OverrideError::NotAnInteger { key: k, value: v }) && k@ == key@
                && v@ == value@,
        },
{
    match parse_unsigned_str(value, u64::MAX) {
        Some(v) => Ok(v),
        None => Err(
            OverrideError::NotAnInteger { key: to_owned_string(key), value: to_owned_string(value) },
        ),
    }
}

/// Parses a `u32` override value, naming the key in the error.
pub fn parse_u32(key: &str, value: &str) -> (r: Result<u32, OverrideError>)
    ensures
        match parse_unsigned(value@, u32::MAX as nat) {
            Some(v) => r == Ok::<u32, OverrideError>(v as u32),
            None => r matches Err(OverrideError::NotAnInteger { key: k, value: v }) && k@ == key@
                && v@ == value@,
        },
{
    match parse_unsigned_str(value, u32::MAX as u64) {
        Some(v) => Ok(v as u32),
        None => Err(
            OverrideError::NotAnInteger { key: to_owned_string(key), value: to_owned_string(value) },
        ),
    }
}

proof fn lemma_canonical_fixed_0()
    ensures
        canonical_key_of("source.energy_MeV"@) == Some("source.energy_MeV"@),
{
    reveal_strlit("source.energy_MeV");
}

proof fn lemma_canonical_fixed_1()
    ensures
        canonical_key_of("source.n_particles"@) == Some("source.n_particles"@),
{
    reveal_strlit("source.n_particles");
    reveal_strlit("source.energy_MeV");
    assert("source.n_particles"@.len() != "source.energy_MeV"@.len());
    reveal_strlit("source.energy_mev");
    assert("source.n_particles"@.len() != "source.energy_mev"@.len());
}

proof fn lemma_canonical_fixed_2()
    ensures
        canonical_key_of("source.beam_radius_mm"@) == Some("source.beam_radius_mm"@),
{
    reveal_strlit("source.beam_radius_mm");
    reveal_strlit("source.energy_MeV");
    assert("source.beam_radius_mm"@.len() != "source.energy_MeV"@.len());
    reveal_strlit("source.energy_mev");
    assert("source.beam_radius_mm"@.len() != "source.energy_mev"@.len());
    reveal_strlit("source.n_particles");
    assert("source.beam_radius_mm"@.len() != "source.n_particles"@.len());
}

proof fn lemma_canonical_fixed_3()
    ensures
        canonical_key_of("source.angular_spread_deg"@) == Some("source.angular_spread_deg"@),
{
    reveal_strlit("source.angular_spread_deg");
    reveal_strlit("source.energy_MeV");
    assert("source.angular_spread_deg"@.len() != "source.energy_MeV"@.len());
    reveal_strlit("source.energy_mev");
    assert("source.angular_spread_deg"@.len() != "source.energy_mev"@.len());
    reveal_strlit("source.n_particles");
    assert("source.angular_spread_deg"@.len() != "source.n_particles"@.len());
    reveal_strlit("source.beam_radius_mm");
    assert("source.angular_spread_deg"@.len() != "source.beam_radius_mm"@.len());
}

proof fn lemma_canonical_fixed_4()
    ensures
        canonical_key_of("source.energy_spread_percent"@) == Some("source.energy_spread_percent"@),
{
    reveal_strlit("source.energy_spread_percent");
    reveal_strlit("source.energy_MeV");
    assert("source.energy_spread_percent"@.len() != "source.energy_MeV"@.len());
    reveal_strlit("source.energy_mev");
    assert("source.energy_spread_percent"@.len() != "source.energy_mev"@.len());
    reveal_strlit("source.n_particles");
    assert("source.energy_spread_percent"@.len() != "source.n_particles"@.len());
    reveal_strlit("source.beam_radius_mm");
    assert("source.energy_spread_percent"@.len() != "source.beam_radius_mm"@.len());
    reveal_strlit("source.angular_spread_deg");
    assert("source.energy_spread_percent"@.len() != "source.angular_spread_deg"@.len());
}

proof fn lemma_canonical_fixed_5()
    ensures
        canonical_key_of("source.temperature_MeV"@) == Some("source.temperature_MeV"@),
{
    reveal_strlit("source.temperature_MeV");
    reveal_strlit("source.energy_MeV");
    assert("source.temperature_MeV"@.len() != "source.energy_MeV"@.len());
    reveal_strlit("source.energy_mev");
    assert("source.temperature_MeV"@.len() != "source.energy_mev"@.len());
    reveal_strlit("source.n_particles");
    assert("source.temperature_MeV"@.len() != "source.n_particles"@.len());
    reveal_strlit("source.beam_radius_mm");
    assert("source.temperature_MeV"@.len() != "source.beam_radius_mm"@.len());
    reveal_strlit("source.angular_spread_deg");
    assert("source.temperature_MeV"@.len() != "source.angular_spread_deg"@.len());
    reveal_strlit("source.energy_spread_percent");
    assert("source.temperature_MeV"@.len() != "source.energy_spread_percent"@.len());
}

proof fn lemma_canonical_fixed_6()
    ensures
        canonical_key_of("source.cutoff_mev"@) == Some("source.cutoff_mev"@),
{
    reveal_strlit("source.cutoff_mev");
    reveal_strlit("source.energy_MeV");
    assert("source.cutoff_mev"@[7] != "source.energy_MeV"@[7]);
    reveal_strlit("source.energy_mev");
    assert("source.cutoff_mev"@[7] != "source.energy_mev"@[7]);
    reveal_strlit("source.n_particles");
    assert("source.cutoff_mev"@.len() != "source.n_particles"@.len());
    reveal_strlit("source.beam_radius_mm");
    assert("source.cutoff_mev"@.len() != "source.beam_radius_mm"@.len());
    reveal_strlit("source.angular_spread_deg");
    assert("source.cutoff_mev"@.len() != "source.angular_spread_deg"@.len());
    reveal_strlit("source.energy_spread_percent");
    assert("source.cutoff_mev"@.len() != "source.energy_spread_percent"@.len());
    reveal_strlit("source.temperature_MeV");
    assert("source.cutoff_mev"@.len() != "source.temperature_MeV"@.len());
    reveal_strlit("source.temperature_mev");
    assert("source.cutoff_mev"@.len() != "source.temperature_mev"@.len());
}

proof fn lemma_canonical_fixed_7()
    ensures
        canonical_key_of("numerics.dt_ps"@) == Some("numerics.dt_ps"@),
{
    reveal_strlit("numerics.dt_ps");
    reveal_strlit("source.energy_MeV");
    assert("numerics.dt_ps"@.len() != "source.energy_MeV"@.len());
    reveal_strlit("source.energy_mev");
    assert("numerics.dt_ps"@.len() != "source.energy_mev"@.len());
    reveal_strlit("source.n_particles");
    assert("numerics.dt_ps"@.len() != "source.n_particles"@.len());
    reveal_strlit("source.beam_radius_mm");
    assert("numerics.dt_ps"@.len() != "source.beam_radius_mm"@.len());
    reveal_strlit("source.angular_spread_deg");
    assert("numerics.dt_ps"@.len() != "source.angular_spread_deg"@.len());
    reveal_strlit("source.energy_spread_percent");
    assert("numerics.dt_ps"@.len() != "source.energy_spread_percent"@.len());
    reveal_strlit("source.temperature_MeV");
    assert("numerics.dt_ps"@.len() != "source.temperature_MeV"@.len());
    reveal_strlit("source.temperature_mev");
    assert("numerics.dt_ps"@.len() != "source.temperature_mev"@.len());
    reveal_strlit("source.cutoff_mev");
    assert("numerics.dt_ps"@.len() != "source.cutoff_mev"@.len());
    reveal_strlit("source.cutoff_MeV");
    assert("numerics.dt_ps"@.len() != "source.cutoff_MeV"@.len());
}

proof fn lemma_canonical_fixed_8()
    ensures
        canonical_key_of("numerics.max_steps"@) == Some("numerics.max_steps"@),
{
    reveal_strlit("numerics.max_steps");
    reveal_strlit("source.energy_MeV");
    assert("numerics.max_steps"@.len() != "source.energy_MeV"@.len());
    reveal_strlit("source.energy_mev");
    assert("numerics.max_steps"@.len() != "source.energy_mev"@.len());
    reveal_strlit("source.n_particles");
    assert("numerics.max_steps"@[0] != "source.n_particles"@[0]);
    reveal_strlit("source.beam_radius_mm");
    assert("numerics.max_steps"@.len() != "source.beam_radius_mm"@.len());
    reveal_strlit("source.angular_spread_deg");
    assert("numerics.max_steps"@.len() != "source.angular_spread_deg"@.len());
    reveal_strlit("source.energy_spread_percent");
    assert("numerics.max_steps"@.len() != "source.energy_spread_percent"@.len());
    reveal_strlit("source.temperature_MeV");
    assert("numerics.max_steps"@.len() != "source.temperature_MeV"@.len());
    reveal_strlit("source.temperature_mev");
    assert("numerics.max_steps"@.len() != "source.temperature_mev"@.len());
    reveal_strlit("source.cutoff_mev");
    assert("numerics.max_steps"@.len() != "source.cutoff_mev"@.len());
    reveal_strlit("source.cutoff_MeV");
    assert("numerics.max_steps"@.len() != "source.cutoff_MeV"@.len());
    reveal_strlit("numerics.dt_ps");
    assert("numerics.max_steps"@.len() != "numerics.dt_ps"@.len());
    reveal_strlit("dt_ps");
    assert("numerics.max_steps"@.len() != "dt_ps"@.len());
}

proof fn lemma_canonical_fixed_9()
    ensures
        canonical_key_of("detector.width_mm"@) == Some("detector.width_mm"@),
{
    reveal_strlit("detector.width_mm");
    reveal_strlit("source.energy_MeV");
    assert("detector.width_mm"@[0] != "source.energy_MeV"@[0]);
    reveal_strlit("source.energy_mev");
    assert("detector.width_mm"@[0] != "source.energy_mev"@[0]);
    reveal_strlit("source.n_particles");
    assert("detector.width_mm"@.len() != "source.n_particles"@.len());
    reveal_strlit("source.beam_radius_mm");
    assert("detector.width_mm"@.len() != "source.beam_radius_mm"@.len());
    reveal_strlit("source.angular_spread_deg");
    assert("detector.width_mm"@.len() != "source.angular_spread_deg"@.len());
    reveal_strlit("source.energy_spread_percent");
    assert("detector.width_mm"@.len() != "source.energy_spread_percent"@.len());
    reveal_strlit("source.temperature_MeV");
    assert("detector.width_mm"@.len() != "source.temperature_MeV"@.len());
    reveal_strlit("source.temperature_mev");
    assert("detector.width_mm"@.len() != "source.temperature_mev"@.len());
    reveal_strlit("source.cutoff_mev");
    assert("detector.width_mm"@[0] != "source.cutoff_mev"@[0]);
    reveal_strlit("source.cutoff_MeV");
    assert("detector.width_mm"@[0] != "source.cutoff_MeV"@[0]);
    reveal_strlit("numerics.dt_ps");
    assert("detector.width_mm"@.len() != "numerics.dt_ps"@.len());
    reveal_strlit("dt_ps");
    assert("detector.width_mm"@.len() != "dt_ps"@.len());
    reveal_strlit("numerics.max_steps");
    assert("detector.width_mm"@.len() != "numerics.max_steps"@.len());
    reveal_strlit("max_steps");
    assert("detector.width_mm"@.len() != "max_steps"@.len());
}

proof fn lemma_canonical_fixed_10()
    ensures
        canonical_key_of("detector.height_mm"@) == Some("detector.height_mm"@),
{
    reveal_strlit("detector.height_mm");
    reveal_strlit("source.energy_MeV");
    assert("detector.height_mm"@.len() != "source.energy_MeV"@.len());
    reveal_strlit("source.energy_mev");
    assert("detector.height_mm"@.len() != "source.energy_mev"@.len());
    reveal_strlit("source.n_particles");
    assert("detector.height_mm"@[0] != "source.n_particles"@[0]);
    reveal_strlit("source.beam_radius_mm");
    assert("detector.height_mm"@.len() != "source.beam_radius_mm"@.len());
    reveal_strlit("source.angular_spread_deg");
    assert("detector.height_mm"@.len() != "source.angular_spread_deg"@.len());
    reveal_strlit("source.energy_spread_percent");
    assert("detector.height_mm"@.len() != "source.energy_spread_percent"@.len());
    reveal_strlit("source.temperature_MeV");
    assert("detector.height_mm"@.len() != "source.temperature_MeV"@.len());
    reveal_strlit("source.temperature_mev");
    assert("detector.height_mm"@.len() != "source.temperature_mev"@.len());
    reveal_strlit("source.cutoff_mev");
    assert("detector.height_mm"@.len() != "source.cutoff_mev"@.len());
    reveal_strlit("source.cutoff_MeV");
    assert("detector.height_mm"@.len() != "source.cutoff_MeV"@.len());
    reveal_strlit("numerics.dt_ps");
    assert("detector.height_mm"@.len() != "numerics.dt_ps"@.len());
    reveal_strlit("dt_ps");
    assert("detector.height_mm"@.len() != "dt_ps"@.len());
    reveal_strlit("numerics.max_steps");
    assert("detector.height_mm"@[0] != "numerics.max_steps"@[0]);
    reveal_strlit("max_steps");
    assert("detector.height_mm"@.len() != "max_steps"@.len());
    reveal_strlit("detector.width_mm");
    assert("detector.height_mm"@.len() != "detector.width_mm"@.len());
}

proof fn lemma_canonical_fixed_11()
    ensures
        canonical_key_of("field.scale_B"@) == Some("field.scale_B"@),
{
    reveal_strlit("field.scale_B");
    reveal_strlit("source.energy_MeV");
    assert("field.scale_B"@.len() != "source.energy_MeV"@.len());
    reveal_strlit("source.energy_mev");
    assert("field.scale_B"@.len() != "source.energy_mev"@.len());
    reveal_strlit("source.n_particles");
    assert("field.scale_B"@.len() != "source.n_particles"@.len());
    reveal_strlit("source.beam_radius_mm");
    assert("field.scale_B"@.len() != "source.beam_radius_mm"@.len());
    reveal_strlit("source.angular_spread_deg");
    assert("field.scale_B"@.len() != "source.angular_spread_deg"@.len());
    reveal_strlit("source.energy_spread_percent");
    assert("field.scale_B"@.len() != "source.energy_spread_percent"@.len());
    reveal_strlit("source.temperature_MeV");
    assert("field.scale_B"@.len() != "source.temperature_MeV"@.len());
    reveal_strlit("source.temperature_mev");
    assert("field.scale_B"@.len() != "source.temperature_mev"@.len());
    reveal_strlit("source.cutoff_mev");
    assert("field.scale_B"@.len() != "source.cutoff_mev"@.len());
    reveal_strlit("source.cutoff_MeV");
    assert("field.scale_B"@.len() != "source.cutoff_MeV"@.len());
    reveal_strlit("numerics.dt_ps");
    assert("field.scale_B"@.len() != "numerics.dt_ps"@.len());
    reveal_strlit("dt_ps");
    assert("field.scale_B"@.len() != "dt_ps"@.len());
    reveal_strlit("numerics.max_steps");
    assert("field.scale_B"@.len() != "numerics.max_steps"@.len());
    reveal_strlit("max_steps");
    assert("field.scale_B"@.len() != "max_steps"@.len());
    reveal_strlit("detector.width_mm");
    assert("field.scale_B"@.len() != "detector.width_mm"@.len());
    reveal_strlit("detector.height_mm");
    assert("field.scale_B"@.len() != "detector.height_mm"@.len());
}

proof fn lemma_canonical_fixed_12()
    ensures
        canonical_key_of("field.scale_E"@) == Some("field.scale_E"@),
{
    reveal_strlit("field.scale_E");
    reveal_strlit("source.energy_MeV");
    assert("field.scale_E"@.len() != "source.energy_MeV"@.len());
    reveal_strlit("source.energy_mev");
    assert("field.scale_E"@.len() != "source.energy_mev"@.len());
    reveal_strlit("source.n_particles");
    assert("field.scale_E"@.len() != "source.n_particles"@.len());
    reveal_strlit("source.beam_radius_mm");
    assert("field.scale_E"@.len() != "source.beam_radius_mm"@.len());
    reveal_strlit("source.angular_spread_deg");
    assert("field.scale_E"@.len() != "source.angular_spread_deg"@.len());
    reveal_strlit("source.energy_spread_percent");
    assert("field.scale_E"@.len() != "source.energy_spread_percent"@.len());
    reveal_strlit("source.temperature_MeV");
    assert("field.scale_E"@.len() != "source.temperature_MeV"@.len());
    reveal_strlit("source.temperature_mev");
    assert("field.scale_E"@.len() != "source.temperature_mev"@.len());
    reveal_strlit("source.cutoff_mev");
    assert("field.scale_E"@.len() != "source.cutoff_mev"@.len());
    reveal_strlit("source.cutoff_MeV");
    assert("field.scale_E"@.len() != "source.cutoff_MeV"@.len());
    reveal_strlit("numerics.dt_ps");
    assert("field.scale_E"@.len() != "numerics.dt_ps"@.len());
    reveal_strlit("dt_ps");
    assert("field.scale_E"@.len() != "dt_ps"@.len());
    reveal_strlit("numerics.max_steps");
    assert("field.scale_E"@.len() != "numerics.max_steps"@.len());
    reveal_strlit("max_steps");
    assert("field.scale_E"@.len() != "max_steps"@.len());
    reveal_strlit("detector.width_mm");
    assert("field.scale_E"@.len() != "detector.width_mm"@.len());
    reveal_strlit("detector.height_mm");
    assert("field.scale_E"@.len() != "detector.height_mm"@.len());
    reveal_strlit("field.scale_B");
    assert("field.scale_E"@[12] != "field.scale_B"@[12]);
    reveal_strlit("field.scale_b");
    assert("field.scale_E"@[12] != "field.scale_b"@[12]);
}

/// Law: a canonical key is its own canonical form, so canonicalizing twice
/// changes nothing.
pub proof fn law_canonical_key_idempotent(k: Seq<char>)
    ensures
        canonical_key_of(k) matches Some(c) ==> canonical_key_of(c) == Some(c),
{
    lemma_canonical_fixed_0();
    lemma_canonical_fixed_1();
    lemma_canonical_fixed_2();
    lemma_canonical_fixed_3();
    lemma_canonical_fixed_4();
    lemma_canonical_fixed_5();
    lemma_canonical_fixed_6();
    lemma_canonical_fixed_7();
    lemma_canonical_fixed_8();
    lemma_canonical_fixed_9();
    lemma_canonical_fixed_10();
    lemma_canonical_fixed_11();
    lemma_canonical_fixed_12();
}

} // verus!

verus! {

// ── Applying overrides to a deck ─────────────────────────────────────────────

/// The deck setting each canonical override key writes.
#[derive(Debug, Clone, Copy, PartialEq, Eq)]
pub enum DeckField {
    SourceEnergyMev,
    SourceNParticles,
    SourceBeamRadiusMm,
    SourceAngularSpreadDeg,
    SourceEnergySpreadPercent,
    SourceTemperatureMev,
    SourceCutoffMev,
    NumericsDtPs,
    NumericsMaxSteps,
    DetectorWidthMm,
    DetectorHeightMm,
    FieldScaleB,
    FieldScaleE,
}

/// The value an override stores: integer settings are parsed here, real-valued
/// ones carry their text to be read as an `f64`.
#[derive(Debug, Clone, PartialEq, Eq)]
pub enum DeckValue {
    Real(String),
    Count(u64),
    Steps(u32),
}

/// Why an override could not be applied to a deck.
#[derive(Debug, Clone)]
pub enum DeckOverrideError {
    /// The key is not a canonical deck key; holds the key.
    UnhandledKey(String),
    /// An integer setting got a value that is not an integer of its width.
    Value(OverrideError),
}

/// The deck setting a canonical key names.
pub open spec fn deck_field_of(k: Seq<char>) -> Option<DeckField> {
    if k == "source.energy_MeV"@ {
        Some(DeckField::SourceEnergyMev)
    } else if k == "source.n_particles"@ {
        Some(DeckField::SourceNParticles)
    } else if k == "source.beam_radius_mm"@ {
        Some(DeckField::SourceBeamRadiusMm)
    } else if k == "source.angular_spread_deg"@ {
        Some(DeckField::SourceAngularSpreadDeg)
    } else if k == "source.energy_spread_percent"@ {
        Some(DeckField::SourceEnergySpreadPercent)
    } else if k == "source.temperature_MeV"@ {
        Some(DeckField::SourceTemperatureMev)
    } else if k == "source.cutoff_mev"@ {
        Some(DeckField::SourceCutoffMev)
    } else if k == "numerics.dt_ps"@ {
        Some(DeckField::NumericsDtPs)
    } else if k == "numerics.max_steps"@ {
        Some(DeckField::NumericsMaxSteps)
    } else if k == "detector.width_mm"@ {
        Some(DeckField::DetectorWidthMm)
    } else if k == "detector.height_mm"@ {
        Some(DeckField::DetectorHeightMm)
    } else if k == "field.scale_B"@ {
        Some(DeckField::FieldScaleB)
    } else if k == "field.scale_E"@ {
        Some(DeckField::FieldScaleE)
    } else {
        None
    }
}

/// The deck setting a canonical key names.
pub fn deck_field(key: &str) -> (r: Option<DeckField>)
    ensures
        r == deck_field_of(key@),
{
    if str_eq(key, "source.energy_MeV") {
        Some(DeckField::SourceEnergyMev)
    } else if str_eq(key, "source.n_particles") {
        Some(DeckField::SourceNParticles)
    } else if str_eq(key, "source.beam_radius_mm") {
        Some(DeckField::SourceBeamRadiusMm)
    } else if str_eq(key, "source.angular_spread_deg") {
        Some(DeckField::SourceAngularSpreadDeg)
    } else if str_eq(key, "source.energy_spread_percent") {
        Some(DeckField::SourceEnergySpreadPercent)
    } else if str_eq(key, "source.temperature_MeV") {
        Some(DeckField::SourceTemperatureMev)
    } else if str_eq(key, "source.cutoff_mev") {
        Some(DeckField::SourceCutoffMev)
    } else if str_eq(key, "numerics.dt_ps") {
        Some(DeckField::NumericsDtPs)
    } else if str_eq(key, "numerics.max_steps") {
        Some(DeckField::NumericsMaxSteps)
    } else if str_eq(key, "detector.width_mm") {
        Some(DeckField::DetectorWidthMm)
    } else if str_eq(key, "detector.height_mm") {
        Some(DeckField::DetectorHeightMm)
    } else if str_eq(key, "field.scale_B") {
        Some(DeckField::FieldScaleB)
    } else if str_eq(key, "field.scale_E") {
        Some(DeckField::FieldScaleE)
    } else {
        None
    }
}

/// What one override does to a deck: the setting it writes and the value.
/// Integer settings (`source.n_particles` as `u64`, `numerics.max_steps` as
/// `u32`) are parsed here; the others keep the value's text.
pub fn deck_assignment(ov: &ConfigOverride) -> (r: Result<(DeckField, DeckValue), DeckOverrideError>)
    ensures
        match deck_field_of(ov.canonical_key@) {
            None => r matches Err(DeckOverrideError::UnhandledKey(k)) && k@ == ov.canonical_key@,
            Some(DeckField::SourceNParticles) => match parse_unsigned(ov.raw_value@, u64::MAX as nat) {
                Some(n) => r == Ok::<(DeckField, DeckValue), DeckOverrideError>(
                    (DeckField::SourceNParticles, DeckValue::Count(n as u64)),
                ),
                None => r matches Err(
                    DeckOverrideError::Value(OverrideError::NotAnInteger { key: k, value: v }),
                ) && k@ == ov.canonical_key@ && v@ == ov.raw_value@,
            },
            Some(DeckField::NumericsMaxSteps) => match parse_unsigned(ov.raw_value@, u32::MAX as nat) {
                Some(n) => r == Ok::<(DeckField, DeckValue), DeckOverrideError>(
                    (DeckField::NumericsMaxSteps, DeckValue::Steps(n as u32)),
                ),
                None => r matches Err(
                    DeckOverrideError::Value(OverrideError::NotAnInteger { key: k, value: v }),
                ) && k@ == ov.canonical_key@ && v@ == ov.raw_value@,
            },
            Some(f) => r matches Ok((g, DeckValue::Real(t))) && g == f && t@ == ov.raw_value@,
        },
{
    let key = ov.canonical_key.as_str();
    let value = ov.raw_value.as_str();
    match deck_field(key) {
        None => Err(DeckOverrideError::UnhandledKey(to_owned_string(key))),
        Some(f) => match f {
            DeckField::SourceNParticles => match parse_u64(key, value) {
                Ok(n) => Ok((f, DeckValue::Count(n))),
                Err(e) => Err(DeckOverrideError::Value(e)),
            },
            DeckField::NumericsMaxSteps => match parse_u32(key, value) {
                Ok(n) => Ok((f, DeckValue::Steps(n))),
                Err(e) => Err(DeckOverrideError::Value(e)),
            },
            _ => Ok((f, DeckValue::Real(to_owned_string(value)))),
        },
    }
}

/// Law: every override that [`parse_override`] accepts names a deck setting,
/// so applying it never meets an unhandled key.
pub proof fn law_parsed_override_has_deck_field(s: Seq<char>)
    ensures
        override_spec(s) matches Some(p) ==> deck_field_of(p.0) is Some,
{
}

/// The canonical key of each deck setting, as the deck file spells it.
pub open spec fn deck_field_key(f: DeckField) -> Seq<char> {
    match f {
        DeckField::SourceEnergyMev => "source.energy_MeV"@,
        DeckField::SourceNParticles => "source.n_particles"@,
        DeckField::SourceBeamRadiusMm => "source.beam_radius_mm"@,
        DeckField::SourceAngularSpreadDeg => "source.angular_spread_deg"@,
        DeckField::SourceEnergySpreadPercent => "source.energy_spread_percent"@,
        DeckField::SourceTemperatureMev => "source.temperature_MeV"@,
        DeckField::SourceCutoffMev => "source.cutoff_mev"@,
        DeckField::NumericsDtPs => "numerics.dt_ps"@,
        DeckField::NumericsMaxSteps => "numerics.max_steps"@,
        DeckField::DetectorWidthMm => "detector.width_mm"@,
        DeckField::DetectorHeightMm => "detector.height_mm"@,
        DeckField::FieldScaleB => "field.scale_B"@,
        DeckField::FieldScaleE => "field.scale_E"@,
    }
}

/// Each setting's key reaches that setting: it differs from every key tested
/// before it.
proof fn lemma_deck_field_key_reaches(f: DeckField)
    ensures
        deck_field_of(deck_field_key(f)) == Some(f),
{
    reveal_strlit("source.energy_MeV");
    reveal_strlit("source.n_particles");
    reveal_strlit("source.beam_radius_mm");
    reveal_strlit("source.angular_spread_deg");
    reveal_strlit("source.energy_spread_percent");
    reveal_strlit("source.temperature_MeV");
    reveal_strlit("source.cutoff_mev");
    reveal_strlit("numerics.dt_ps");
    reveal_strlit("numerics.max_steps");
    reveal_strlit("detector.width_mm");
    reveal_strlit("detector.height_mm");
    reveal_strlit("field.scale_B");
    reveal_strlit("field.scale_E");
    match f {
            DeckField::SourceEnergyMev => {},
            DeckField::SourceNParticles => {
                assert("source.n_particles"@.len() != "source.energy_MeV"@.len());
            },
            DeckField::SourceBeamRadiusMm => {
                assert("source.beam_radius_mm"@.len() != "source.energy_MeV"@.len());
                assert("source.beam_radius_mm"@.len() != "source.n_particles"@.len());
            },
            DeckField::SourceAngularSpreadDeg => {
                assert("source.angular_spread_deg"@.len() != "source.energy_MeV"@.len());
                assert("source.angular_spread_deg"@.len() != "source.n_particles"@.len());
                assert("source.angular_spread_deg"@.len() != "source.beam_radius_mm"@.len());
            },
            DeckField::SourceEnergySpreadPercent => {
                assert("source.energy_spread_percent"@.len() != "source.energy_MeV"@.len());
                assert("source.energy_spread_percent"@.len() != "source.n_particles"@.len());
                assert("source.energy_spread_percent"@.len() != "source.beam_radius_mm"@.len());
                assert("source.energy_spread_percent"@.len() != "source.angular_spread_deg"@.len());
            },
            DeckField::SourceTemperatureMev => {
                assert("source.temperature_MeV"@.len() != "source.energy_MeV"@.len());
                assert("source.temperature_MeV"@.len() != "source.n_particles"@.len());
                assert("source.temperature_MeV"@.len() != "source.beam_radius_mm"@.len());
                assert("source.temperature_MeV"@.len() != "source.angular_spread_deg"@.len());
                assert("source.temperature_MeV"@.len() != "source.energy_spread_percent"@.len());
            },
            DeckField::SourceCutoffMev => {
                assert("source.cutoff_mev"@[7] != "source.energy_MeV"@[7]);
                assert("source.cutoff_mev"@.len() != "source.n_particles"@.len());
                assert("source.cutoff_mev"@.len() != "source.beam_radius_mm"@.len());
                assert("source.cutoff_mev"@.len() != "source.angular_spread_deg"@.len());
                assert("source.cutoff_mev"@.len() != "source.energy_spread_percent"@.len());
                assert("source.cutoff_mev"@.len() != "source.temperature_MeV"@.len());
            },
            DeckField::NumericsDtPs => {
                assert("numerics.dt_ps"@.len() != "source.energy_MeV"@.len());
                assert("numerics.dt_ps"@.len() != "source.n_particles"@.len());
                assert("numerics.dt_ps"@.len() != "source.beam_radius_mm"@.len());
                assert("numerics.dt_ps"@.len() != "source.angular_spread_deg"@.len());
                assert("numerics.dt_ps"@.len() != "source.energy_spread_percent"@.len());
                assert("numerics.dt_ps"@.len() != "source.temperature_MeV"@.len());
                assert("numerics.dt_ps"@.len() != "source.cutoff_mev"@.len());
            },
            DeckField::NumericsMaxSteps => {
                assert("numerics.max_steps"@.len() != "source.energy_MeV"@.len());
                assert("numerics.max_steps"@[0] != "source.n_particles"@[0]);
                assert("numerics.max_steps"@.len() != "source.beam_radius_mm"@.len());
                assert("numerics.max_steps"@.len() != "source.angular_spread_deg"@.len());
                assert("numerics.max_steps"@.len() != "source.energy_spread_percent"@.len());
                assert("numerics.max_steps"@.len() != "source.temperature_MeV"@.len());
                assert("numerics.max_steps"@.len() != "source.cutoff_mev"@.len());
                assert("numerics.max_steps"@.len() != "numerics.dt_ps"@.len());
            },
            DeckField::DetectorWidthMm => {
                assert("detector.width_mm"@[0] != "source.energy_MeV"@[0]);
                assert("detector.width_mm"@.len() != "source.n_particles"@.len());
                assert("detector.width_mm"@.len() != "source.beam_radius_mm"@.len());
                assert("detector.width_mm"@.len() != "source.angular_spread_deg"@.len());
                assert("detector.width_mm"@.len() != "source.energy_spread_percent"@.len());
                assert("detector.width_mm"@.len() != "source.temperature_MeV"@.len());
                assert("detector.width_mm"@[0] != "source.cutoff_mev"@[0]);
                assert("detector.width_mm"@.len() != "numerics.dt_ps"@.len());
                assert("detector.width_mm"@.len() != "numerics.max_steps"@.len());
            },
            DeckField::DetectorHeightMm => {
                assert("detector.height_mm"@.len() != "source.energy_MeV"@.len());
                assert("detector.height_mm"@[0] != "source.n_particles"@[0]);
                assert("detector.height_mm"@.len() != "source.beam_radius_mm"@.len());
                assert("detector.height_mm"@.len() != "source.angular_spread_deg"@.len());
                assert("detector.height_mm"@.len() != "source.energy_spread_percent"@.len());
                assert("detector.height_mm"@.len() != "source.temperature_MeV"@.len());
                assert("detector.height_mm"@.len() != "source.cutoff_mev"@.len());
                assert("detector.height_mm"@.len() != "numerics.dt_ps"@.len());
                assert("detector.height_mm"@[0] != "numerics.max_steps"@[0]);
                assert("detector.height_mm"@.len() != "detector.width_mm"@.len());
            },
            DeckField::FieldScaleB => {
                assert("field.scale_B"@.len() != "source.energy_MeV"@.len());
                assert("field.scale_B"@.len() != "source.n_particles"@.len());
                assert("field.scale_B"@.len() != "source.beam_radius_mm"@.len());
                assert("field.scale_B"@.len() != "source.angular_spread_deg"@.len());
                assert("field.scale_B"@.len() != "source.energy_spread_percent"@.len());
                assert("field.scale_B"@.len() != "source.temperature_MeV"@.len());
                assert("field.scale_B"@.len() != "source.cutoff_mev"@.len());
                assert("field.scale_B"@.len() != "numerics.dt_ps"@.len());
                assert("field.scale_B"@.len() != "numerics.max_steps"@.len());
                assert("field.scale_B"@.len() != "detector.width_mm"@.len());
                assert("field.scale_B"@.len() != "detector.height_mm"@.len());
            },
            DeckField::FieldScaleE => {
                assert("field.scale_E"@.len() != "source.energy_MeV"@.len());
                assert("field.scale_E"@.len() != "source.n_particles"@.len());
                assert("field.scale_E"@.len() != "source.beam_radius_mm"@.len());
                assert("field.scale_E"@.len() != "source.angular_spread_deg"@.len());
                assert("field.scale_E"@.len() != "source.energy_spread_percent"@.len());
                assert("field.scale_E"@.len() != "source.temperature_MeV"@.len());
                assert("field.scale_E"@.len() != "source.cutoff_mev"@.len());
                assert("field.scale_E"@.len() != "numerics.dt_ps"@.len());
                assert("field.scale_E"@.len() != "numerics.max_steps"@.len());
                assert("field.scale_E"@.len() != "detector.width_mm"@.len());
                assert("field.scale_E"@.len() != "detector.height_mm"@.len());
                assert("field.scale_E"@[12] != "field.scale_B"@[12]);
            },
    }
}

/// Law: a key names a deck setting exactly when it is that setting's own
/// canonical key (`detector.width_mm` the detector width, `detector.height_mm`
/// its height, and so on); so distinct keys name distinct settings, and every
/// setting is named by one key.
pub proof fn law_deck_field_names_its_key(k: Seq<char>, f: DeckField)
    ensures
        deck_field_of(k) == Some(f) <==> k == deck_field_key(f),
        deck_field_of(deck_field_key(f)) == Some(f),
{
    lemma_deck_field_key_reaches(f);
}

/// Law: two keys that name the same deck setting are the same key.
pub proof fn law_deck_field_injective(k1: Seq<char>, k2: Seq<char>)
    ensures
        deck_field_of(k1) is Some && deck_field_of(k1) == deck_field_of(k2) ==> k1 == k2,
{
    if deck_field_of(k1) is Some && deck_field_of(k1) == deck_field_of(k2) {
        let f = deck_field_of(k1)->0;
        law_deck_field_names_its_key(k1, f);
        law_deck_field_names_its_key(k2, f);
    }
}

/// Law: every key the overrides accept is its canonical key up to ASCII
/// letter case, or the canonical key without its `numerics.` section (the
/// short forms `dt_ps` and `max_steps`); an alias never names another
/// setting's key.
pub proof fn law_alias_spells_its_key(k: Seq<char>)
    ensures
        canonical_key_of(k) matches Some(c) ==> (crate::materials::lower(k)
            == crate::materials::lower(c) || c == "numerics."@ + k),
{
    reveal_strlit("numerics.");
    reveal_strlit("source.energy_MeV");
    reveal_strlit("source.energy_mev");
    reveal_strlit("source.temperature_MeV");
    reveal_strlit("source.temperature_mev");
    reveal_strlit("source.cutoff_mev");
    reveal_strlit("source.cutoff_MeV");
    reveal_strlit("numerics.dt_ps");
    reveal_strlit("dt_ps");
    reveal_strlit("numerics.max_steps");
    reveal_strlit("max_steps");
    reveal_strlit("field.scale_B");
    reveal_strlit("field.scale_b");
    reveal_strlit("field.scale_E");
    reveal_strlit("field.scale_e");
    if k == "source.energy_mev"@ {
        assert(crate::materials::lower(k) =~= crate::materials::lower("source.energy_MeV"@));
    } else if k == "source.temperature_mev"@ {
        assert(crate::materials::lower(k) =~= crate::materials::lower("source.temperature_MeV"@));
    } else if k == "source.cutoff_MeV"@ {
        assert(crate::materials::lower(k) =~= crate::materials::lower("source.cutoff_mev"@));
    } else if k == "field.scale_b"@ {
        assert(crate::materials::lower(k) =~= crate::materials::lower("field.scale_B"@));
    } else if k == "field.scale_e"@ {
        assert(crate::materials::lower(k) =~= crate::materials::lower("field.scale_E"@));
    } else if k == "dt_ps"@ {
        assert("numerics.dt_ps"@ =~= "numerics."@ + k);
    } else if k == "max_steps"@ {
        assert("numerics.max_steps"@ =~= "numerics."@ + k);
    }
}

} // verus!
