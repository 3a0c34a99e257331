//! Checks behind `inspect`, `analyze` and re-rendering of a run directory.

use vstd::prelude::*;
use crate::counts::{decode_u32_le, le_words};
use crate::text::to_owned_string;

verus! {

/// What a directory given to `inspect` holds.
#[derive(Debug, Clone, Copy, PartialEq, Eq)]
pub enum DirKind {
    /// A sweep directory (has a sweep status file).
    Sweep,
    /// A run directory (has run metadata).
    Run,
}

/// Why a run directory's contents were refused.
#[derive(Debug, Clone)]
pub enum InspectError {
    /// Neither run metadata nor a sweep status file is there.
    NotRunOrSweepDir,
    /// A counts file whose size is not a multiple of 4 bytes; holds its name.
    CountsNotWords(String),
    /// A counts file holding another number of values than the shape says.
    PixelCount { file: String, actual: usize, rows: u32, cols: u32, expected: usize },
    /// A counts file of another size in bytes than the shape says.
    CountsSize { rows: u32, cols: u32, expected: u64, actual: u64 },
}

/// Inspects a run directory or a sweep directory, auto-detected from which
/// files it holds: a directory with a sweep manifest is a sweep; otherwise one
/// with run metadata is a run; otherwise it is neither. The summary of the
/// kind found is printed by the caller.
pub fn inspect(has_sweep_manifest: bool, has_metadata: bool) -> (r: Result<
    DirKind,
    InspectError,
>)
    ensures
        has_sweep_manifest ==> r == Ok::<DirKind, InspectError>(DirKind::Sweep),
        !has_sweep_manifest && has_metadata ==> r == Ok::<DirKind, InspectError>(DirKind::Run),
        !has_sweep_manifest && !has_metadata ==> r matches Err(InspectError::NotRunOrSweepDir),
{
    if has_sweep_manifest {
        Ok(DirKind::Sweep)
    } else if has_metadata {
        Ok(DirKind::Run)
    } else {
        Err(InspectError::NotRunOrSweepDir)
    }
}

/// Checks that a counts file holds as many values as its recorded shape
/// `[rows, cols]` (when one is recorded).
pub fn validate_pixel_count(actual: usize, shape: Option<[u32; 2]>, file: &str) -> (r: Result<
    (),
    InspectError,
>)
    requires
        shape matches Some(s) ==> s[0] * s[1] <= usize::MAX,
    ensures
        match shape {
            None => r is Ok,
            Some(s) => if actual == s[0] * s[1] {
                r is Ok
            } else {
                r matches Err(InspectError::PixelCount { file: f, actual: a, rows, cols, expected })
                    && f@ == file@ && a == actual && rows == s[0] && cols == s[1] && expected == s[0]
                    * s[1]
            },
        },
{
    if let Some(s) = shape {
        let expected = (s[0] as usize) * (s[1] as usize);
        if actual != expected {
            return Err(
                InspectError::PixelCount {
                    file: to_owned_string(file),
                    actual,
                    rows: s[0],
                    cols: s[1],
                    expected,
                },
            );
        }
    }
    Ok(())
}

/// Checks that a counts file of a `[rows, cols]` shape has `rows·cols·4` bytes.
pub fn check_counts_file_size(shape: [u32; 2], actual: u64) -> (r: Result<(), InspectError>)
    requires
        shape[0] * shape[1] * 4 <= u64::MAX,
    ensures
        actual == shape[0] * shape[1] * 4 ==> r is Ok,
        actual != shape[0] * shape[1] * 4 ==> (r matches Err(
            InspectError::CountsSize { rows, cols, expected, actual: a },
        ) && rows == shape[0] && cols == shape[1] && expected == shape[0] * shape[1] * 4 && a
            == actual),
{
    let rows = shape[0];
    let cols = shape[1];
    let expected: u64 = (rows as u64) * (cols as u64) * 4;
    if expected != actual {
        return Err(InspectError::CountsSize { rows, cols, expected, actual });
    }
    Ok(())
}

/// The values of a counts file: its bytes read as little-endian 32-bit
/// words (raw counts are `u32`, processed ones `f32` bit patterns).
pub fn counts_words(bytes: &[u8], file: &str) -> (r: Result<Vec<u32>, InspectError>)
    ensures
        bytes@.len() % 4 != 0 ==> (r matches Err(InspectError::CountsNotWords(f)) && f@ == file@),
        bytes@.len() % 4 == 0 ==> (r matches Ok(w) && w@ == le_words(bytes@)),
{
    match decode_u32_le(bytes) {
        Some(w) => Ok(w),
        None => Err(InspectError::CountsNotWords(to_owned_string(file))),
    }
}

} // verus!
