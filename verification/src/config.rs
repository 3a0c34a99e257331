//! Enumerations and plain settings of the simulation configuration.

use vstd::prelude::*;

verus! {

/// Kind of particle source.
#[derive(Debug, Clone, Copy, PartialEq, Eq)]
pub enum SourceType {
    /// Point source (diverging cone)
    Point,
    /// Parallel beam (collimated)
    Parallel,
    /// Isotropic (4π emission) - for specific experiments
    Isotropic,
}

/// File-based field configuration.
#[derive(Debug, Clone)]
pub struct FileFieldConfig {
    /// Path to field file (relative to config or absolute)
    pub path: String,
    /// File format
    pub format: FieldFileFormat,
}

/// Formats a field file may come in.
#[derive(Debug, Clone, Copy, PartialEq, Eq)]
pub enum FieldFileFormat {
    /// Native .bfld format (64-byte header + float32 data)
    Bfld,
    /// HDF5 format (common for GORGON output)
    Hdf5,
    /// Raw binary (requires dimension specification)
    RawBinary,
    /// ASCII/CSV grid
    Csv,
    /// VTK structured grid
    Vtk,
}

/// Axis along which a current sheet reverses the field.
#[derive(Debug, Clone, Copy, PartialEq, Eq)]
pub enum SheetOrientation {
    /// Field reversal in X direction (By changes sign across x=0)
    AlongX,
    /// Field reversal in Y direction
    AlongY,
    /// Field reversal in Z direction
    AlongZ,
}

/// Particle pusher.
#[derive(Debug, Clone, Copy, PartialEq, Eq)]
pub enum IntegratorType {
    /// Boris pusher (standard for particle-in-cell)
    Boris,
    /// Vay pusher (better for relativistic particles)
    Vay,
    /// Simple leapfrog (for testing)
    Leapfrog,
}

/// Intensity scale of a rendered radiograph.
#[derive(Debug, Clone, Copy, PartialEq, Eq)]
pub enum ScaleMode {
    Linear,
    Log,
    Sqrt,
}

/// Colormap of a rendered radiograph.
#[derive(Debug, Clone, Copy, PartialEq, Eq)]
pub enum ColormapType {
    /// Realistic RCF film response
    RcfFilm,
    /// Scientific: dark-to-light (viridis-like)
    Scientific,
    /// Grayscale
    Grayscale,
    /// Hot (black-red-yellow-white)
    Hot,
    /// Inverted (white background, dark features)
    Inverted,
}

/// Window settings of the interactive viewer.
#[derive(Debug, Clone, Copy, PartialEq, Eq)]
pub struct WindowConfig {
    /// Initial window width
    pub width: u32,
    /// Initial window height
    pub height: u32,
    /// Start fullscreen
    pub fullscreen: bool,
    /// VSync
    pub vsync: bool,
}

impl Default for WindowConfig {
    fn default() -> (r: Self)
        ensures
            r == (WindowConfig { width: 1280, height: 720, fullscreen: false, vsync: true }),
    {
        WindowConfig { width: 1280, height: 720, fullscreen: false, vsync: true }
    }
}

/// `[output]` block of a deck: which artefacts to write (unset = default).
#[derive(Debug, Clone, Copy, PartialEq, Eq)]
pub struct DeckOutput {
    pub write_raw_counts: Option<bool>,
    pub write_processed_counts: Option<bool>,
    pub write_png: Option<bool>,
    pub write_metadata: Option<bool>,
}

impl Default for DeckOutput {
    fn default() -> (r: Self)
        ensures
            r == (DeckOutput {
                write_raw_counts: None,
                write_processed_counts: None,
                write_png: None,
                write_metadata: None,
            }),
    {
        DeckOutput {
            write_raw_counts: None,
            write_processed_counts: None,
            write_png: None,
            write_metadata: None,
        }
    }
}

/// Default detector pixel grid of a deck: 512 × 512.
pub fn deck_default_pixels() -> (r: [u32; 2])
    ensures
        r@ == seq![512u32, 512u32],
{
    [512, 512]
}

/// Default of a deck's boolean switches that are on unless stated.
pub fn deck_default_true() -> (r: bool)
    ensures
        r,
{
    true
}

/// Step limit of a deck: its `[numerics] max_steps` if given, else 10000.
pub fn deck_max_steps(given: Option<u32>) -> (r: u32)
    ensures
        r == (match given {
            Some(n) => n,
            None => 10000u32,
        }),
{
    match given {
        Some(n) => n,
        None => 10000,
    }
}

} // verus!
