//! Binary grid files: `.dens` density grids and `.bfld` field grids.
//!
//! Both start with a 64-byte little-endian header: a 4-byte magic, a `u32`
//! version, the grid size `nx`, `ny`, `nz` (`u32`), six `f32` bounds
//! (x_min, x_max, y_min, y_max, z_min, z_max) and 20 reserved zero bytes.
//! `.dens` (version 1) then holds `nx·ny·nz` `f32` densities; `.bfld` holds
//! `nx·ny·nz·3` `f32` B components and, in version 2, as many E components.
//!
//! Floating-point values are carried as their IEEE-754 bit patterns (`u32`),
//! which is exactly what the files store.

use vstd::prelude::*;
use vstd::bytes::{lemma_auto_spec_u32_to_from_le_bytes, spec_u32_from_le_bytes, spec_u32_to_le_bytes, u32_to_le_bytes};
use crate::counts::{le_bytes, le_words, push_u32_le_words, read_u32_le, read_u32_le_words};

verus! {

broadcast use vstd::seq_lib::group_seq_properties;

/// Size of the fixed header of both grid formats.
pub const HEADER_LEN: usize = 64;

/// The `k`-th little-endian word of `b`.
pub open spec fn word_at(b: Seq<u8>, k: int) -> u32 {
    spec_u32_from_le_bytes(b.subrange(4 * k, 4 * k + 4))
}

/// Magic of a density grid: `DENS`.
pub open spec fn dens_magic() -> Seq<u8> {
    seq![68u8, 69u8, 78u8, 83u8]
}

/// Magic of a field grid: `BFLD`.
pub open spec fn bfld_magic() -> Seq<u8> {
    seq![66u8, 70u8, 76u8, 68u8]
}

/// Why a grid file was refused.
#[derive(Debug, Clone, PartialEq, Eq)]
pub enum GridError {
    /// Fewer bytes than the 64-byte header; holds the length.
    TooShort(usize),
    /// Wrong magic; holds the first four bytes read as a little-endian word.
    BadMagic(u32),
    /// Version not supported.
    UnsupportedVersion(u32),
    /// Fewer data bytes than the header announces.
    DataTooShort { needed: u64, got: u64 },
    /// A field grid with no voxel.
    ZeroVoxels { nx: u32, ny: u32, nz: u32 },
    /// A separate E-field file must be version 1; holds its version.
    SeparateNotV1(u32),
    /// E and B grids differ in size.
    GridMismatch { e: [u32; 3], b: [u32; 3] },
    /// E and B bounds differ beyond the tolerance; both as `f32` bit patterns.
    BoundsMismatch { e: [u32; 6], b: [u32; 6] },
    /// E data of the wrong length.
    LengthMismatch { got: usize, expected: usize },
}

fn first_four(b: &[u8]) -> (r: [u8; 4])
    requires
        b@.len() >= 4,
    ensures
        r@ == b@.take(4),
{
    let r = [b[0], b[1], b[2], b[3]];
    assert(r@ =~= b@.take(4));
    r
}

/// `nx·ny·nz`, computed without overflow when it fits in a `u32`.
pub fn grid_size(nx: u32, ny: u32, nz: u32) -> (r: u64)
    requires
        nx * ny * nz <= u32::MAX,
    ensures
        r == nx * ny * nz,
        r <= u32::MAX,
{
    if nx == 0 || ny == 0 || nz == 0 {
        assert(nx * ny * nz == 0) by (nonlinear_arith)
            requires
                nx == 0 || ny == 0 || nz == 0,
        ;
        return 0;
    }
    assert(nx * ny <= nx * ny * nz) by (nonlinear_arith)
        requires
            nz >= 1,
            nx >= 1,
            ny >= 1,
    ;
    let a = (nx as u64) * (ny as u64);
    a * (nz as u64)
}

// ── Density grids ────────────────────────────────────────────────────────────

/// A density grid; bounds and densities as `f32` bit patterns.
#[derive(Debug, Clone)]
pub struct DensityData {
    pub nx: u32,
    pub ny: u32,
    pub nz: u32,
    /// Densities [g/cm³], C-contiguous (x outermost, z innermost).
    pub data_bits: Vec<u32>,
    /// x_min, x_max, y_min, y_max, z_min, z_max [m].
    pub bounds_bits: [u32; 6],
}

/// Abstract content of a density grid.
pub struct DensityView {
    pub nx: u32,
    pub ny: u32,
    pub nz: u32,
    pub data: Seq<u32>,
    pub bounds: Seq<u32>,
}

impl DensityData {
    pub open spec fn view_grid(&self) -> DensityView {
        DensityView {
            nx: self.nx,
            ny: self.ny,
            nz: self.nz,
            data: self.data_bits@,
            bounds: self.bounds_bits@,
        }
    }

    /// 1×1×1 vacuum grid: zero density in the cube [-1, 1]³ m.
    pub fn vacuum() -> (r: DensityData)
        ensures
            r.nx == 1 && r.ny == 1 && r.nz == 1,
            r.data_bits@ == seq![0u32],
            r.bounds_bits@ == seq![
                0xbf80_0000u32,
                0x3f80_0000u32,
                0xbf80_0000u32,
                0x3f80_0000u32,
                0xbf80_0000u32,
                0x3f80_0000u32,
            ],
    {
        let mut data_bits: Vec<u32> = Vec::new();
        data_bits.push(0);
        let r = DensityData {
            nx: 1,
            ny: 1,
            nz: 1,
            data_bits,
            bounds_bits: [
                0xbf80_0000,
                0x3f80_0000,
                0xbf80_0000,
                0x3f80_0000,
                0xbf80_0000,
                0x3f80_0000,
            ],
        };
        assert(r.data_bits@ =~= seq![0u32]);
        assert(r.bounds_bits@ =~= seq![
            0xbf80_0000u32,
            0x3f80_0000u32,
            0xbf80_0000u32,
            0x3f80_0000u32,
            0xbf80_0000u32,
            0x3f80_0000u32,
        ]);
        r
    }
}

/// Whether the grid size announced by a density header fits the `u32`
/// arithmetic used to compute it.
pub open spec fn dens_dims_fit(raw: Seq<u8>) -> bool {
    raw.len() >= 64 && raw.take(4) == dens_magic() && word_at(raw, 1) == 1 ==> word_at(raw, 2)
        * word_at(raw, 3) * word_at(raw, 4) <= u32::MAX
}

/// What a density file decodes to.
pub open spec fn density_decoded(raw: Seq<u8>) -> Result<DensityView, GridError> {
    if raw.len() < 64 {
        Err(GridError::TooShort(raw.len() as usize))
    } else if raw.take(4) != dens_magic() {
        Err(GridError::BadMagic(word_at(raw, 0)))
    } else if word_at(raw, 1) != 1 {
        Err(GridError::UnsupportedVersion(word_at(raw, 1)))
    } else {
        let n = word_at(raw, 2) * word_at(raw, 3) * word_at(raw, 4);
        let needed = 64 + 4 * n;
        if raw.len() < needed {
            Err(GridError::DataTooShort { needed: needed as u64, got: raw.len() as u64 })
        } else {
            Ok(
                DensityView {
                    nx: word_at(raw, 2),
                    ny: word_at(raw, 3),
                    nz: word_at(raw, 4),
                    data: le_words(raw.subrange(64, needed)),
                    bounds: Seq::new(6, |k: int| word_at(raw, 5 + k)),
                },
            )
        }
    }
}

/// Decodes a `.dens` file.
pub fn decode_density(raw: &[u8]) -> (r: Result<DensityData, GridError>)
    requires
        dens_dims_fit(raw@),
    ensures
        match density_decoded(raw@) {
            Ok(v) => r matches Ok(d) && d.view_grid() == v,
            Err(e) => r == Err::<DensityData, GridError>(e),
        },
{
    let len = raw.len();
    if len < HEADER_LEN {
        return Err(GridError::TooShort(len));
    }
    let magic = first_four(raw);
    if !(magic[0] == 68 && magic[1] == 69 && magic[2] == 78 && magic[3] == 83) {
        assert(raw@.take(4) != dens_magic()) by {
            assert(raw@.take(4)[0] == magic[0]);
            assert(raw@.take(4)[1] == magic[1]);
            assert(raw@.take(4)[2] == magic[2]);
            assert(raw@.take(4)[3] == magic[3]);
        }
        return Err(GridError::BadMagic(read_u32_le(raw, 0)));
    }
    assert(raw@.take(4) =~= dens_magic());
    let version = read_u32_le(raw, 4);
    if version != 1 {
        return Err(GridError::UnsupportedVersion(version));
    }
    let nx = read_u32_le(raw, 8);
    let ny = read_u32_le(raw, 12);
    let nz = read_u32_le(raw, 16);
    let n = grid_size(nx, ny, nz);
    let needed: u64 = 64 + 4 * n;
    if (len as u64) < needed {
        return Err(GridError::DataTooShort { needed, got: len as u64 });
    }
    let data_bits = read_u32_le_words(raw, 64, n as usize);
    let bounds_bits = [
        read_u32_le(raw, 20),
        read_u32_le(raw, 24),
        read_u32_le(raw, 28),
        read_u32_le(raw, 32),
        read_u32_le(raw, 36),
        read_u32_le(raw, 40),
    ];
    let d = DensityData { nx, ny, nz, data_bits, bounds_bits };
    assert(d.bounds_bits@ =~= Seq::new(6, |k: int| word_at(raw@, 5 + k)));
    Ok(d)
}

/// Reserved zero bytes and the padding a header or short data block ends with.
pub open spec fn zeros(n: nat) -> Seq<u8> {
    Seq::new(n, |i: int| 0u8)
}

/// Bytes of a `.dens` file for a grid of `n = nx·ny·nz` values of which the
/// first `data.len()` are given (the rest stay zero).
pub open spec fn density_bytes(v: DensityView) -> Seq<u8> {
    let n = v.nx * v.ny * v.nz;
    dens_magic() + spec_u32_to_le_bytes(1) + spec_u32_to_le_bytes(v.nx) + spec_u32_to_le_bytes(
        v.ny,
    ) + spec_u32_to_le_bytes(v.nz) + le_bytes(v.bounds) + zeros(20) + le_bytes(v.data) + zeros(
        (4 * (n - v.data.len())) as nat,
    )
}

fn push_zeros(out: &mut Vec<u8>, n: u64)
    ensures
        final(out)@ == old(out)@ + zeros(n as nat),
{
    let ghost start = out@;
    let mut k: u64 = 0;
    while k < n
        invariant
            k <= n,
            out@ =~= start + zeros(k as nat),
        decreases n - k,
    {
        out.push(0);
        k = k + 1;
    }
}

impl DensityData {
    /// Bytes of the grid as a `.dens` file; missing densities are written as zero.
    pub fn encode(&self) -> (r: Vec<u8>)
        requires
            self.nx * self.ny * self.nz <= u32::MAX,
            self.data_bits@.len() <= self.nx * self.ny * self.nz,
            self.bounds_bits@.len() == 6,
        ensures
            r@ == density_bytes(self.view_grid()),
    {
        let mut out: Vec<u8> = Vec::new();
        out.push(68);
        out.push(69);
        out.push(78);
        out.push(83);
        assert(out@ =~= dens_magic());
        out.extend_from_slice(u32_to_le_bytes(1).as_slice());
        out.extend_from_slice(u32_to_le_bytes(self.nx).as_slice());
        out.extend_from_slice(u32_to_le_bytes(self.ny).as_slice());
        out.extend_from_slice(u32_to_le_bytes(self.nz).as_slice());
        push_u32_le_words(&mut out, self.bounds_bits.as_slice());
        push_zeros(&mut out, 20);
        push_u32_le_words(&mut out, self.data_bits.as_slice());
        let n = grid_size(self.nx, self.ny, self.nz);
        push_zeros(&mut out, 4 * (n - self.data_bits.len() as u64));
        out
    }
}

} // verus!

verus! {

/// Law: a density grid written with [`DensityData::encode`] reads back
/// unchanged.
pub proof fn law_density_roundtrip(v: DensityView)
    requires
        v.nx * v.ny * v.nz <= u32::MAX,
        v.data.len() == v.nx * v.ny * v.nz,
        v.bounds.len() == 6,
    ensures
        density_decoded(density_bytes(v)) == Ok::<DensityView, GridError>(v),
{
    lemma_auto_spec_u32_to_from_le_bytes();
    let n = v.nx * v.ny * v.nz;
    let b = density_bytes(v);
    let head = dens_magic() + spec_u32_to_le_bytes(1) + spec_u32_to_le_bytes(v.nx)
        + spec_u32_to_le_bytes(v.ny) + spec_u32_to_le_bytes(v.nz);
    assert(head.len() == 20);
    let lb = le_bytes(v.bounds);
    assert(lb.len() == 24);
    let ld = le_bytes(v.data);
    assert(ld.len() == 4 * n);
    assert(zeros(0) =~= Seq::<u8>::empty());
    assert(b =~= head + lb + zeros(20) + ld);
    assert(b.len() == 64 + 4 * n);
    assert(b.take(4) =~= dens_magic());
    assert(b.subrange(4, 8) =~= spec_u32_to_le_bytes(1));
    assert(b.subrange(8, 12) =~= spec_u32_to_le_bytes(v.nx));
    assert(b.subrange(12, 16) =~= spec_u32_to_le_bytes(v.ny));
    assert(b.subrange(16, 20) =~= spec_u32_to_le_bytes(v.nz));
    assert(word_at(b, 1) == 1);
    assert(word_at(b, 2) == v.nx);
    assert(word_at(b, 3) == v.ny);
    assert(word_at(b, 4) == v.nz);
    assert forall|k: int| 0 <= k < 6 implies #[trigger] word_at(b, 5 + k) == v.bounds[k] by {
        assert(b.subrange(4 * (5 + k), 4 * (5 + k) + 4) =~= lb.subrange(4 * k, 4 * k + 4));
        assert(lb.subrange(4 * k, 4 * k + 4) =~= spec_u32_to_le_bytes(v.bounds[k]));
    }
    assert(Seq::new(6, |k: int| word_at(b, 5 + k)) =~= v.bounds);
    assert(b.subrange(64, 64 + 4 * n) =~= ld);
    crate::counts::law_counts_roundtrip(v.data);
}

} // verus!

verus! {

// ── Field grids ──────────────────────────────────────────────────────────────

/// How the E-field was populated — tracks presence, not data values.
#[derive(Debug, Clone, Copy, PartialEq, Eq)]
pub enum EFieldSource {
    /// Not supplied; the E data is all zeros.
    ZeroFilled,
    /// Read from the combined version-2 file (E block follows B block).
    EmbeddedV2,
    /// Loaded from a separate version-1 vector file.
    SeparateFile,
}

impl EFieldSource {
    /// How the source is described in the field summary.
    pub fn describe(&self) -> (r: &'static str)
        ensures
            r@ == (match *self {
                EFieldSource::ZeroFilled => "not supplied; zero-filled"@,
                EFieldSource::EmbeddedV2 => "embedded in combined v2 file"@,
                EFieldSource::SeparateFile => "loaded from separate file"@,
            }),
    {
        match self {
            EFieldSource::ZeroFilled => "not supplied; zero-filled",
            EFieldSource::EmbeddedV2 => "embedded in combined v2 file",
            EFieldSource::SeparateFile => "loaded from separate file",
        }
    }
}

/// An electromagnetic field grid; components as `f32` bit patterns,
/// `nx·ny·nz` voxels of (x, y, z), x outermost.
#[derive(Debug, Clone)]
pub struct FieldData {
    pub nx: u32,
    pub ny: u32,
    pub nz: u32,
    /// x_min, x_max, y_min, y_max, z_min, z_max [m].
    pub bounds_bits: [u32; 6],
    /// B-field [T].
    pub data_bits: Vec<u32>,
    /// E-field [V/m].
    pub e_data_bits: Vec<u32>,
    pub e_source: EFieldSource,
    pub version: u32,
}

/// Abstract content of a field grid.
pub struct FieldView {
    pub nx: u32,
    pub ny: u32,
    pub nz: u32,
    pub bounds: Seq<u32>,
    pub data: Seq<u32>,
    pub e_data: Seq<u32>,
    pub e_source: EFieldSource,
    pub version: u32,
}

impl FieldData {
    pub open spec fn view_field(&self) -> FieldView {
        FieldView {
            nx: self.nx,
            ny: self.ny,
            nz: self.nz,
            bounds: self.bounds_bits@,
            data: self.data_bits@,
            e_data: self.e_data_bits@,
            e_source: self.e_source,
            version: self.version,
        }
    }
}

/// Whether the number of values announced by a field header fits the `u32`
/// arithmetic used to compute it.
pub open spec fn bfld_dims_fit(raw: Seq<u8>) -> bool {
    raw.len() >= 64 && raw.take(4) == bfld_magic() && (word_at(raw, 1) == 1 || word_at(raw, 1)
        == 2) ==> word_at(raw, 2) * word_at(raw, 3) * word_at(raw, 4) * 3 <= u32::MAX
}

/// What a field file decodes to.
pub open spec fn field_decoded(raw: Seq<u8>) -> Result<FieldView, GridError> {
    if raw.len() < 64 {
        Err(GridError::TooShort(raw.len() as usize))
    } else if raw.take(4) != bfld_magic() {
        Err(GridError::BadMagic(word_at(raw, 0)))
    } else if word_at(raw, 1) != 1 && word_at(raw, 1) != 2 {
        Err(GridError::UnsupportedVersion(word_at(raw, 1)))
    } else {
        let (nx, ny, nz) = (word_at(raw, 2), word_at(raw, 3), word_at(raw, 4));
        let n = nx * ny * nz * 3;
        let v2 = word_at(raw, 1) == 2;
        if n == 0 {
            Err(GridError::ZeroVoxels { nx, ny, nz })
        } else if raw.len() < 64 + 4 * n {
            Err(GridError::DataTooShort { needed: (64 + 4 * n) as u64, got: raw.len() as u64 })
        } else if v2 && raw.len() < 64 + 8 * n {
            Err(GridError::DataTooShort { needed: (64 + 8 * n) as u64, got: raw.len() as u64 })
        } else {
            Ok(
                FieldView {
                    nx,
                    ny,
                    nz,
                    bounds: Seq::new(6, |k: int| word_at(raw, 5 + k)),
                    data: le_words(raw.subrange(64, 64 + 4 * n)),
                    e_data: if v2 {
                        le_words(raw.subrange(64 + 4 * n, 64 + 8 * n))
                    } else {
                        Seq::new(n as nat, |i: int| 0u32)
                    },
                    e_source: if v2 {
                        EFieldSource::EmbeddedV2
                    } else {
                        EFieldSource::ZeroFilled
                    },
                    version: word_at(raw, 1),
                },
            )
        }
    }
}

fn zero_words(n: u64) -> (r: Vec<u32>)
    requires
        n <= u32::MAX,
    ensures
        r@ == Seq::new(n as nat, |i: int| 0u32),
{
    let mut r: Vec<u32> = Vec::new();
    let mut k: u64 = 0;
    while k < n
        invariant
            k <= n,
            r@ =~= Seq::new(k as nat, |i: int| 0u32),
        decreases n - k,
    {
        r.push(0);
        k = k + 1;
    }
    r
}

/// Decodes a `.bfld` file (bytes after the announced blocks are ignored).
pub fn decode_field(raw: &[u8]) -> (r: Result<FieldData, GridError>)
    requires
        bfld_dims_fit(raw@),
    ensures
        match field_decoded(raw@) {
            Ok(v) => r matches Ok(f) && f.view_field() == v,
            Err(e) => r == Err::<FieldData, GridError>(e),
        },
{
    let len = raw.len();
    if len < HEADER_LEN {
        return Err(GridError::TooShort(len));
    }
    let magic = first_four(raw);
    if !(magic[0] == 66 && magic[1] == 70 && magic[2] == 76 && magic[3] == 68) {
        assert(raw@.take(4) != bfld_magic()) by {
            assert(raw@.take(4)[0] == magic[0]);
            assert(raw@.take(4)[1] == magic[1]);
            assert(raw@.take(4)[2] == magic[2]);
            assert(raw@.take(4)[3] == magic[3]);
        }
        return Err(GridError::BadMagic(read_u32_le(raw, 0)));
    }
    assert(raw@.take(4) =~= bfld_magic());
    let version = read_u32_le(raw, 4);
    if version != 1 && version != 2 {
        return Err(GridError::UnsupportedVersion(version));
    }
    let nx = read_u32_le(raw, 8);
    let ny = read_u32_le(raw, 12);
    let nz = read_u32_le(raw, 16);
    assert(nx * ny * nz <= u32::MAX) by (nonlinear_arith)
        requires
            nx * ny * nz * 3 <= u32::MAX,
    ;
    let n = grid_size(nx, ny, nz) * 3;
    if n == 0 {
        return Err(GridError::ZeroVoxels { nx, ny, nz });
    }
    let needed: u64 = 64 + 4 * n;
    if (len as u64) < needed {
        return Err(GridError::DataTooShort { needed, got: len as u64 });
    }
    if version == 2 && (len as u64) < 64 + 8 * n {
        return Err(GridError::DataTooShort { needed: 64 + 8 * n, got: len as u64 });
    }
    let data_bits = read_u32_le_words(raw, 64, n as usize);
    let (e_data_bits, e_source) = if version == 2 {
        (read_u32_le_words(raw, 64 + 4 * (n as usize), n as usize), EFieldSource::EmbeddedV2)
    } else {
        (zero_words(n), EFieldSource::ZeroFilled)
    };
    let bounds_bits = [
        read_u32_le(raw, 20),
        read_u32_le(raw, 24),
        read_u32_le(raw, 28),
        read_u32_le(raw, 32),
        read_u32_le(raw, 36),
        read_u32_le(raw, 40),
    ];
    let f = FieldData { nx, ny, nz, bounds_bits, data_bits, e_data_bits, e_source, version };
    assert(f.bounds_bits@ =~= Seq::new(6, |k: int| word_at(raw@, 5 + k)));
    Ok(f)
}

impl FieldData {
    /// True if E was actually supplied (whatever its values).
    pub fn has_e_field(&self) -> (r: bool)
        ensures
            r == (self.e_source != EFieldSource::ZeroFilled),
    {
        match self.e_source {
            EFieldSource::ZeroFilled => false,
            _ => true,
        }
    }

    /// Size in bytes of the B-field data.
    pub fn size_bytes(&self) -> (r: usize)
        requires
            4 * self.data_bits@.len() <= usize::MAX,
        ensures
            r == 4 * self.data_bits@.len(),
    {
        self.data_bits.len() * 4
    }

    /// First checks before a separate file's vector block becomes the E-field:
    /// it must be a version-1 file of the same grid size.
    pub fn check_e_grid(&self, e_field: &FieldData) -> (r: Result<(), GridError>)
        ensures
            e_field.version != 1 ==> r == Err::<(), GridError>(GridError::SeparateNotV1(e_field.version)),
            e_field.version == 1 && (e_field.nx != self.nx || e_field.ny != self.ny || e_field.nz
                != self.nz) ==> r == Err::<(), GridError>(
                GridError::GridMismatch {
                    e: [e_field.nx, e_field.ny, e_field.nz],
                    b: [self.nx, self.ny, self.nz],
                },
            ),
            e_field.version == 1 && e_field.nx == self.nx && e_field.ny == self.ny && e_field.nz
                == self.nz ==> r is Ok,
    {
        if e_field.version != 1 {
            return Err(GridError::SeparateNotV1(e_field.version));
        }
        if e_field.nx != self.nx || e_field.ny != self.ny || e_field.nz != self.nz {
            return Err(
                GridError::GridMismatch {
                    e: [e_field.nx, e_field.ny, e_field.nz],
                    b: [self.nx, self.ny, self.nz],
                },
            );
        }
        Ok(())
    }

    /// Takes the vector block of a separate version-1 file as the E-field.
    /// The file is refused, in this order, when it is not version 1, when its
    /// grid differs from this one, when its bounds differ from this field's
    /// (compared exactly, as stored), and when its data is not `nx·ny·nz·3`
    /// values long. A refused file leaves this field unchanged.
    pub fn set_e_from_separate_file(&mut self, e_field: FieldData) -> (r: Result<(), GridError>)
        requires
            old(self).nx * old(self).ny * old(self).nz * 3 <= u32::MAX,
        ensures
            e_field.version != 1 ==> r == Err::<(), GridError>(GridError::SeparateNotV1(e_field.version)),
            e_field.version == 1 && (e_field.nx != old(self).nx || e_field.ny != old(self).ny
                || e_field.nz != old(self).nz) ==> r == Err::<(), GridError>(
                GridError::GridMismatch {
                    e: [e_field.nx, e_field.ny, e_field.nz],
                    b: [old(self).nx, old(self).ny, old(self).nz],
                },
            ),
            e_field.version == 1 && e_field.nx == old(self).nx && e_field.ny == old(self).ny
                && e_field.nz == old(self).nz && e_field.bounds_bits@ != old(self).bounds_bits@
                ==> r == Err::<(), GridError>(
                GridError::BoundsMismatch { e: e_field.bounds_bits, b: old(self).bounds_bits },
            ),
            e_field.version == 1 && e_field.nx == old(self).nx && e_field.ny == old(self).ny
                && e_field.nz == old(self).nz && e_field.bounds_bits@ == old(self).bounds_bits@
                && e_field.data_bits@.len() != old(self).nx * old(self).ny * old(self).nz * 3
                ==> r == Err::<(), GridError>(
                GridError::LengthMismatch {
                    got: e_field.data_bits@.len() as usize,
                    expected: (old(self).nx * old(self).ny * old(self).nz * 3) as usize,
                },
            ),
            r is Err ==> *final(self) == *old(self),
            r is Ok <==> (e_field.version == 1 && e_field.nx == old(self).nx && e_field.ny
                == old(self).ny && e_field.nz == old(self).nz && e_field.bounds_bits@
                == old(self).bounds_bits@ && e_field.data_bits@.len() == old(self).nx
                * old(self).ny * old(self).nz * 3),
            r is Ok ==> (final(self).e_data_bits@ == e_field.data_bits@ && final(self).e_source
                == EFieldSource::SeparateFile),
            final(self).nx == old(self).nx,
            final(self).ny == old(self).ny,
            final(self).nz == old(self).nz,
            final(self).bounds_bits == old(self).bounds_bits,
            final(self).data_bits == old(self).data_bits,
            final(self).version == old(self).version,
    {
        match self.check_e_grid(&e_field) {
            Err(e) => {
                return Err(e);
            },
            Ok(()) => {},
        }
        let eb = e_field.bounds_bits;
        let bb = self.bounds_bits;
        if eb[0] != bb[0] || eb[1] != bb[1] || eb[2] != bb[2] || eb[3] != bb[3] || eb[4] != bb[4]
            || eb[5] != bb[5] {
            return Err(GridError::BoundsMismatch { e: eb, b: bb });
        }
        assert(eb@ =~= bb@);
        assert(self.nx * self.ny * self.nz <= u32::MAX) by (nonlinear_arith)
            requires
                self.nx * self.ny * self.nz * 3 <= u32::MAX,
        ;
        let expected = (grid_size(self.nx, self.ny, self.nz) * 3) as usize;
        if e_field.data_bits.len() != expected {
            return Err(GridError::LengthMismatch { got: e_field.data_bits.len(), expected });
        }
        self.e_data_bits = e_field.data_bits;
        self.e_source = EFieldSource::SeparateFile;
        Ok(())
    }
}

} // verus!
