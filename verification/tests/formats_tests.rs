use proton_tracer::counts::{decode_u32_le, encode_u32_le, raw_stats};
use proton_tracer::digest::sha256_hex;
use proton_tracer::grids::{decode_density, decode_field, DensityData, EFieldSource, GridError};
use proton_tracer::particles::{morton_encode, spread_bits};

#[test]
fn counts_roundtrip() {
    let w = vec![0u32, 1, 0xdeadbeef, u32::MAX];
    let b = encode_u32_le(&w);
    assert_eq!(b.len(), 16);
    assert_eq!(&b[8..12], &0xdeadbeefu32.to_le_bytes());
    assert_eq!(decode_u32_le(&b).unwrap(), w);
    assert_eq!(decode_u32_le(&b[..15]), None);
    assert_eq!(decode_u32_le(&[]).unwrap(), Vec::<u32>::new());
}

#[test]
fn raw_count_statistics() {
    let s = raw_stats(&[0, 3, 0, 7, 1]);
    assert_eq!((s.total, s.max, s.nonzero), (11, 7, 3));
    let e = raw_stats(&[]);
    assert_eq!((e.total, e.max, e.nonzero), (0, 0, 0));
}

fn header(magic: &[u8; 4], version: u32, n: [u32; 3]) -> Vec<u8> {
    let mut h = Vec::new();
    h.extend_from_slice(magic);
    h.extend_from_slice(&version.to_le_bytes());
    for d in n {
        h.extend_from_slice(&d.to_le_bytes());
    }
    for b in [-1.0f32, 1.0, -2.0, 2.0, -3.0, 3.0] {
        h.extend_from_slice(&b.to_le_bytes());
    }
    h.extend_from_slice(&[0u8; 20]);
    h
}

#[test]
fn density_roundtrip() {
    let d = DensityData {
        nx: 2,
        ny: 1,
        nz: 2,
        data_bits: vec![1.5f32.to_bits(), 0, 2.25f32.to_bits(), 7],
        bounds_bits: [(-1.0f32).to_bits(), 1.0f32.to_bits(), 0, 1, 2, 3],
    };
    let bytes = d.encode();
    assert_eq!(bytes.len(), 64 + 16);
    assert_eq!(&bytes[0..4], b"DENS");
    let back = decode_density(&bytes).unwrap();
    assert_eq!((back.nx, back.ny, back.nz), (2, 1, 2));
    assert_eq!(back.data_bits, d.data_bits);
    assert_eq!(back.bounds_bits, d.bounds_bits);
}

#[test]
fn density_errors() {
    assert_eq!(decode_density(&[0u8; 10]).unwrap_err(), GridError::TooShort(10));
    let mut bad = header(b"DENX", 1, [1, 1, 1]);
    bad.extend_from_slice(&[0u8; 4]);
    assert!(matches!(decode_density(&bad), Err(GridError::BadMagic(_))));
    let v2 = header(b"DENS", 2, [1, 1, 1]);
    assert_eq!(decode_density(&v2).unwrap_err(), GridError::UnsupportedVersion(2));
    let short = header(b"DENS", 1, [2, 2, 2]);
    assert_eq!(decode_density(&short).unwrap_err(), GridError::DataTooShort { needed: 96, got: 64 });
    let vac = DensityData::vacuum();
    assert_eq!(f32::from_bits(vac.bounds_bits[0]), -1.0);
    assert_eq!(f32::from_bits(vac.bounds_bits[1]), 1.0);
    assert_eq!(vac.data_bits, vec![0]);
}

#[test]
fn field_versions() {
    let mut v1 = header(b"BFLD", 1, [1, 1, 2]);
    for k in 0..6u32 {
        v1.extend_from_slice(&(k as f32).to_le_bytes());
    }
    let f = decode_field(&v1).unwrap();
    assert_eq!(f.data_bits.len(), 6);
    assert_eq!(f.e_data_bits, vec![0; 6]);
    assert_eq!(f.e_source, EFieldSource::ZeroFilled);
    assert!(!f.has_e_field());
    assert_eq!(f.size_bytes(), 24);
    assert_eq!(f32::from_bits(f.bounds_bits[2]), -2.0);
    let mut v2 = header(b"BFLD", 2, [1, 1, 1]);
    for k in 0..6u32 {
        v2.extend_from_slice(&(k as f32).to_le_bytes());
    }
    let g = decode_field(&v2).unwrap();
    assert_eq!(g.e_source, EFieldSource::EmbeddedV2);
    assert_eq!(f32::from_bits(g.e_data_bits[0]), 3.0);
    assert_eq!(g.e_source.describe(), "embedded in combined v2 file");
    assert_eq!(
        decode_field(&header(b"BFLD", 1, [0, 4, 4])).unwrap_err(),
        GridError::ZeroVoxels { nx: 0, ny: 4, nz: 4 }
    );
    assert_eq!(decode_field(&header(b"BFLD", 3, [1, 1, 1])).unwrap_err(), GridError::UnsupportedVersion(3));
    assert_eq!(
        decode_field(&v2[..v2.len() - 4]).unwrap_err(),
        GridError::DataTooShort { needed: 88, got: 84 }
    );
}

#[test]
fn separate_e_field() {
    let mut b = header(b"BFLD", 1, [1, 1, 1]);
    b.extend_from_slice(&[0u8; 12]);
    let mut field = decode_field(&b).unwrap();
    let mut e = field.clone();
    e.data_bits = vec![1, 2, 3];
    assert!(field.check_e_grid(&e).is_ok());
    let mut wrong = e.clone();
    wrong.nz = 2;
    assert!(matches!(field.check_e_grid(&wrong), Err(GridError::GridMismatch { .. })));
    let mut v2 = e.clone();
    v2.version = 2;
    assert_eq!(field.check_e_grid(&v2).unwrap_err(), GridError::SeparateNotV1(2));
    // each refusal, in order, leaves the field as it was
    let before = field.clone();
    let mut v2_same_len = e.clone();
    v2_same_len.version = 2;
    assert_eq!(
        field.set_e_from_separate_file(v2_same_len).unwrap_err(),
        GridError::SeparateNotV1(2)
    );
    let mut wrong_grid = e.clone();
    wrong_grid.nx = 3;
    wrong_grid.nz = 0;
    assert!(matches!(
        field.set_e_from_separate_file(wrong_grid),
        Err(GridError::GridMismatch { e: [3, 1, 0], b: [1, 1, 1] })
    ));
    let mut moved = e.clone();
    moved.bounds_bits[0] = 0x3f80_0000;
    assert!(matches!(
        field.set_e_from_separate_file(moved),
        Err(GridError::BoundsMismatch { e, b }) if e[0] == 0x3f80_0000 && b[0] != 0x3f80_0000
    ));
    let mut short = e.clone();
    short.data_bits = vec![1];
    assert_eq!(
        field.set_e_from_separate_file(short).unwrap_err(),
        GridError::LengthMismatch { got: 1, expected: 3 }
    );
    assert_eq!(field.e_data_bits, before.e_data_bits);
    assert_eq!(field.e_source, EFieldSource::ZeroFilled);
    field.set_e_from_separate_file(e).unwrap();
    assert_eq!(field.e_data_bits, vec![1, 2, 3]);
    assert_eq!(field.e_source, EFieldSource::SeparateFile);
    assert_eq!(field.data_bits, before.data_bits);
}

#[test]
fn morton_codes() {
    assert_eq!(spread_bits(0b11), 0b1001);
    assert_eq!(spread_bits(0x3ff), 0x0924_9249);
    assert_eq!(spread_bits(0xffff_fc00), 0);
    assert_eq!(morton_encode(1, 0, 0), 1);
    assert_eq!(morton_encode(0, 1, 0), 2);
    assert_eq!(morton_encode(0, 0, 1), 4);
    assert_eq!(morton_encode(1023, 1023, 1023), 0x3fff_ffff);
    assert_eq!(morton_encode(2, 3, 1), 0b011_110);
}

#[test]
fn sha256_of_known_input() {
    assert_eq!(
        sha256_hex(b"abc"),
        "ba7816bf8f01cfea414140de5dae2223b00361a396177a9cb410ff61f20015ad"
    );
    assert_eq!(sha256_hex(b"").len(), 64);
}

#[test]
fn raw_stats_totals_past_u32() {
    let s = raw_stats(&[u32::MAX, u32::MAX, 5, 0]);
    assert_eq!(s.total, 2 * (u32::MAX as u64) + 5);
    assert_eq!(s.max, u32::MAX);
    assert_eq!(s.nonzero, 3);
}
