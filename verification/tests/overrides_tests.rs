use proton_tracer::overrides::{canonicalize_key, parse_override, parse_u32, parse_u64, OverrideError};

#[test]
fn override_stores_canonical_key() {
    let ov = parse_override("source.energy_mev=14.7").unwrap();
    assert_eq!(ov.canonical_key, "source.energy_MeV");
    assert_eq!(ov.raw_value, "14.7");
}

#[test]
fn override_trims_key_and_value() {
    let ov = parse_override("  dt_ps = 2.5 ").unwrap();
    assert_eq!(ov.canonical_key, "numerics.dt_ps");
    assert_eq!(ov.raw_value, "2.5");
}

#[test]
fn override_splits_at_first_equals() {
    let ov = parse_override("field.scale_b=a=b").unwrap();
    assert_eq!(ov.canonical_key, "field.scale_B");
    assert_eq!(ov.raw_value, "a=b");
}

#[test]
fn override_without_equals_is_refused() {
    match parse_override("source.energy_MeV") {
        Err(OverrideError::MissingEquals(s)) => assert_eq!(s, "source.energy_MeV"),
        other => panic!("unexpected {:?}", other),
    }
}

#[test]
fn override_unknown_key_is_refused() {
    match parse_override("source.color=red") {
        Err(OverrideError::UnknownKey(k)) => assert_eq!(k, "source.color"),
        other => panic!("unexpected {:?}", other),
    }
}

#[test]
fn every_alias_maps_to_a_canonical_key() {
    let pairs = [
        ("source.energy_MeV", "source.energy_MeV"),
        ("source.energy_mev", "source.energy_MeV"),
        ("source.n_particles", "source.n_particles"),
        ("source.beam_radius_mm", "source.beam_radius_mm"),
        ("source.angular_spread_deg", "source.angular_spread_deg"),
        ("source.energy_spread_percent", "source.energy_spread_percent"),
        ("source.temperature_MeV", "source.temperature_MeV"),
        ("source.temperature_mev", "source.temperature_MeV"),
        ("source.cutoff_mev", "source.cutoff_mev"),
        ("source.cutoff_MeV", "source.cutoff_mev"),
        ("numerics.dt_ps", "numerics.dt_ps"),
        ("dt_ps", "numerics.dt_ps"),
        ("numerics.max_steps", "numerics.max_steps"),
        ("max_steps", "numerics.max_steps"),
        ("detector.width_mm", "detector.width_mm"),
        ("detector.height_mm", "detector.height_mm"),
        ("field.scale_B", "field.scale_B"),
        ("field.scale_b", "field.scale_B"),
        ("field.scale_E", "field.scale_E"),
        ("field.scale_e", "field.scale_E"),
    ];
    for (alias, canon) in pairs {
        assert_eq!(canonicalize_key(alias).unwrap(), canon);
        // canonical keys are fixed points
        assert_eq!(canonicalize_key(canon).unwrap(), canon);
    }
    assert!(matches!(canonicalize_key("Dt_ps"), Err(OverrideError::UnknownKey(_))));
}

#[test]
fn integer_values() {
    assert_eq!(parse_u64("source.n_particles", "50000").unwrap(), 50000);
    assert_eq!(parse_u32("numerics.max_steps", "4294967295").unwrap(), u32::MAX);
    match parse_u32("numerics.max_steps", "4294967296") {
        Err(OverrideError::NotAnInteger { key, value }) => {
            assert_eq!(key, "numerics.max_steps");
            assert_eq!(value, "4294967296");
        }
        other => panic!("unexpected {:?}", other),
    }
    assert!(parse_u64("k", "-3").is_err());
    assert!(parse_u64("k", "1.5").is_err());
}
