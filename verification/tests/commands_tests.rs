use proton_tracer::cli::{colormap_to_str, scale_to_str, CliError};
use proton_tracer::commands::{
    parse_analyze_args, parse_explain_args, parse_init_args, parse_inspect_args,
    parse_validate_args, select_mode, Mode,
};
use proton_tracer::config::{ColormapType, ScaleMode};
use proton_tracer::materials::Material;
use proton_tracer::overrides::{
    deck_assignment, deck_field, parse_override, ConfigOverride, DeckField, DeckOverrideError,
    DeckValue, OverrideError,
};
use proton_tracer::particles::{morton_encode, morton_order};
use proton_tracer::render_args::{
    choose_colormap, choose_scale, detector_geometry_from, hit_columns, hit_row_fields, is_header_line,
    parse_hits_render_args, parse_run_dir_render_args, strip_arg, DetectorGeometryFrom, HitColumns, HitTableError,
};
use proton_tracer::source_plan::{
    geometry_label, plan_deck_source, plan_legacy_config, ConfigError, DetectorFrom,
    DirectionFrom, SourceGeometryKind, SourcePlan, SourcePresence,
};

fn argv(a: &[&str]) -> Vec<String> {
    a.iter().map(|s| s.to_string()).collect()
}

#[test]
fn mode_selection() {
    assert_eq!(select_mode(&argv(&["pt", "render", "x"])), Mode::Render);
    assert_eq!(select_mode(&argv(&["pt", "sweep"])), Mode::Sweep);
    assert_eq!(select_mode(&argv(&["pt", "run", "d.toml"])), Mode::Run);
    assert_eq!(select_mode(&argv(&["pt", "demo"])), Mode::Demo);
    assert_eq!(select_mode(&argv(&["pt", "deck.json"])), Mode::Legacy);
    assert_eq!(select_mode(&argv(&["pt"])), Mode::Legacy);
    assert!(!Mode::Analyze.uses_gpu());
    assert!(Mode::Gui.uses_gpu());
    assert!(Mode::Legacy.uses_gpu());
}

#[test]
fn init_args() {
    let a = parse_init_args(&argv(&["zpinch", "-o", "deck.toml", "extra"])).unwrap();
    assert_eq!(a.preset.as_deref(), Some("zpinch"));
    assert_eq!(a.out_path.as_deref(), Some("deck.toml"));
    let b = parse_init_args(&argv(&["-o"])).unwrap();
    assert_eq!(b.preset, None);
    assert_eq!(b.out_path, None);
    assert!(matches!(parse_init_args(&argv(&["blank", "--help"])), Err(CliError::Help)));
    // -o without a value clears an earlier one
    let c = parse_init_args(&argv(&["-o", "a.toml", "-o"])).unwrap();
    assert_eq!(c.out_path, None);
}

#[test]
fn validate_and_explain_args() {
    let v = parse_validate_args(&argv(&["--set", "dt_ps=2", "deck.toml", "--set"])).unwrap();
    assert_eq!(v.deck_path, "deck.toml");
    assert_eq!(v.out_dir, None);
    assert_eq!(v.overrides.len(), 1);
    assert_eq!(v.overrides[0].canonical_key, "numerics.dt_ps");
    // validate does not know -o: its value becomes the deck
    let w = parse_validate_args(&argv(&["-o", "x", "deck.toml"])).unwrap();
    assert_eq!(w.deck_path, "x");
    assert!(matches!(parse_validate_args(&argv(&[])), Err(CliError::MissingPositional)));
    assert!(matches!(
        parse_validate_args(&argv(&["d.toml", "--set", "bogus=1"])),
        Err(CliError::BadOverride(OverrideError::UnknownKey(_)))
    ));
    let e = parse_explain_args(&argv(&["-o", "out", "deck.toml"])).unwrap();
    assert_eq!(e.deck_path, "deck.toml");
    assert_eq!(e.out_dir.as_deref(), Some("out"));
    assert!(matches!(parse_explain_args(&argv(&["-o", "out"])), Err(CliError::MissingPositional)));
}

#[test]
fn inspect_and_analyze_args() {
    assert_eq!(parse_inspect_args(&argv(&["-v", "runs/a", "b"])).unwrap(), "runs/a");
    assert!(matches!(parse_inspect_args(&argv(&["-v"])), Err(CliError::MissingPositional)));
    let a = parse_analyze_args(&argv(&["runs/a", "--raw"])).unwrap();
    assert_eq!(a.run_dir, "runs/a");
    assert!(a.use_raw);
    let b = parse_analyze_args(&argv(&["runs/b"])).unwrap();
    assert!(!b.use_raw);
    assert!(matches!(parse_analyze_args(&argv(&["--raw"])), Err(CliError::MissingPositional)));
    assert!(matches!(parse_analyze_args(&argv(&["x", "-h"])), Err(CliError::Help)));
}

#[test]
fn deck_override_assignment() {
    let ov = parse_override("max_steps=250").unwrap();
    assert_eq!(deck_assignment(&ov).unwrap(), (DeckField::NumericsMaxSteps, DeckValue::Steps(250)));
    let ov = parse_override("source.n_particles = 5000000000").unwrap();
    assert_eq!(
        deck_assignment(&ov).unwrap(),
        (DeckField::SourceNParticles, DeckValue::Count(5_000_000_000))
    );
    let ov = parse_override("field.scale_b=-1.5").unwrap();
    assert_eq!(
        deck_assignment(&ov).unwrap(),
        (DeckField::FieldScaleB, DeckValue::Real("-1.5".to_string()))
    );
    let ov = parse_override("max_steps=5000000000").unwrap();
    assert!(matches!(
        deck_assignment(&ov),
        Err(DeckOverrideError::Value(OverrideError::NotAnInteger { .. }))
    ));
    let raw = ConfigOverride { canonical_key: "nope".to_string(), raw_value: "1".to_string() };
    assert!(matches!(deck_assignment(&raw), Err(DeckOverrideError::UnhandledKey(k)) if k == "nope"));
    assert_eq!(deck_field("detector.height_mm"), Some(DeckField::DetectorHeightMm));
    assert_eq!(deck_field("detector.height"), None);
}

#[test]
fn material_names() {
    assert_eq!(Material::from_name("Water"), Some(Material::Water));
    assert_eq!(Material::from_name("CH2"), Some(Material::Plastic));
    assert_eq!(Material::from_name("be"), Some(Material::Beryllium));
    assert_eq!(Material::from_name("ALUMINIUM"), Some(Material::Aluminum));
    assert_eq!(Material::from_name("H"), Some(Material::Hydrogen));
    assert_eq!(Material::from_name("lead"), None);
    assert_eq!(Material::from_name(" water"), None);
}

fn presence(position: bool, center: bool, direction: bool, aim_at: bool) -> SourcePresence {
    SourcePresence { position, center, direction, aim_at }
}

#[test]
fn deck_source_checks() {
    assert_eq!(
        plan_deck_source("parallel", 100, presence(false, false, false, true)),
        Ok(SourcePlan {
            kind: SourceGeometryKind::ParallelBeam,
            n_particles: 100,
            direction: DirectionFrom::Default
        })
    );
    assert_eq!(
        plan_deck_source("pencil", 1, presence(true, false, false, true)).unwrap().direction,
        DirectionFrom::AimAt
    );
    assert_eq!(
        plan_deck_source("pencil", 1, presence(true, false, false, false)),
        Err(ConfigError::NoDirection(SourceGeometryKind::Pencil))
    );
    assert_eq!(
        plan_deck_source("point", 1, presence(true, false, false, false)).unwrap().direction,
        DirectionFrom::Default
    );
    assert_eq!(
        plan_deck_source("point", 1, presence(false, true, true, false)),
        Err(ConfigError::MissingPosition(SourceGeometryKind::Point))
    );
    assert_eq!(
        plan_deck_source("disk", 1, presence(false, true, true, true)),
        Err(ConfigError::DirectionAndAim(SourceGeometryKind::Disk))
    );
    assert_eq!(
        plan_deck_source("disk", 1, presence(true, false, true, false)),
        Err(ConfigError::MissingCenter)
    );
    assert_eq!(
        plan_deck_source("laser", 1, presence(true, true, true, true)),
        Err(ConfigError::UnknownSourceType("laser".to_string()))
    );
    // the particle count is checked before the type name
    assert_eq!(
        plan_deck_source("laser", 5_000_000_000, presence(true, true, true, true)),
        Err(ConfigError::TooManyParticles(5_000_000_000))
    );
    assert_eq!(geometry_label(SourceGeometryKind::Disk), "disk source");
}

#[test]
fn legacy_config_checks() {
    let p = presence(false, true, false, false);
    assert_eq!(
        plan_legacy_config(SourceGeometryKind::Disk, 10, p, true, true, false),
        Ok((
            SourcePlan {
                kind: SourceGeometryKind::Disk,
                n_particles: 10,
                direction: DirectionFrom::Vector
            },
            DetectorFrom::Block
        ))
    );
    assert_eq!(
        plan_legacy_config(SourceGeometryKind::Disk, 10, p, false, false, true),
        Err(ConfigError::NoDetector)
    );
    let q = presence(false, false, true, false);
    assert_eq!(
        plan_legacy_config(SourceGeometryKind::ParallelBeam, 10, q, false, false, true)
            .unwrap()
            .1,
        DetectorFrom::SourceDistance
    );
}

#[test]
fn run_dir_render_args() {
    let a = parse_run_dir_render_args(&argv(&[
        "-c", "rcf", "--scale", "sqrt", "--gamma", "0.7", "--counts", "raw", "-o", "x.png",
        "--exposure",
    ]))
    .unwrap();
    assert_eq!(a.colormap, Some(ColormapType::RcfFilm));
    assert_eq!(a.scale, Some(ScaleMode::Sqrt));
    assert_eq!(a.gamma.as_deref(), Some("0.7"));
    assert_eq!(a.exposure, None);
    assert_eq!(a.out_path.as_deref(), Some("x.png"));
    assert!(a.use_raw);
    assert!(matches!(
        parse_run_dir_render_args(&argv(&["--counts", "both"])),
        Err(CliError::UnknownCountsKind(Some(s))) if s == "both"
    ));
    assert!(matches!(
        parse_run_dir_render_args(&argv(&["--colormap"])),
        Err(CliError::UnknownColormap(None))
    ));
    assert!(matches!(
        parse_run_dir_render_args(&argv(&["-s", "cubic"])),
        Err(CliError::UnknownScale(Some(s))) if s == "cubic"
    ));
    let d = parse_run_dir_render_args(&argv(&[])).unwrap();
    assert!(!d.use_raw && d.colormap.is_none() && d.scale.is_none());
}

#[test]
fn render_choices() {
    assert_eq!(choose_colormap(Some(ColormapType::Hot), Some("grayscale")), ColormapType::Hot);
    assert_eq!(choose_colormap(None, Some("grayscale")), ColormapType::Grayscale);
    assert_eq!(choose_colormap(None, Some("bogus")), ColormapType::RcfFilm);
    assert_eq!(choose_colormap(None, None), ColormapType::RcfFilm);
    assert_eq!(choose_scale(None, Some("linear")), ScaleMode::Linear);
    assert_eq!(choose_scale(None, None), ScaleMode::Log);
}

#[test]
fn strip_dir_argument() {
    let v = strip_arg(&argv(&["runs/a", "-c", "hot", "runs/a"]), "runs/a");
    assert_eq!(v, argv(&["-c", "hot"]));
}

#[test]
fn hits_render_args() {
    let a = parse_hits_render_args(&argv(&[
        "--hits", "h.csv", "--gamma", "bad", "--gamma", "0.4", "--width", "800", "--height",
        "x", "--colormap", "hot", "--poisson-noise", "--noise-seed", "+7",
        "--detector-width-mm", "50",
    ]))
    .unwrap();
    assert_eq!(a.hits_path, "h.csv");
    assert_eq!(a.gamma, argv(&["bad", "0.4"]));
    assert_eq!(a.width, Some(800));
    assert_eq!(a.height, None);
    assert_eq!(a.colormap, ColormapType::Hot);
    assert_eq!(a.scale, ScaleMode::Log);
    assert!(a.poisson_noise);
    assert_eq!(a.noise_seed, Some(7));
    assert_eq!(a.detector_width_mm.as_deref(), Some("50"));
    assert_eq!(a.detector_height_mm, None);
    assert!(matches!(parse_hits_render_args(&argv(&["--width", "3"])), Err(CliError::MissingHits)));
    assert!(matches!(
        parse_hits_render_args(&argv(&["--hits", "h", "--colormap", "rcf"])),
        Err(CliError::UnknownColormap(Some(s))) if s == "rcf"
    ));
    assert!(matches!(parse_hits_render_args(&argv(&["--help"])), Err(CliError::Help)));
}

#[test]
fn hit_table_columns() {
    assert!(!is_header_line("# comment"));
    assert!(is_header_line("x_mm, y_mm"));
    let c = hit_columns("id, y_mm ,z_mm,weight").unwrap();
    assert_eq!(c, HitColumns { y: 1, z: 2, weight: Some(3) });
    let d = hit_columns("y_mm,z_mm").unwrap();
    assert_eq!(d.weight, None);
    assert_eq!(hit_columns("y_mm,x_mm"), Err(HitTableError::MissingColumn("z_mm".to_string())));
    assert_eq!(hit_columns("z_mm"), Err(HitTableError::MissingColumn("y_mm".to_string())));
    let f = hit_row_fields("  7, 1.5 , -2.0, 0.5 ", c).unwrap();
    assert_eq!((f.y.as_str(), f.z.as_str(), f.weight.as_deref()), ("1.5", "-2.0", Some("0.5")));
    let g = hit_row_fields("7,1,2", c).unwrap();
    assert_eq!(g.weight, None);
    assert_eq!(hit_row_fields("  # note", c), None);
    assert_eq!(hit_row_fields("   ", c), None);
    assert_eq!(hit_row_fields("7,1", c), None);
}

#[test]
fn morton_layout_order() {
    let cells = vec![(3, 0, 0), (0, 0, 0), (1, 1, 1), (0, 0, 0)];
    let order = morton_order(&cells);
    assert_eq!(order.len(), 4);
    let codes: Vec<u32> = order.iter().map(|&i| morton_encode(cells[i].0, cells[i].1, cells[i].2)).collect();
    assert_eq!(codes, vec![0, 0, 7, 9]);
    let mut seen = order.clone();
    seen.sort();
    assert_eq!(seen, vec![0, 1, 2, 3]);
    assert_eq!(order[2], 2);
    assert_eq!(order[3], 0);
}

#[test]
fn rerender_keeps_recorded_choice() {
    for c in [
        ColormapType::RcfFilm,
        ColormapType::Scientific,
        ColormapType::Grayscale,
        ColormapType::Hot,
        ColormapType::Inverted,
    ] {
        assert_eq!(choose_colormap(None, Some(colormap_to_str(c))), c);
        assert_eq!(choose_colormap(Some(c), Some("hot")), c);
    }
    for m in [ScaleMode::Linear, ScaleMode::Log, ScaleMode::Sqrt] {
        assert_eq!(choose_scale(None, Some(scale_to_str(m))), m);
        assert_eq!(choose_scale(Some(m), Some("linear")), m);
    }
}

#[test]
fn material_name_case_does_not_matter() {
    for (a, b) in [("WATER", "water"), ("Al", "aL"), ("Ch2", "cH2"), ("HYDROGEN", "hydrogen")] {
        assert_eq!(Material::from_name(a), Material::from_name(b));
        assert!(Material::from_name(a).is_some());
    }
}

#[test]
fn every_accepted_override_names_a_deck_setting() {
    let keys = [
        "source.energy_MeV", "source.energy_mev", "source.n_particles", "source.beam_radius_mm",
        "source.angular_spread_deg", "source.energy_spread_percent", "source.temperature_MeV",
        "source.temperature_mev", "source.cutoff_mev", "source.cutoff_MeV", "numerics.dt_ps",
        "dt_ps", "numerics.max_steps", "max_steps", "detector.width_mm", "detector.height_mm",
        "field.scale_B", "field.scale_b", "field.scale_E", "field.scale_e",
    ];
    for k in keys {
        let ov = parse_override(&format!("{}=7", k)).unwrap();
        assert!(deck_field(&ov.canonical_key).is_some(), "{}", k);
        assert!(deck_assignment(&ov).is_ok(), "{}", k);
    }
}

#[test]
fn detector_geometry_choice() {
    let with_meta =
        parse_hits_render_args(&argv(&["--hits", "h.csv", "--meta", "m.json"])).unwrap();
    assert!(matches!(
        detector_geometry_from(&with_meta, false, false),
        Ok(DetectorGeometryFrom::MetaFile)
    ));
    let sizes = parse_hits_render_args(&argv(&["--hits", "h.csv"])).unwrap();
    assert!(matches!(
        detector_geometry_from(&sizes, true, true),
        Ok(DetectorGeometryFrom::SizeOptions)
    ));
    assert!(matches!(
        detector_geometry_from(&sizes, true, false),
        Err(CliError::MissingDetectorGeometry)
    ));
}
