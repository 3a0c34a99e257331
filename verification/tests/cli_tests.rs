use proton_tracer::cli::{
    colormap_to_str, demo_preset_path, init_template, parse_colormap, parse_demo_args,
    parse_gui_args, parse_run_args, parse_scale, scale_to_str, CliArgs, CliError, DeckTemplate,
};
use proton_tracer::config::{ColormapType, ScaleMode};

fn argv(a: &[&str]) -> Vec<String> {
    a.iter().map(|s| s.to_string()).collect()
}

#[test]
fn run_args_full() {
    let a = parse_run_args(&argv(&[
        "deck.toml", "-o", "runs/z1", "--overwrite", "--set", "source.energy_mev=5", "--set",
        "max_steps=100", "--resume",
    ]))
    .unwrap();
    assert_eq!(a.config_path.as_deref(), Some("deck.toml"));
    assert!(a.batch_mode);
    assert_eq!(a.output_dir, "runs/z1");
    assert!(a.run_opts.overwrite);
    assert!(a.run_opts.resume);
    assert_eq!(a.overrides.len(), 2);
    assert_eq!(a.overrides[0].canonical_key, "source.energy_MeV");
    assert_eq!(a.overrides[1].canonical_key, "numerics.max_steps");
    assert_eq!(a.overrides[1].raw_value, "100");
}

#[test]
fn run_args_defaults() {
    let a = parse_run_args(&argv(&[])).unwrap();
    assert_eq!(a.config_path, None);
    assert!(a.batch_mode);
    assert_eq!(a.output_dir, "output");
    assert!(!a.run_opts.overwrite && !a.run_opts.resume);
}

#[test]
fn run_args_set_errors() {
    assert!(matches!(parse_run_args(&argv(&["d.toml", "--set"])), Err(CliError::SetMissingValue)));
    assert!(matches!(
        parse_run_args(&argv(&["d.toml", "--set", "nokey"])),
        Err(CliError::BadOverride(_))
    ));
}

#[test]
fn run_args_first_positional_wins_and_unknown_ignored() {
    let a = parse_run_args(&argv(&["a.toml", "--weird", "b.toml", "-o"])).unwrap();
    assert_eq!(a.config_path.as_deref(), Some("a.toml"));
    assert_eq!(a.output_dir, "output");
}

#[test]
fn gui_args() {
    let a = parse_gui_args(&argv(&["-o", "out/x", "deck.toml", "--batch"]));
    assert_eq!(a.config_path.as_deref(), Some("deck.toml"));
    assert_eq!(a.output_dir, "out/x");
    assert!(!a.batch_mode);
}

#[test]
fn demo_args() {
    let a = parse_demo_args(&argv(&["kink-strong", "--batch", "-o", "d"]));
    assert_eq!(a.config_path.as_deref(), Some("data/instabilities/kink_strong.json"));
    assert!(a.batch_mode);
    assert_eq!(a.output_dir, "d");
    let b = parse_demo_args(&argv(&["nosuch"]));
    assert_eq!(b.config_path, None);
}

#[test]
fn demo_presets() {
    assert_eq!(demo_preset_path("z-pinch").as_deref(), Some("data/instabilities/zpinch.json"));
    assert_eq!(demo_preset_path("mixed").as_deref(), Some("data/instabilities/mixed.json"));
    assert_eq!(demo_preset_path("kink"), None);
}

#[test]
fn legacy_args() {
    let a = CliArgs::parse_legacy(&argv(&["cfg.json", "-b", "--output", "x"])).unwrap();
    assert_eq!(a.config_path.as_deref(), Some("cfg.json"));
    assert!(a.batch_mode);
    assert_eq!(a.output_dir, "x");
    assert!(matches!(CliArgs::parse_legacy(&argv(&["cfg.json", "-h"])), Err(CliError::Help)));
}

#[test]
fn colormap_and_scale_names() {
    assert_eq!(parse_colormap(Some("rcf")).unwrap(), ColormapType::RcfFilm);
    assert_eq!(parse_colormap(Some("hot")).unwrap(), ColormapType::Hot);
    assert!(matches!(parse_colormap(Some("jet")), Err(CliError::UnknownColormap(Some(_)))));
    assert!(matches!(parse_colormap(None), Err(CliError::UnknownColormap(None))));
    assert_eq!(parse_scale(Some("sqrt")).unwrap(), ScaleMode::Sqrt);
    assert!(matches!(parse_scale(Some("LOG")), Err(CliError::UnknownScale(_))));
    for c in [
        ColormapType::RcfFilm,
        ColormapType::Scientific,
        ColormapType::Grayscale,
        ColormapType::Hot,
        ColormapType::Inverted,
    ] {
        assert_eq!(parse_colormap(Some(colormap_to_str(c))).unwrap(), c);
    }
    for m in [ScaleMode::Linear, ScaleMode::Log, ScaleMode::Sqrt] {
        assert_eq!(parse_scale(Some(scale_to_str(m))).unwrap(), m);
    }
}

#[test]
fn init_templates() {
    assert_eq!(init_template(None).unwrap(), DeckTemplate::Blank);
    assert_eq!(init_template(Some("zpinch")).unwrap(), DeckTemplate::ZPinch);
    assert!(matches!(init_template(Some("kink")), Err(CliError::UnknownInitPreset(_))));
}
