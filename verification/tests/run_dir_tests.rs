use proton_tracer::config::{
    deck_default_pixels, deck_default_true, deck_max_steps, DeckOutput, WindowConfig,
};
use proton_tracer::gui::{presets_equal, Gui, Preset, RunState};
use proton_tracer::inspect::{
    check_counts_file_size, counts_words, inspect, validate_pixel_count, DirKind, InspectError,
};
use proton_tracer::overrides::parse_override;
use proton_tracer::run_dir::{
    cli_override_records, join, plan_open, CountsFormat, HardwareInfo, InputFiles, OpenPlan,
    OutputFiles, RunDir, RunOptions, RunRecord,
};

#[test]
fn run_dir_paths() {
    let rd = RunDir::at("runs/zpinch_01".to_string());
    assert_eq!(rd.root(), "runs/zpinch_01");
    assert_eq!(rd.counts_dir(), "runs/zpinch_01/counts");
    assert_eq!(rd.raw_counts_path(), "runs/zpinch_01/counts/raw_counts.bin");
    assert_eq!(rd.processed_counts_path(), "runs/zpinch_01/counts/processed_counts.bin");
    assert_eq!(rd.hits_bin_path(), "runs/zpinch_01/counts/hits.bin");
    assert_eq!(rd.radiograph_png_path(), "runs/zpinch_01/images/radiograph.png");
    assert_eq!(rd.hits_csv_path(), "runs/zpinch_01/tables/hits.csv");
    assert_eq!(rd.resolved_config_path(), "runs/zpinch_01/resolved_config.json");
    assert_eq!(rd.metadata_path(), "runs/zpinch_01/metadata.json");
    assert_eq!(rd.log_path(), "runs/zpinch_01/log.txt");
    assert_eq!(rd.input_deck_path("toml"), "runs/zpinch_01/input_deck.toml");
    assert_eq!(rd.subdirs(), vec![
        "runs/zpinch_01/counts".to_string(),
        "runs/zpinch_01/images".to_string(),
        "runs/zpinch_01/tables".to_string(),
    ]);
}

#[test]
fn join_matches_pathbuf() {
    for (b, c) in [("a", "b"), ("a/", "b"), ("", "b"), ("a", "/abs"), ("/", "x")] {
        let expect = std::path::Path::new(b).join(c);
        assert_eq!(join(b, c), expect.to_str().unwrap());
    }
}

#[test]
fn open_plans() {
    let none = RunOptions::default();
    let ow = RunOptions { overwrite: true, resume: false };
    let rs = RunOptions { overwrite: false, resume: true };
    let both = RunOptions { overwrite: true, resume: true };
    assert_eq!(plan_open(false, false, &none), OpenPlan::Create);
    assert_eq!(plan_open(true, false, &none), OpenPlan::Create);
    assert_eq!(plan_open(true, true, &none), OpenPlan::Refuse);
    assert_eq!(plan_open(true, true, &ow), OpenPlan::Replace);
    assert_eq!(plan_open(true, true, &rs), OpenPlan::Resume);
    assert_eq!(plan_open(true, true, &both), OpenPlan::Replace);
}

#[test]
fn metadata_records() {
    let mut r = RunRecord::running("z".into(), vec!["a".into()], "t0".into());
    assert_eq!(r.status, "running");
    r.mark_complete("t1".into());
    assert_eq!(r.status, "complete");
    assert_eq!(r.completed_at.as_deref(), Some("t1"));
    let h = HardwareInfo::host("box".into(), "linux".into());
    assert_eq!(h.backend, "Vulkan");
    let i = InputFiles::deck("d.toml".into());
    assert_eq!(i.deck_path, "d.toml");
    assert!(i.field_sha256.is_none());
    let mut o = OutputFiles::initial();
    assert_eq!(o.resolved_config, "resolved_config.json");
    o.record_exports();
    assert_eq!(o.raw_counts.as_deref(), Some("counts/raw_counts.bin"));
    assert_eq!(o.radiograph_png.as_deref(), Some("images/radiograph.png"));
    let cf = CountsFormat::for_detector(1024, 512);
    assert_eq!(cf.raw.shape, [512, 1024]);
    assert_eq!(cf.raw.dtype, "uint32");
    assert_eq!(cf.processed.dtype, "float32");
    let ovs = vec![parse_override("dt_ps=1").unwrap()];
    let recs = cli_override_records(&ovs);
    assert_eq!(recs[0].key, "numerics.dt_ps");
    assert_eq!(recs[0].value, "1");
}

#[test]
fn presets_and_states() {
    assert_eq!(Preset::Unselected.config_path(), None);
    assert_eq!(Preset::ZPinch.config_path().as_deref(), Some("data/instabilities/zpinch.json"));
    assert_eq!(
        Preset::MagpieStagnation3MeV.config_path().as_deref(),
        Some("data/magpie/magpie_stagnation_3MeV.json")
    );
    assert_eq!(Preset::CustomFile("my.toml".into()).config_path().as_deref(), Some("my.toml"));
    assert_eq!(Preset::KinkWeak.display_name(), "Kink (weak)");
    assert!(RunState::Running.is_active());
    assert!(RunState::Preparing.is_active());
    assert!(!RunState::Idle.is_active());
    assert!(!RunState::Complete("runs/x".into()).is_active());
    assert!(!RunState::Failed("boom".into()).is_active());
}

#[test]
fn config_defaults() {
    let w = WindowConfig::default();
    assert_eq!((w.width, w.height, w.fullscreen, w.vsync), (1280, 720, false, true));
    assert_eq!(deck_default_pixels(), [512, 512]);
    assert!(deck_default_true());
    assert_eq!(deck_max_steps(None), 10000);
    assert_eq!(deck_max_steps(Some(250)), 250);
    assert_eq!(DeckOutput::default().write_png, None);
}

#[test]
fn inspect_checks() {
    assert_eq!(inspect(true, true).unwrap(), DirKind::Sweep);
    assert_eq!(inspect(false, true).unwrap(), DirKind::Run);
    assert!(matches!(inspect(false, false), Err(InspectError::NotRunOrSweepDir)));
    assert!(validate_pixel_count(12, None, "raw_counts.bin").is_ok());
    assert!(validate_pixel_count(12, Some([3, 4]), "raw_counts.bin").is_ok());
    match validate_pixel_count(11, Some([3, 4]), "raw_counts.bin") {
        Err(InspectError::PixelCount { file, actual, rows, cols, expected }) => {
            assert_eq!((file.as_str(), actual, rows, cols, expected), ("raw_counts.bin", 11, 3, 4, 12));
        }
        other => panic!("unexpected {:?}", other),
    }
    assert!(check_counts_file_size([512, 512], 512 * 512 * 4).is_ok());
    assert!(matches!(
        check_counts_file_size([2, 3], 20),
        Err(InspectError::CountsSize { expected: 24, actual: 20, .. })
    ));
}

#[test]
fn counts_file_words() {
    let w = counts_words(&[1, 0, 0, 0, 0xff, 0xff, 0xff, 0xff], "raw_counts.bin").unwrap();
    assert_eq!(w, vec![1, u32::MAX]);
    assert!(matches!(
        counts_words(&[1, 2, 3], "raw_counts.bin"),
        Err(InspectError::CountsNotWords(f)) if f == "raw_counts.bin"
    ));
    assert_eq!(counts_words(&[], "x").unwrap(), Vec::<u32>::new());
}

#[test]
fn launcher_state_machine() {
    let mut g = Gui::new();
    assert!(g.visible);
    assert_eq!(g.output_dir, "output/run");
    assert!(!g.can_run());
    // choosing a preset asks for a preview
    g.choose_preset(Preset::KinkWeak);
    assert_eq!(g.run_state, RunState::Preparing);
    assert_eq!(g.take_deck_load_request().as_deref(), Some("data/instabilities/kink_weak.json"));
    assert_eq!(g.take_deck_load_request(), None);
    // choosing it again does nothing
    g.choose_preset(Preset::KinkWeak);
    assert_eq!(g.take_deck_load_request(), None);
    // the deck loads: back to idle, output directory named after it
    g.set_deck_display("kink_weak".to_string(), 1700000000);
    assert_eq!(g.run_state, RunState::Idle);
    assert_eq!(g.output_dir, "output/kink_weak_1700000000");
    assert!(g.can_run());
    g.update_progress(5, 7, 100);
    g.press_run();
    assert_eq!(g.run_state, RunState::Preparing);
    assert_eq!(g.progress_counts(), (0, 100));
    assert!(!g.can_run());
    assert_eq!(g.take_run_start_request().as_deref(), Some("output/kink_weak_1700000000"));
    g.press_run();
    assert_eq!(g.take_run_start_request(), None);
    // export only once complete
    g.press_export();
    assert!(!g.take_export_request());
    g.set_run_state(RunState::Complete("output/kink_weak_1700000000".to_string()));
    g.press_export();
    assert!(g.take_export_request());
    assert!(!g.take_export_request());
    // custom files: each new path asks for a preview; an empty one does not
    g.edit_custom_path("decks/my.toml".to_string());
    assert_eq!(g.take_deck_load_request().as_deref(), Some("decks/my.toml"));
    assert_eq!(g.selected_config_path().as_deref(), Some("decks/my.toml"));
    g.edit_custom_path(String::new());
    assert_eq!(g.take_deck_load_request(), None);
    g.update_progress(u32::MAX, 3, 0);
    assert_eq!(g.progress_counts(), (u32::MAX, 1));
    assert!(presets_equal(&Preset::CustomFile("a".into()), &Preset::CustomFile("a".into())));
    assert!(!presets_equal(&Preset::CustomFile("a".into()), &Preset::CustomFile("b".into())));
    assert!(!presets_equal(&Preset::ZPinch, &Preset::Mixed));
    assert!(presets_equal(&Preset::Unselected, &Preset::Unselected));
}
