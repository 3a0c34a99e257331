use proton_tracer::sweep::{
    first_free_sweep_number, initial_manifest, make_run_label, parse_param_spec, parse_sweep_args, plan_sweep_dir,
    resume_sweep_args, status_counts, sweep_dir_name, sweep_dir_name_at, sweep_run_argv,
    ManifestOverride, ParamSpec, RunStatus, SweepArgStep, SweepDirPlan, SweepError, SweepSpec,
};

fn argv(a: &[&str]) -> Vec<String> {
    a.iter().map(|s| s.to_string()).collect()
}

fn finished(r: Result<SweepArgStep, SweepError>) -> proton_tracer::sweep::SweepArgs {
    match r {
        Ok(SweepArgStep::Finished(a)) => a,
        other => panic!("unexpected {:?}", other),
    }
}

#[test]
fn energy_list_sweep() {
    let a = finished(parse_sweep_args(&argv(&[
        "zpinch.toml", "--param", "source.energy_MeV=5,10,15,20",
    ])));
    assert_eq!(a.deck_path, "zpinch.toml");
    assert_eq!(a.params.len(), 1);
    assert_eq!(a.params[0].key, "source.energy_MeV");
    assert_eq!(a.params[0].values, vec!["5", "10", "15", "20"]);
    assert_eq!(a.output_dir, None);
    assert!(!a.overwrite);
}

#[test]
fn paired_sweep_zip_mode() {
    let a = finished(parse_sweep_args(&argv(&[
        "zpinch.toml", "--param", "source.energy_MeV=5, 10 ,15", "--param",
        "numerics.max_steps=10000,20000,30000", "-o", "runs/s", "--overwrite",
    ])));
    assert_eq!(a.params[0].values, vec!["5", "10", "15"]);
    assert_eq!(a.params[1].key, "numerics.max_steps");
    assert_eq!(a.output_dir.as_deref(), Some("runs/s"));
    assert!(a.overwrite);
}

#[test]
fn zip_length_mismatch() {
    match parse_sweep_args(&argv(&["d.toml", "--param", "dt_ps=1,2", "--param", "max_steps=1,2,3"])) {
        Err(SweepError::LengthMismatch { first_key, first_len, key, len }) => {
            assert_eq!((first_key.as_str(), first_len, key.as_str(), len), ("numerics.dt_ps", 2, "numerics.max_steps", 3));
        }
        other => panic!("unexpected {:?}", other),
    }
}

#[test]
fn sweep_argument_errors() {
    assert!(matches!(parse_sweep_args(&argv(&["--param", "dt_ps=1"])), Err(SweepError::MissingDeck)));
    assert!(matches!(parse_sweep_args(&argv(&["d.toml"])), Err(SweepError::NoParams)));
    assert!(matches!(parse_sweep_args(&argv(&["d.toml", "--param"])), Err(SweepError::ParamMissingValue)));
    assert!(matches!(parse_sweep_args(&argv(&["d.toml", "--product"])), Err(SweepError::UnknownOption(_))));
    assert!(matches!(parse_sweep_args(&argv(&["d.toml", "e.toml"])), Err(SweepError::UnknownOption(_))));
    assert!(matches!(parse_sweep_args(&argv(&["d.toml", "--param", "bogus=1"])), Err(SweepError::UnknownKey(_))));
    assert!(matches!(parse_sweep_args(&argv(&["d.toml", "--param", "dt_ps"])), Err(SweepError::MissingEquals(_))));
    assert!(matches!(parse_sweep_args(&argv(&["d.toml", "--param", "dt_ps=1:2"])), Err(SweepError::RangeSyntax(_))));
    assert!(matches!(parse_sweep_args(&argv(&["d.toml", "-h"])), Ok(SweepArgStep::Help)));
}

#[test]
fn range_is_handed_out_then_resumed() {
    let args = argv(&["zpinch.toml", "--param", "source.energy_MeV=5:20:5", "-o", "runs/e"]);
    let req = match parse_sweep_args(&args) {
        Ok(SweepArgStep::NeedRange(req)) => req,
        other => panic!("unexpected {:?}", other),
    };
    assert_eq!(req.key, "source.energy_MeV");
    assert_eq!((req.start.as_str(), req.stop.as_str(), req.step.as_str()), ("5", "20", "5"));
    let values = vec!["5".to_string(), "10".into(), "15".into(), "20".into()];
    let a = finished(resume_sweep_args(&args, req, Ok(values)));
    assert_eq!(a.params[0].values.len(), 4);
    assert_eq!(a.output_dir.as_deref(), Some("runs/e"));
    let req2 = match parse_sweep_args(&args) {
        Ok(SweepArgStep::NeedRange(req)) => req,
        other => panic!("unexpected {:?}", other),
    };
    assert!(matches!(resume_sweep_args(&args, req2, Err("bad".into())), Err(SweepError::Range(_))));
}

#[test]
fn param_spec_reading() {
    match parse_param_spec("max_steps = 1 , 2").unwrap() {
        ParamSpec::List(p) => {
            assert_eq!(p.key, "numerics.max_steps");
            assert_eq!(p.values, vec!["1", "2"]);
        }
        other => panic!("unexpected {:?}", other),
    }
    match parse_param_spec("dt_ps= 1 : 3:1 ").unwrap() {
        ParamSpec::Range { key, start, stop, step } => {
            assert_eq!(key, "numerics.dt_ps");
            assert_eq!((start.as_str(), stop.as_str(), step.as_str()), ("1 ", " 3", "1"));
        }
        other => panic!("unexpected {:?}", other),
    }
}

fn ov(k: &str, v: &str) -> ManifestOverride {
    ManifestOverride { key: k.into(), value: v.into() }
}

#[test]
fn run_labels() {
    assert_eq!(make_run_label(&vec![ov("source.energy_MeV", "5")]), "energy_MeV_5");
    assert_eq!(
        make_run_label(&vec![ov("source.energy_MeV", "5"), ov("numerics.max_steps", "10000")]),
        "energy_MeV_5_max_steps_10000"
    );
    assert_eq!(make_run_label(&vec![]), "");
}

#[test]
fn sweep_dir_names() {
    assert_eq!(sweep_dir_name(1), "sweep_001");
    assert_eq!(sweep_dir_name(42), "sweep_042");
    assert_eq!(sweep_dir_name(999), "sweep_999");
    assert_eq!(sweep_dir_name(1234), "sweep_1234");
    assert_eq!(sweep_dir_name_at(0), "sweep_0");
    assert_eq!(sweep_dir_name_at(1700000000), "sweep_1700000000");
}

#[test]
fn manifest_and_statuses() {
    let a = finished(parse_sweep_args(&argv(&[
        "k.toml", "--param", "source.energy_MeV=5,10", "--param", "max_steps=100,200",
    ])));
    let spec = SweepSpec::from_args(a, "runs/sweep_001".into());
    assert_eq!(spec.output_dir, "runs/sweep_001");
    let mut m = initial_manifest(&spec, "t0".into());
    assert_eq!(m.sweep_schema_version, 1);
    assert_eq!(m.deck, "k.toml");
    assert_eq!(m.runs.len(), 2);
    assert_eq!(m.runs[1].label, "energy_MeV_10_max_steps_200");
    assert_eq!(m.runs[1].run_dir, m.runs[1].label);
    assert_eq!(m.runs[0].status, "pending");
    assert_eq!(m.runs[0].overrides[1].key, "numerics.max_steps");
    assert_eq!(m.runs[0].overrides[1].value, "100");
    m.set_status(0, RunStatus::Complete);
    m.set_status(1, RunStatus::Failed);
    assert_eq!(m.runs[0].status, "complete");
    let c = status_counts(&m.runs);
    assert_eq!((c.complete, c.failed, c.pending), (1, 1, 0));
    m.set_status(1, RunStatus::Running);
    let c = status_counts(&m.runs);
    assert_eq!((c.complete, c.failed, c.pending), (1, 0, 1));
    let cmd = sweep_run_argv("k.toml", "runs/sweep_001/x", &m.runs[0].overrides);
    assert_eq!(cmd, vec![
        "run", "k.toml", "-o", "runs/sweep_001/x", "--set", "source.energy_MeV=5", "--set",
        "numerics.max_steps=100",
    ]);
}

#[test]
fn sweep_dir_plans() {
    assert_eq!(plan_sweep_dir(false, false), SweepDirPlan::Create);
    assert_eq!(plan_sweep_dir(true, true), SweepDirPlan::Replace);
    assert_eq!(plan_sweep_dir(true, false), SweepDirPlan::Refuse);
}

#[test]
fn sweep_point_command_line_reads_back() {
    let ovs = vec![ov("source.energy_MeV", "12.5"), ov("numerics.max_steps", "30000")];
    let child = sweep_run_argv("kink.toml", "runs/sweep_001/energy_MeV_12.5_max_steps_30000", &ovs);
    assert_eq!(child[0], "run");
    let a = proton_tracer::cli::parse_run_args(&child[1..].to_vec()).unwrap();
    assert_eq!(a.config_path.as_deref(), Some("kink.toml"));
    assert_eq!(a.output_dir, "runs/sweep_001/energy_MeV_12.5_max_steps_30000");
    assert!(a.batch_mode);
    assert_eq!(a.overrides.len(), 2);
    for (o, m) in a.overrides.iter().zip(ovs.iter()) {
        assert_eq!(o.canonical_key, m.key);
        assert_eq!(o.raw_value, m.value);
    }
}

#[test]
fn numbered_sweep_dirs_never_collide() {
    let names: Vec<String> = (0..1200u64).map(sweep_dir_name).collect();
    let mut sorted = names.clone();
    sorted.sort();
    sorted.dedup();
    assert_eq!(sorted.len(), names.len());
    assert_eq!(sweep_dir_name(7), "sweep_007");
    assert_eq!(sweep_dir_name(1000), "sweep_1000");
}

#[test]
fn next_free_sweep_number() {
    assert_eq!(first_free_sweep_number(&vec![true, true, false, false]), Some(3));
    assert_eq!(first_free_sweep_number(&vec![false, true]), Some(1));
    assert_eq!(first_free_sweep_number(&vec![true; 999]), None);
    assert_eq!(first_free_sweep_number(&vec![]), None);
}
