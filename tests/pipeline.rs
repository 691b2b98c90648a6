use argos_arpa::config::{Behaviour, Config, Database, Paths};
use argos_arpa::data_types::{Measurement, ParMeta, PulsarMeta, RawMeta, TemplateMeta};
use argos_arpa::diagnostics::{DiagnosticKind, DiagnosticOut};
use argos_arpa::pipeline::{Action, Cook, Event, Record, Stage, Status};
use argos_arpa::ARPAError;

const VAP_HEADER: &str = "working.ar 1024 4 1 1 Pulsar Parkes J0437-4715 -47:15:09.1 04:37:15.8 1400.0 256.0 2.64 0.0 FluxDen Intensity 3600.0 MULTI Lin PDFB4 55000.5";

fn config(diagnostics: &[&str]) -> Config {
    Config {
        database: Database { url: "postgres://localhost/arpa".to_string(), pool_connections: 4, connection_timeout: 4000 },
        behaviour: Behaviour {
            archive_rawfiles: true,
            move_rawfiles: false,
            auto_add_pulsars: true,
            auto_resolve_duplicate_uploads: false,
            toa_fitting: "FDM".to_string(),
            diagnostics: diagnostics.iter().map(|s| s.to_string()).collect(),
            checksum_block_size: 1024,
        },
        paths: Paths {
            psrchive: String::new(),
            rawfile_storage: "/data/raw".to_string(),
            temp_dir: "/tmp/arpa".to_string(),
            diagnostics_dir: "/data/diag".to_string(),
        },
    }
}

/// A stand-in for the world around a run: it answers every action.
struct World {
    next_id: i32,
    inserted: Vec<Record>,
    statuses: Vec<Status>,
    measurement_lines: usize,
    failing: Option<&'static str>,
    toa_plot: bool,
    committed: bool,
    transaction: bool,
    renames: Vec<(String, String)>,
}

impl World {
    fn new(measurement_lines: usize) -> World {
        World {
            next_id: 100,
            inserted: vec![],
            statuses: vec![],
            measurement_lines,
            failing: None,
            toa_plot: false,
            committed: false,
            transaction: false,
            renames: vec![],
        }
    }

    fn answer(&mut self, action: Action) -> Option<Event> {
        Some(match action {
            Action::GetPulsar(_) => {
                let mut p = PulsarMeta::null();
                p.alias = "J0437-4715".to_string();
                Event::Pulsar(p)
            }
            Action::Copy { .. } | Action::Link { .. } => Event::Done,
            Action::RunTool { tool, args } => match tool.as_str() {
                "pam" => Event::Output(String::new()),
                "pat" => {
                    let mut out = String::from("FORMAT 1\n");
                    for i in 0..self.measurement_lines {
                        out.push_str(&format!("working.ar 1400.000 55000.{i:04} 1.5 pks\n"));
                    }
                    Event::Output(out)
                }
                "vap" if args[2] == "nchan,nsub,name,intmjd,fracmjd" => Event::Output("working.ar 4 1 J0437-4715 55000 0.5".to_string()),
                "vap" => Event::Output(VAP_HEADER.to_string()),
                other => panic!("unexpected tool {other}"),
            },
            Action::Checksum(_) => Event::Checksum(0x1234),
            Action::SecondsOfDay(text) => {
                let f: f32 = text.parse().unwrap();
                Event::Seconds((f * 86400.0).round() as u32)
            }
            Action::StartTransaction => {
                assert!(!self.transaction);
                self.transaction = true;
                Event::Done
            }
            Action::Insert(record) => {
                assert!(self.transaction, "inserts happen inside the transaction");
                self.inserted.push(record);
                self.next_id += 1;
                Event::Inserted(self.next_id)
            }
            Action::ParseMeasurements(lines) => Event::Measurements(
                lines
                    .iter()
                    .enumerate()
                    .map(|(i, _)| Measurement { toa_int: 55000, toa_frac: (i as f64 / 1e4).to_bits(), toa_err: 1.5f32.to_bits(), frequency: 1400f32.to_bits() })
                    .collect(),
            ),
            Action::RunDiagnostic { name, kind, .. } => {
                if Some(name.as_str()) == self.failing {
                    Event::DiagnosticOutput(Err(ARPAError::DiagnosticPlotBadFile(name)))
                } else {
                    match kind {
                        DiagnosticKind::Snr => Event::DiagnosticOutput(Ok(DiagnosticOut::Value(25.0f32.to_bits()))),
                        DiagnosticKind::Composite => Event::DiagnosticOutput(Ok(DiagnosticOut::Plot("/tmp/arpa/tmp.png".to_string()))),
                    }
                }
            }
            Action::Archive { directory, name, .. } => Event::Archived(format!("{directory}/{name}")),
            Action::Exists(_) => Event::Exists(self.toa_plot),
            Action::Rename { from, to } => {
                self.renames.push((from, to));
                Event::Done
            }
            Action::Commit => {
                self.committed = true;
                self.transaction = false;
                Event::Done
            }
            Action::Finish => return None,
            Action::Fail(e) => panic!("run failed: {e:?}"),
        })
    }
}

fn inputs() -> (RawMeta, TemplateMeta) {
    let raw = RawMeta { id: 3, ..RawMeta::new("/data/raw/obs.ar".to_string(), 77, 1, 2) };
    let template = TemplateMeta { id: 5, ..TemplateMeta::new("/data/t.std".to_string(), 1, 0x1234) };
    (raw, template)
}

fn drive(cook: &mut Cook, world: &mut World) {
    let mut event = Event::Begin;
    for _ in 0..1000 {
        let (statuses, action) = cook.step(event);
        world.statuses.extend(statuses);
        match world.answer(action) {
            Some(e) => event = e,
            None => return,
        }
    }
    panic!("the run did not finish");
}

#[test]
fn one_raw_file_gives_one_process_and_n_measurements() {
    let (raw, template) = inputs();
    let mut cook = Cook::new(config(&[]), raw, None, template, false);
    let mut world = World::new(7);
    drive(&mut cook, &mut world);
    assert_eq!(cook.current_stage(), Stage::Done);
    let processes = world.inserted.iter().filter(|r| matches!(r, Record::Process(_))).count();
    let toas = world.inserted.iter().filter(|r| matches!(r, Record::Toa(_))).count();
    assert_eq!(processes, 1);
    assert_eq!(toas, 7);
    assert!(world.committed);
    assert!(world.statuses.iter().any(|s| matches!(s, Status::GotTOAs(7))));
    assert!(world.statuses.iter().any(|s| matches!(s, Status::ArchivedTOAs(7))));
    match &world.inserted[0] {
        Record::Process(p) => {
            assert_eq!(p.raw_id, 3);
            assert_eq!(p.template_id, 5);
            assert_eq!(p.par_id, None);
            assert_eq!(p.n_channels, 4);
            assert_eq!(p.n_subints, 1);
            assert_eq!(p.method, "FDM");
        }
        other => panic!("unexpected {other:?}"),
    }
    match &world.inserted[1] {
        Record::Toa(t) => {
            assert_eq!(t.process_id, 101);
            assert_eq!(t.toa_int, 55000);
            assert_eq!(t.rawfile_id, 3);
            assert_eq!(t.observer_id, 2);
        }
        other => panic!("unexpected {other:?}"),
    }
}

#[test]
fn stages_follow_the_fixed_order() {
    let (raw, template) = inputs();
    let par = ParMeta { id: 9, ..ParMeta::new("/data/p.par".to_string(), 1, 4) };
    let mut cook = Cook::new(config(&[]), raw, Some(par), template, false);
    let mut world = World::new(2);
    drive(&mut cook, &mut world);
    let names: Vec<&str> = world
        .statuses
        .iter()
        .map(|s| match s {
            Status::Starting { .. } => "starting",
            Status::Copying(..) => "copying",
            Status::InstallingEphemeride => "installing",
            Status::Manipulating => "manipulating",
            Status::VerifyingTemplate => "verifying",
            Status::GeneratingTOAs => "generating",
            Status::GotTOAs(_) => "got",
            Status::LoggingProcess => "logging",
            Status::ParsingTOAs => "parsing",
            Status::ArchivedTOAs(_) => "archived",
            _ => "other",
        })
        .collect();
    assert_eq!(
        names,
        vec!["starting", "copying", "installing", "manipulating", "verifying", "generating", "got", "logging", "parsing", "archived"]
    );
    match &world.statuses[0] {
        Status::Starting { raw, pulsar, ephemeride, template } => {
            assert_eq!(raw, &("/data/raw/obs.ar".to_string(), 3));
            assert_eq!(pulsar, &("J0437-4715".to_string(), 1));
            assert_eq!(ephemeride, &Some(("/data/p.par".to_string(), 9)));
            assert_eq!(*template, 5);
        }
        other => panic!("unexpected {other:?}"),
    }
}

#[test]
fn failing_diagnostic_is_skipped_and_the_run_commits() {
    let (raw, template) = inputs();
    let mut cook = Cook::new(config(&["snr", "composite", "bogus"]), raw, None, template, true);
    let mut world = World::new(3);
    world.failing = Some("composite");
    drive(&mut cook, &mut world);
    assert!(world.committed);
    assert_eq!(world.inserted.iter().filter(|r| matches!(r, Record::Process(_))).count(), 1);
    assert_eq!(world.inserted.iter().filter(|r| matches!(r, Record::Toa(_))).count(), 3);
    let floats: Vec<_> = world.inserted.iter().filter_map(|r| match r { Record::Float(f) => Some(f.diagnostic.clone()), _ => None }).collect();
    let plots: Vec<_> = world.inserted.iter().filter_map(|r| match r { Record::Plot(p) => Some(p.diagnostic.clone()), _ => None }).collect();
    assert_eq!(floats, vec!["snr".to_string()]);
    assert!(plots.is_empty());
    let finished: Vec<(String, bool)> = world
        .statuses
        .iter()
        .filter_map(|s| match s { Status::FinishedDiagnostic { diagnostic, passed } => Some((diagnostic.clone(), *passed)), _ => None })
        .collect();
    assert_eq!(finished, vec![("snr".to_string(), true), ("composite".to_string(), false), ("bogus".to_string(), false)]);
    assert!(world.statuses.iter().any(|s| matches!(s, Status::Diagnosing(3))));
}

#[test]
fn diagnostics_record_plots_and_measurement_plots() {
    let (raw, template) = inputs();
    let mut cook = Cook::new(config(&["composite"]), raw, None, template, true);
    let mut world = World::new(2);
    world.toa_plot = true;
    drive(&mut cook, &mut world);
    assert!(world.committed);
    let plots: Vec<_> = world.inserted.iter().filter_map(|r| match r { Record::Plot(p) => Some(p.filepath.clone()), _ => None }).collect();
    assert_eq!(plots[0], "/data/raw/J0437-4715/parkes/multi/pdfb4/process101/composite.png");
    assert_eq!(plots[1], "/data/raw/J0437-4715/parkes/multi/pdfb4/process101/J0437-4715_55000_43200.TOA102.png");
    assert_eq!(plots[2], "/data/raw/J0437-4715/parkes/multi/pdfb4/process101/J0437-4715_55000_43200.TOA103.png");
    assert_eq!(world.renames[0].0, "/tmp/arpa/toa_diag.png");
    assert_eq!(world.renames[1].0, "/tmp/arpa/toa_diag.png_2");
    assert!(world.statuses.iter().any(|s| matches!(s, Status::ArchivedTOAPlots(Some(2)))));
}

#[test]
fn failure_before_the_transaction_aborts_the_run() {
    let (raw, template) = inputs();
    let mut cook = Cook::new(config(&[]), raw, None, template, false);
    let _ = cook.step(Event::Begin);
    let _ = cook.step(Event::Pulsar(PulsarMeta::null()));
    let (_, action) = cook.step(Event::Failed(ARPAError::MissingFileOrDirectory("/data/raw/obs.ar".into())));
    assert!(matches!(action, Action::Fail(ARPAError::MissingFileOrDirectory(_))));
    assert_eq!(cook.current_stage(), Stage::Failed);
}

#[test]
fn template_checksum_mismatch_fails() {
    let (raw, template) = inputs();
    let mut cook = Cook::new(config(&[]), raw, None, template, false);
    let _ = cook.step(Event::Begin);
    let _ = cook.step(Event::Pulsar(PulsarMeta::null()));
    let _ = cook.step(Event::Done);
    let (_, action) = cook.step(Event::Output(String::new()));
    assert!(matches!(action, Action::Checksum(_)));
    let (_, action) = cook.step(Event::Checksum(0x9999));
    assert!(matches!(action, Action::Fail(ARPAError::ChecksumFail(p)) if p == "/data/t.std"));
}

#[test]
fn measurement_output_needs_its_format_line() {
    let (raw, template) = inputs();
    let mut cook = Cook::new(config(&[]), raw, None, template, false);
    let _ = cook.step(Event::Begin);
    let _ = cook.step(Event::Pulsar(PulsarMeta::null()));
    let _ = cook.step(Event::Done);
    let _ = cook.step(Event::Output(String::new()));
    let _ = cook.step(Event::Checksum(0x1234));
    let (_, action) = cook.step(Event::Output("FORMAT 2\nx".to_string()));
    assert!(matches!(action, Action::Fail(ARPAError::TOAExpectedFormat(_))));
}
