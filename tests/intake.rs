use argos_arpa::archivist::Statement;
use argos_arpa::config::{Behaviour, Config, Database, Paths};
use argos_arpa::data_types::{IntakeAction, IntakeEvent, RawMeta};
use argos_arpa::value::Value;
use argos_arpa::{ARPAError, Table};

const VAP: &str = "obs.ar 1024 4 1 8 Pulsar Parkes J0437-4715 -47:15:09.1 04:37:15.8 1400.0 256.0 2.64 0.0 FluxDen Intensity 3600.0 MULTI Lin PDFB4 55000.5";

fn config(archive: bool, auto_add: bool) -> Config {
    Config {
        database: Database { url: String::new(), pool_connections: 1, connection_timeout: 1 },
        behaviour: Behaviour {
            archive_rawfiles: archive,
            move_rawfiles: false,
            auto_add_pulsars: auto_add,
            auto_resolve_duplicate_uploads: false,
            toa_fitting: "FDM".into(),
            diagnostics: vec![],
            checksum_block_size: 16,
        },
        paths: Paths { psrchive: String::new(), rawfile_storage: "/data/raw".into(), temp_dir: "/tmp".into(), diagnostics_dir: "/diag".into() },
    }
}

fn telescope_row() -> Option<(i32, Vec<Value>)> {
    Some((1, vec![Value::Text("parkes".into()), Value::Text("pks".into()), Value::Text("7".into())]))
}

fn table_of(stmt: &Statement) -> Table {
    match stmt {
        Statement::Select { table, .. } => *table,
        other => panic!("unexpected {other:?}"),
    }
}

#[test]
fn raw_file_with_a_new_pulsar_is_archived() {
    let c = config(true, true);
    let mut intake = RawMeta::prepare_raw_meta(c.clone(), "/in/obs.ar");
    assert!(matches!(intake.step(IntakeEvent::Begin), IntakeAction::Exists(p) if p == "/in/obs.ar"));
    assert!(matches!(intake.step(IntakeEvent::Exists(true)), IntakeAction::RunTool { tool, .. } if tool == "vap"));
    match intake.step(IntakeEvent::Output(VAP.into())) {
        IntakeAction::Read(s) => assert_eq!(table_of(&s), Table::Telescopes),
        other => panic!("unexpected {other:?}"),
    }
    match intake.step(IntakeEvent::Row(telescope_row())) {
        IntakeAction::Read(s) => assert_eq!(table_of(&s), Table::ObsSystems),
        other => panic!("unexpected {other:?}"),
    }
    match intake.step(IntakeEvent::Row(Some((2, vec![])))) {
        IntakeAction::Read(s) => assert_eq!(table_of(&s), Table::PulsarMetas),
        other => panic!("unexpected {other:?}"),
    }
    match intake.step(IntakeEvent::Row(None)) {
        IntakeAction::InsertPulsar(p) => {
            assert_eq!(p.alias, "J0437-4715");
            assert_eq!(p.id, 0);
        }
        other => panic!("unexpected {other:?}"),
    }
    match intake.step(IntakeEvent::Inserted(9)) {
        IntakeAction::Archive { source, directory, name } => {
            assert_eq!(source, "/in/obs.ar");
            assert_eq!(directory, "/data/raw/J0437-4715/parkes/multi/pdfb4");
            assert_eq!(name, "obs.ar");
        }
        other => panic!("unexpected {other:?}"),
    }
    match intake.step(IntakeEvent::Placed("/data/raw/J0437-4715/parkes/multi/pdfb4/obs.ar".into(), 42)) {
        IntakeAction::Done(raw) => {
            assert_eq!(raw.id, 0);
            assert_eq!(raw.checksum, 42);
            assert_eq!(raw.pulsar_id, 9);
            assert_eq!(raw.observer_id, 2);
            assert_eq!(raw.file_path, "/data/raw/J0437-4715/parkes/multi/pdfb4/obs.ar");
        }
        other => panic!("unexpected {other:?}"),
    }
}

#[test]
fn unknown_pulsar_without_auto_add_fails() {
    let c = config(false, false);
    let mut intake = RawMeta::prepare_raw_meta(c.clone(), "/in/obs.ar");
    intake.step(IntakeEvent::Begin);
    intake.step(IntakeEvent::Exists(true));
    intake.step(IntakeEvent::Output(VAP.into()));
    intake.step(IntakeEvent::Row(telescope_row()));
    intake.step(IntakeEvent::Row(Some((2, vec![]))));
    match intake.step(IntakeEvent::Row(None)) {
        IntakeAction::Fail(ARPAError::CantFind(m)) => {
            assert_eq!(m, "Pulsar with name 'J0437-4715', and we're not set to auto-add.")
        }
        other => panic!("unexpected {other:?}"),
    }
}

#[test]
fn known_pulsar_is_only_checksummed_when_not_archiving() {
    let c = config(false, false);
    let mut intake = RawMeta::prepare_raw_meta(c.clone(), "/in/obs.ar");
    intake.step(IntakeEvent::Begin);
    intake.step(IntakeEvent::Exists(true));
    intake.step(IntakeEvent::Output(VAP.into()));
    intake.step(IntakeEvent::Row(telescope_row()));
    intake.step(IntakeEvent::Row(Some((2, vec![]))));
    assert!(matches!(intake.step(IntakeEvent::Row(Some((5, vec![])))), IntakeAction::Checksum(p) if p == "/in/obs.ar"));
    match intake.step(IntakeEvent::Checksum(77)) {
        IntakeAction::Done(raw) => {
            assert_eq!(raw.file_path, "/in/obs.ar");
            assert_eq!(raw.pulsar_id, 5);
            assert_eq!(raw.checksum, 77);
        }
        other => panic!("unexpected {other:?}"),
    }
}

#[test]
fn missing_file_or_observing_system_fails() {
    let c = config(true, true);
    let mut intake = RawMeta::prepare_raw_meta(c.clone(), "/in/none.ar");
    intake.step(IntakeEvent::Begin);
    assert!(matches!(intake.step(IntakeEvent::Exists(false)), IntakeAction::Fail(ARPAError::MissingFileOrDirectory(p)) if p == "/in/none.ar"));
    let mut intake = RawMeta::prepare_raw_meta(c.clone(), "/in/obs.ar");
    intake.step(IntakeEvent::Begin);
    intake.step(IntakeEvent::Exists(true));
    intake.step(IntakeEvent::Output(VAP.into()));
    assert!(matches!(intake.step(IntakeEvent::Row(None)), IntakeAction::Fail(ARPAError::CantFind(m)) if m == "Telescope with name or abbreviation 'parkes'"));
    let mut intake = RawMeta::prepare_raw_meta(c.clone(), "/in/obs.ar");
    intake.step(IntakeEvent::Begin);
    intake.step(IntakeEvent::Exists(true));
    intake.step(IntakeEvent::Output(VAP.into()));
    intake.step(IntakeEvent::Row(telescope_row()));
    match intake.step(IntakeEvent::Row(None)) {
        IntakeAction::Fail(ARPAError::CantFind(m)) => {
            assert_eq!(m, "Obssystem in registry... \n(Telescope: Parkes, frontend: MULTI, backend: PDFB4).")
        }
        other => panic!("unexpected {other:?}"),
    }
}
