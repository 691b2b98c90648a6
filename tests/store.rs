use argos_arpa::archivist::Statement;
use argos_arpa::data_types::{
    DiagnosticFloat, DiagnosticPlot, ObsSystem, ParMeta, ProcessInfo, PulsarMeta, RawMeta, TOAInfo,
    TelescopeId, TemplateMeta, User,
};
use argos_arpa::table::unique_filter;
use argos_arpa::value::Value;
use argos_arpa::{ArchivistError, Archivist, TableItem, Table};
use argos_arpa::config::{Behaviour, Config, Database, Paths};

fn config() -> Config {
    Config {
        database: Database { url: "postgres://localhost/arpa".to_string(), pool_connections: 4, connection_timeout: 4000 },
        behaviour: Behaviour {
            archive_rawfiles: true,
            move_rawfiles: false,
            auto_add_pulsars: true,
            auto_resolve_duplicate_uploads: true,
            toa_fitting: "FDM".to_string(),
            diagnostics: vec![],
            checksum_block_size: 2 * 1024 * 1024,
        },
        paths: Paths {
            psrchive: String::new(),
            rawfile_storage: "/data/raw".to_string(),
            temp_dir: "/tmp/arpa".to_string(),
            diagnostics_dir: "/data/diag".to_string(),
        },
    }
}

fn pulsar(alias: &str, j_name: Option<&str>) -> PulsarMeta {
    let mut p = PulsarMeta::null();
    p.alias = alias.to_string();
    p.j_name = j_name.map(|s| s.to_string());
    p
}

fn text(v: &Value) -> Option<&str> {
    match v {
        Value::Text(s) => Some(s.as_str()),
        _ => None,
    }
}

#[test]
fn second_start_fails_while_live() {
    let mut a = Archivist::new(config());
    assert!(a.start_transaction().is_ok());
    assert!(a.is_live());
    assert!(matches!(a.start_transaction(), Err(ArchivistError::TransactionAlreadyLive)));
    assert!(a.is_live());
}

#[test]
fn commit_and_rollback_need_a_live_transaction() {
    let mut a = Archivist::new(config());
    assert!(matches!(a.commit_transaction(), Err(ArchivistError::NoTransactionToCommit)));
    assert!(matches!(a.rollback_transaction(), Err(ArchivistError::NoTransactionToRollback)));
    a.start_transaction().unwrap();
    assert!(a.commit_transaction().is_ok());
    assert!(!a.is_live());
    a.start_transaction().unwrap();
    assert!(a.rollback_transaction().is_ok());
    assert!(!a.is_live());
}

#[test]
fn abandoned_transaction_allows_a_fresh_start() {
    let mut a = Archivist::new(config());
    a.start_transaction().unwrap();
    let s = a.insert(&pulsar("J0437-4715", None), None).unwrap();
    assert!(s.is_write());
    a.abandon_transaction();
    assert!(!a.is_live());
    assert!(a.start_transaction().is_ok());
}

#[test]
fn insert_starts_a_transaction_implicitly() {
    let mut a = Archivist::new(config());
    assert!(!a.is_live());
    let s = a.insert(&pulsar("J0437-4715", None), None).unwrap();
    assert!(a.is_live());
    match s {
        Statement::Insert { table, columns, values } => {
            assert_eq!(table, Table::PulsarMetas);
            assert_eq!(columns, vec!["alias", "j_name", "b_name", "j2000_ra", "j2000_dec", "master_parfile_id"]);
            assert_eq!(text(&values[0]), Some("J0437-4715"));
            assert!(matches!(values[1], Value::Null));
        }
        other => panic!("unexpected {other:?}"),
    }
}

#[test]
fn collision_reports_the_existing_id() {
    let mut a = Archivist::new(config());
    let first = ParMeta::new("/data/a.par".to_string(), 3, 0xabc);
    let second = ParMeta::new("/data/b.par".to_string(), 4, 0xabc);
    let query = Archivist::unique_query(&second).expect("par files have unique columns");
    assert!(matches!(query, Statement::FindId { table: Table::ParMetas, .. }));
    // The store finds the first file's row, with identity 7, for the query.
    match a.insert(&second, Some(7)) {
        Err(ArchivistError::EntryAlreadyExists(values, table, id)) => {
            assert_eq!(id, 7);
            assert_eq!(table, Table::ParMetas);
            assert!(matches!(values[1], Value::Checksum(0xabc)));
        }
        other => panic!("unexpected {other:?}"),
    }
    assert!(!a.is_live());
    assert!(a.insert(&first, None).is_ok());
}

#[test]
fn unique_filter_is_an_or_over_unique_columns() {
    let p = pulsar("alias1", Some("J1234+5678"));
    let f = unique_filter(&p);
    assert!(f.any);
    assert_eq!(f.terms.len(), 2);
    assert_eq!(f.terms[0].column, "alias");
    assert_eq!(text(&f.terms[0].value), Some("alias1"));
    assert_eq!(f.terms[1].column, "j_name");
    assert_eq!(text(&f.terms[1].value), Some("J1234+5678"));
    let t = TemplateMeta::new("/t.std".to_string(), 1, 5);
    let f = unique_filter(&t);
    assert_eq!(f.terms.iter().map(|t| t.column).collect::<Vec<_>>(), vec!["file_path", "checksum"]);
}

#[test]
fn entities_without_unique_columns_never_collide() {
    let d = DiagnosticPlot { id: 0, process: 1, diagnostic: "composite".to_string(), filepath: "/p.png".to_string() };
    assert!(Archivist::unique_query(&d).is_none());
    assert!(Archivist::assert_unique(&d, None).is_ok());
}

#[test]
fn missing_id_is_reported() {
    assert!(matches!(Archivist::assert_id(Table::Users, 9, false), Err(ArchivistError::MissingID(Table::Users, 9))));
    assert!(Archivist::assert_id(Table::Users, 9, true).is_ok());
    assert!(matches!(Archivist::get::<ParMeta>(5, false), Err(ArchivistError::MissingID(Table::ParMetas, 5))));
    match Archivist::get::<ParMeta>(5, true).unwrap() {
        Statement::Select { table, columns, filter: Some(f), limit_one } => {
            assert_eq!(table, Table::ParMetas);
            assert_eq!(columns, vec!["id", "pulsar_id", "checksum", "file_path"]);
            assert!(limit_one);
            assert!(!f.any);
            assert_eq!(f.terms[0].column, "id");
            assert!(matches!(f.terms[0].value, Value::Int(5)));
        }
        other => panic!("unexpected {other:?}"),
    }
}

#[test]
fn delete_of_missing_id_is_a_no_op() {
    let mut a = Archivist::new(config());
    assert!(a.delete::<User>(3, false).is_none());
    assert!(!a.is_live());
    assert!(matches!(a.delete::<User>(3, true), Some(Statement::Delete { table: Table::Users, id: 3 })));
    assert!(a.is_live());
}

#[test]
fn update_from_cache_assigns_every_column() {
    let mut a = Archivist::new(config());
    let raw = RawMeta::new("/raw/x.ar".to_string(), 77, 2, 3);
    assert!(matches!(a.update_from_cache(&raw, 4, false), Err(ArchivistError::MissingID(Table::RawMetas, 4))));
    match a.update_from_cache(&raw, 4, true).unwrap() {
        Statement::Update { table, id, assignments } => {
            assert_eq!(table, Table::RawMetas);
            assert_eq!(id, 4);
            let cols: Vec<_> = assignments.iter().map(|t| t.column).collect();
            assert_eq!(cols, vec!["file_path", "checksum", "pulsar_id", "observer_id"]);
            assert!(matches!(assignments[1].value, Value::Checksum(77)));
        }
        other => panic!("unexpected {other:?}"),
    }
}

fn round_trip<T: TableItem + std::fmt::Debug>(item: &T, id: i32) -> T {
    let row = item.insert_values();
    assert_eq!(row.len(), T::insert_columns().len());
    let back = Archivist::decode::<T>(id, &row).expect("a row of an entity decodes");
    assert_eq!(back.id(), id);
    assert_eq!(format!("{:?}", back.insert_values()), format!("{:?}", row));
    back
}

#[test]
fn insert_then_get_round_trips_every_entity() {
    let mut p = PulsarMeta::from_strs(&["J0437-4715", ".", "B0433-47", "04:37:15.8", "-47:15:09.1"]).unwrap();
    p.master_parfile_id = Some(4);
    let back = round_trip(&p, 12);
    assert_eq!(back.alias, "J0437-4715");
    assert_eq!(back.b_name.as_deref(), Some("B0433-47"));
    assert_eq!(back.master_parfile_id, Some(4));
    let par = round_trip(&ParMeta::new("/p.par".to_string(), 1, u128::MAX), 1);
    assert_eq!(par.checksum, u128::MAX);
    round_trip(&TemplateMeta::new("/t.std".to_string(), 1, 9), 2);
    round_trip(&RawMeta::new("/r.ar".to_string(), 9, 1, 2), 3);
    let raw = RawMeta { id: 3, ..RawMeta::new("/r.ar".to_string(), 9, 1, 2) };
    let tmpl = TemplateMeta { id: 5, ..TemplateMeta::new("/t.std".to_string(), 1, 9) };
    let process = ProcessInfo::new(0, &raw, None, &tmpl, 4, 1, "FDM");
    let back = round_trip(&process, 6);
    assert_eq!(back.par_id, None);
    assert_eq!(back.n_channels, 4);
    let m = argos_arpa::data_types::Measurement { toa_int: 55000, toa_frac: 0.25f64.to_bits(), toa_err: 1.5f32.to_bits(), frequency: 1400.0f32.to_bits() };
    let toa = TOAInfo::extract(&m, 1, 2, 6, 5, 3);
    let back = round_trip(&toa, 8);
    assert_eq!(f64::from_bits(back.toa_frac), 0.25);
    round_trip(&DiagnosticFloat { id: 0, process: 6, diagnostic: "snr".to_string(), result: 12.5f32.to_bits() }, 9);
    round_trip(&DiagnosticPlot { id: 0, process: 6, diagnostic: "composite".to_string(), filepath: "/c.png".to_string() }, 10);
    round_trip(&User::new("Alice", "Alice Liddell", "alice@example.org", false, 1_700_000_000_000_000_000).unwrap(), 11);
    let telescope = vec![Value::Text("parkes".into()), Value::Text("pks".into()), Value::Text("7".into())];
    let t = Archivist::decode::<TelescopeId>(1, &telescope).unwrap();
    assert_eq!(t.name, "parkes");
    let obs = vec![
        Value::Text("pks_pdfb4".into()),
        Value::Int(1),
        Value::Text("multi".into()),
        Value::Text("pdfb4".into()),
        Value::Text("pks2gps".into()),
        Value::Text("PKS".into()),
    ];
    let o = Archivist::decode::<ObsSystem>(2, &obs).unwrap();
    assert_eq!(o.telescope_id, 1);
}

#[test]
fn malformed_rows_are_refused() {
    let row = vec![Value::Text("x".into())];
    assert!(matches!(Archivist::decode::<ParMeta>(3, &row), Err(ArchivistError::MalformedRow(Table::ParMetas, 3))));
    let row = vec![Value::Int(1 << 40), Value::Checksum(1), Value::Text("p".into())];
    assert!(Archivist::decode::<ParMeta>(3, &row).is_err());
}

#[test]
fn persisted_rows_never_collide_on_a_unique_field() {
    // A table of par files, kept by taking each insert through the session.
    let mut a = Archivist::new(config());
    let mut rows: Vec<ParMeta> = Vec::new();
    let candidates = vec![
        ParMeta::new("/a.par".into(), 1, 1),
        ParMeta::new("/b.par".into(), 1, 2),
        ParMeta::new("/a.par".into(), 2, 3),
        ParMeta::new("/c.par".into(), 2, 2),
        ParMeta::new("/d.par".into(), 3, 4),
    ];
    for c in candidates {
        let found = rows.iter().position(|r| r.file_path == c.file_path || r.checksum == c.checksum).map(|i| i as i32 + 1);
        match a.insert(&c, found) {
            Ok(_) => rows.push(ParMeta { id: rows.len() as i32 + 1, ..c }),
            Err(ArchivistError::EntryAlreadyExists(_, _, id)) => assert!(found == Some(id)),
            Err(e) => panic!("unexpected {e:?}"),
        }
    }
    assert_eq!(rows.len(), 3);
    for i in 0..rows.len() {
        for j in 0..rows.len() {
            if i != j {
                assert_ne!(rows[i].file_path, rows[j].file_path);
                assert_ne!(rows[i].checksum, rows[j].checksum);
            }
        }
    }
}

#[test]
fn obs_system_lookup() {
    match ObsSystem::telescope_query("Parkes") {
        Statement::Select { table, filter: Some(f), .. } => {
            assert_eq!(table, Table::Telescopes);
            assert!(f.any);
            assert_eq!(text(&f.terms[0].value), Some("parkes"));
            assert_eq!(f.terms[1].column, "abbreviation");
        }
        other => panic!("unexpected {other:?}"),
    }
    match ObsSystem::find(None, "Nowhere", "a", "b") {
        Err(argos_arpa::ARPAError::CantFind(m)) => assert_eq!(m, "Telescope with name or abbreviation 'Nowhere'"),
        other => panic!("unexpected {other:?}"),
    }
    let t = Archivist::decode::<TelescopeId>(
        4,
        &vec![Value::Text("parkes".into()), Value::Text("pks".into()), Value::Text("7".into())],
    )
    .unwrap();
    match ObsSystem::find(Some(t), "parkes", "MULTI", "PDFB4").unwrap() {
        Statement::Select { table, filter: Some(f), .. } => {
            assert_eq!(table, Table::ObsSystems);
            assert!(!f.any);
            assert!(matches!(f.terms[0].value, Value::Int(4)));
            assert_eq!(text(&f.terms[1].value), Some("multi"));
            assert_eq!(text(&f.terms[2].value), Some("pdfb4"));
        }
        other => panic!("unexpected {other:?}"),
    }
}
