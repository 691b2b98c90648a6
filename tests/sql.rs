use argos_arpa::archivist::Statement;
use argos_arpa::config::{Behaviour, Config, Database, Paths};
use argos_arpa::data_types::{ParMeta, PulsarMeta};
use argos_arpa::value::{Predicate, Term, Value};
use argos_arpa::{Archivist, Table};

#[test]
fn statements_as_sql() {
    let (sql, params) = Archivist::id_exists(Table::Users, 4).to_sql();
    assert_eq!(sql, "select exists (select 1 from users where id=$1);");
    assert!(matches!(params[..], [Value::Int(4)]));

    let mut p = PulsarMeta::null();
    p.alias = "a".into();
    let (sql, params) = Archivist::unique_query(&p).unwrap().to_sql();
    assert_eq!(sql, "select id from pulsar_meta where alias=$1 or j_name=$2;");
    assert_eq!(params.len(), 2);

    let mut a = Archivist::new(argos_config());
    let (sql, params) = a.insert(&ParMeta::new("/p".into(), 1, 2), None).unwrap().to_sql();
    assert_eq!(sql, "insert into par_meta(pulsar_id, checksum, file_path) values ($1, $2, $3) returning id;");
    assert_eq!(params.len(), 3);

    let (sql, _) = Archivist::get_all::<ParMeta>().to_sql();
    assert_eq!(sql, "select id, pulsar_id, checksum, file_path from par_meta;");

    let filter = Predicate { terms: vec![Term { column: "checksum", value: Value::Checksum(9) }], any: false };
    let (sql, params) = Archivist::find::<ParMeta>(filter).to_sql();
    assert_eq!(sql, "select id, pulsar_id, checksum, file_path from par_meta where checksum=$1 limit 1;");
    assert!(matches!(params[..], [Value::Checksum(9)]));

    let (sql, params) = a
        .update(Table::Users, 3, true, vec![Term { column: "is_admin", value: Value::Bool(true) }])
        .unwrap()
        .to_sql();
    assert_eq!(sql, "update users set is_admin=$1 where id=$2;");
    assert!(matches!(params[..], [Value::Bool(true), Value::Int(3)]));

    let (sql, _) = Statement::Delete { table: Table::Toas, id: 1 }.to_sql();
    assert_eq!(sql, "delete from toas where id=$1;");

    let empty = Predicate { terms: vec![], any: true };
    let (sql, _) = Statement::FindId { table: Table::Users, filter: empty }.to_sql();
    assert_eq!(sql, "select id from users where false;");
}

fn argos_config() -> Config {
    Config {
        database: Database { url: String::new(), pool_connections: 1, connection_timeout: 1 },
        behaviour: Behaviour {
            archive_rawfiles: false,
            move_rawfiles: false,
            auto_add_pulsars: false,
            auto_resolve_duplicate_uploads: false,
            toa_fitting: String::new(),
            diagnostics: vec![],
            checksum_block_size: 1,
        },
        paths: Paths { psrchive: String::new(), rawfile_storage: String::new(), temp_dir: String::new(), diagnostics_dir: String::new() },
    }
}
