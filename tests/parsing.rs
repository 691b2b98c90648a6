use argos_arpa::conveniences::{comma_separate, display_elapsed_time, is_float_text, parse};
use argos_arpa::data_types::header::get_items;
use argos_arpa::data_types::{PulsarMeta, RawFileHeader, User};
use argos_arpa::config::{Behaviour, Config, Database, Paths};
use argos_arpa::external_tools::{command_line, lines, manipulate_pam, tool_path};
use argos_arpa::text::split_whitespace;
use argos_arpa::pipeline::{parse_input_raw, InputRef};
use argos_arpa::ARPAError;

#[test]
fn comma_separated_triples() {
    assert_eq!(comma_separate(123), "123");
    assert_eq!(comma_separate(1234), "1,234");
    assert_eq!(comma_separate(12345), "12,345");
    assert_eq!(comma_separate(123456), "123,456");
    assert_eq!(comma_separate(1000001), "1,000,001");
    assert_eq!(comma_separate(0), "0");
}

#[test]
fn elapsed_times() {
    assert_eq!(display_elapsed_time(999), "999 μs");
    assert_eq!(display_elapsed_time(1500), "1 ms");
    assert_eq!(display_elapsed_time(2_500_000), "2 s");
    assert_eq!(display_elapsed_time(125_000_000), "2 m 5 s");
}

#[test]
fn integers_from_text() {
    assert_eq!(parse::<u32>("42").unwrap(), 42);
    assert_eq!(parse::<u32>("+42").unwrap(), 42);
    assert!(matches!(parse::<u32>("-1"), Err(ARPAError::ParseFailed(t, "u32")) if t == "-1"));
    assert!(matches!(parse::<u8>("256"), Err(ARPAError::ParseFailed(_, "u8"))));
    assert_eq!(parse::<u8>("255").unwrap(), 255);
    assert_eq!(parse::<i16>("-32768").unwrap(), -32768);
    assert!(parse::<i16>("32768").is_err());
    assert!(parse::<i32>("").is_err());
    assert!(parse::<i32>("+").is_err());
    assert!(parse::<i32>("1 2").is_err());
    assert_eq!(parse::<i32>("0000012").unwrap(), 12);
}

#[test]
fn float_texts() {
    for ok in ["1.5", "1e5", ".5", "5.", "-2.5E-3", "inf", "NaN", "-Infinity", "+0"] {
        assert!(is_float_text(ok), "{ok}");
        assert!(ok.parse::<f32>().is_ok(), "{ok}");
    }
    for bad in ["", ".", "1e", "e5", "1.2.3", "abc", " 1", "1 ", "--1", "1e+"] {
        assert!(!is_float_text(bad), "{bad}");
        assert!(bad.parse::<f32>().is_err(), "{bad}");
    }
}

#[test]
fn pulsar_from_fields() {
    let pm = PulsarMeta::from_strs(&["alias", ".", "b9000+01"]).unwrap();
    assert_eq!(pm.alias, "alias");
    assert_eq!(pm.j_name, None);
    assert_eq!(pm.b_name, Some("b9000+01".into()));
    assert!(matches!(PulsarMeta::from_strs(&[]), Err(ARPAError::MalformedInput(m)) if m == "pulsar line is empty"));
    match PulsarMeta::from_strs(&["bad alias!"]) {
        Err(ARPAError::MalformedInput(m)) => assert_eq!(m, "\"bad alias!\" is not a valid pulsar alias"),
        other => panic!("unexpected {other:?}"),
    }
    match PulsarMeta::from_strs(&["J0437-4715", "J_0437"]) {
        Err(ARPAError::MalformedInput(m)) => assert_eq!(m, "\"J_0437\" is not a valid pulsar J name"),
        other => panic!("unexpected {other:?}"),
    }
    assert!(matches!(PulsarMeta::from_strs(&["J0437-4715", ".", ".", "25:00:00"]), Err(ARPAError::PSRUtils(_))));
    assert!(matches!(PulsarMeta::from_strs(&["J0437-4715", ".", ".", ".", "-95:00:00"]), Err(ARPAError::PSRUtils(_))));
}

#[test]
fn names_repeating_the_alias_are_dropped() {
    let pm = PulsarMeta::from_strs(&["J0437-4715", "J0437-4715", "J0437-4715"]).unwrap();
    assert_eq!(pm.j_name, None);
    assert_eq!(pm.b_name, None);
    let pm: PulsarMeta = "J0437-4715  J0437-4715\tB0433-47 04:37:15.8 -47:15:09.1".parse().unwrap();
    assert_eq!(pm.b_name.as_deref(), Some("B0433-47"));
    assert_eq!(pm.j2000_dec.as_deref(), Some("-47:15:09.1"));
    assert!(PulsarMeta::parse_line("   ").is_err());
}

#[test]
fn pulsar_name_rules() {
    assert!(PulsarMeta::validate_name("J0437-4715"));
    assert!(PulsarMeta::validate_name("abcdefghijklmnopqrst"));
    assert!(!PulsarMeta::validate_name("abcdefghijklmnopqrstu"));
    assert!(!PulsarMeta::validate_name(""));
    assert!(PulsarMeta::validate_name("é"));
    assert!(!PulsarMeta::validate_name("éééééééééééé"));
}

#[test]
fn user_rules() {
    let u = User::new("Alice", "Alice Liddell", "alice@example.org", true, 5).unwrap();
    assert_eq!(u.username, "alice");
    assert!(u.is_admin);
    assert_eq!(u.created_at, 5);
    match User::new("al", "Alice", "a@b.c", false, 0) {
        Err(ARPAError::MalformedInput(m)) => assert_eq!(m, "'al'; username must be 3--12 characters long."),
        other => panic!("unexpected {other:?}"),
    }
    match User::new("al ce", "Alice", "a@b.c", false, 0) {
        Err(ARPAError::MalformedInput(m)) => assert_eq!(m, "'al ce'; username cannot contain whitespace."),
        other => panic!("unexpected {other:?}"),
    }
    match User::new("alïce", "Alice", "a@b.c", false, 0) {
        Err(ARPAError::MalformedInput(m)) => assert_eq!(m, "'alïce'; username must be only ASCII."),
        other => panic!("unexpected {other:?}"),
    }
    match User::new("alice", "Al", "a@b.c", false, 0) {
        Err(ARPAError::MalformedInput(m)) => assert_eq!(m, "'Al'; name must be at over 2 characters long."),
        other => panic!("unexpected {other:?}"),
    }
    match User::new("alice", "Alice", "alice.example.org", false, 0) {
        Err(ARPAError::MalformedInput(m)) => assert_eq!(m, "'alice.example.org'; Email addresses need an @"),
        other => panic!("unexpected {other:?}"),
    }
    match User::new("alice", "Alice", "a.b@example", false, 0) {
        Err(ARPAError::MalformedInput(m)) => assert_eq!(m, "'a.b@example'; Email addresses need a domain"),
        other => panic!("unexpected {other:?}"),
    }
}

const VAP: &str = "obs.ar 1024 4 1 8 Pulsar Parkes J0437-4715 -47:15:09.1 04:37:15.8 1400.0 256.0 2.64 0.0 FluxDen Intensity 3600.0 MULTI Lin PDFB4 55000.5";

fn config() -> Config {
    Config {
        database: Database { url: String::new(), pool_connections: 1, connection_timeout: 1 },
        behaviour: Behaviour {
            archive_rawfiles: true,
            move_rawfiles: false,
            auto_add_pulsars: false,
            auto_resolve_duplicate_uploads: false,
            toa_fitting: "FDM".into(),
            diagnostics: vec![],
            checksum_block_size: 16,
        },
        paths: Paths { psrchive: "/opt/psrchive/bin".into(), rawfile_storage: "/data/raw".into(), temp_dir: "/tmp".into(), diagnostics_dir: "/diag".into() },
    }
}

#[test]
fn header_from_tool_output() {
    let h = RawFileHeader::get("/in/dir/obs.ar", VAP).unwrap();
    assert_eq!(h.filename, "obs.ar");
    assert_eq!(h.bin_count, 1024);
    assert_eq!(h.channel_count, 4);
    assert_eq!(h.polarization_count, 1);
    assert_eq!(h.sub_count, 8);
    assert_eq!(h.telescope, "Parkes");
    assert_eq!(h.psr_name, "J0437-4715");
    assert_eq!(h.dec, "-47:15:09.1");
    assert_eq!(h.ra, "04:37:15.8");
    assert_eq!(h.frequency, "1400.0");
    assert_eq!(h.length, "3600.0");
    assert_eq!(h.backend, "PDFB4");
    assert_eq!(h.date, "55000.5");
    assert_eq!(h.get_intended_directory(&config()), "/data/raw/J0437-4715/parkes/multi/pdfb4");
    assert_eq!(RawFileHeader::get("obs.ar", VAP).unwrap().filename, "obs.ar");
}

#[test]
fn header_errors() {
    assert!(matches!(get_items("a b c", 5), Err(ARPAError::VapKeyCount(6, 3))));
    let bad_bins = VAP.replace(" 1024 ", " many ");
    assert!(matches!(RawFileHeader::get("obs.ar", &bad_bins), Err(ARPAError::ParseFailed(t, "u32")) if t == "many"));
    let bad_freq = VAP.replace(" 1400.0 ", " fast ");
    assert!(matches!(RawFileHeader::get("obs.ar", &bad_freq), Err(ARPAError::ParseFailed(t, "f32")) if t == "fast"));
    let bad_ra = VAP.replace("04:37:15.8", "31:00:00");
    assert!(matches!(RawFileHeader::get("obs.ar", &bad_ra), Err(ARPAError::PSRUtils(_))));
}

#[test]
fn tool_command_lines() {
    let mut c = config();
    assert_eq!(tool_path(&c, "pam"), "/opt/psrchive/bin/pam");
    let args = manipulate_pam("/tmp/working.ar", 1, 4, None, None);
    assert_eq!(args, vec!["-m", "-p", "--setnchn", "4", "--setnsub", "1", "/tmp/working.ar"]);
    let args = manipulate_pam("/w.ar", 1, 16, Some(512), Some(30));
    assert_eq!(args, vec!["-m", "-p", "--setnchn", "16", "--settsub", "30", "--setnbin", "512", "/w.ar"]);
    c.paths.psrchive = String::new();
    assert_eq!(command_line(&c, "vap", &vec!["-n".to_string(), "x.ar".to_string()]), "vap -n x.ar");
}

#[test]
fn inputs_are_ids_or_paths() {
    assert!(matches!(parse_input_raw("42"), InputRef::Id(42)));
    assert!(matches!(parse_input_raw("/data/obs.ar"), InputRef::Path(p) if p == "/data/obs.ar"));
}

#[test]
fn words_and_lines_match_std() {
    for t in ["", "  a  b\tc\n", "x", "a\u{3000}b", "  ", "J0437-4715 . b9000+01"] {
        assert_eq!(split_whitespace(t), t.split_whitespace().collect::<Vec<_>>(), "{t:?}");
    }
    for t in ["", "a\nb", "a\r\nb\r\n", "a\n\nb\n", "a\r", "\n", "a\rb\n", "FORMAT 1\nx y z\n"] {
        assert_eq!(lines(t), t.lines().map(String::from).collect::<Vec<_>>(), "{t:?}");
    }
}

#[test]
fn whitespace_matches_std() {
    for c in ['\t', '\n', '\u{b}', '\u{c}', '\r', ' ', '\u{85}', '\u{a0}', '\u{1680}', '\u{2000}', '\u{200a}', '\u{2028}', '\u{2029}', '\u{202f}', '\u{205f}', '\u{3000}', 'a', '\u{200b}', '\u{8}', '\u{e}', '_'] {
        assert_eq!(argos_arpa::text::is_whitespace(c), c.is_whitespace(), "{c:?}");
    }
}
