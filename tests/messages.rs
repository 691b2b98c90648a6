use argos_arpa::pipeline::Status;
use argos_arpa::value::Value;
use argos_arpa::{ARPAError, ArchivistError, Table};

#[test]
fn status_messages() {
    assert_eq!(Status::Idle.message(), "Idling...");
    assert_eq!(Status::GotTOAs(3).message(), "Got 3 TOA(s)!");
    assert_eq!(Status::Diagnosing(2).message(), "Running 2 diagnostic(s)...");
    assert_eq!(Status::Copying("a".into(), "b".into()).message(), "Copying from a to b");
    assert_eq!(
        Status::FinishedDiagnostic { diagnostic: "snr".into(), passed: false }.message(),
        "Finished diagnostic snr, but an error ocurred."
    );
    assert_eq!(Status::ArchivedTOAPlots(None).message(), "Failed to archive plot(s) from psrchive::pat.");
    assert_eq!(Status::Finished(125_000_000).message(), "Finished in 2 m 5 s!");
    let s = Status::Starting {
        raw: ("/r.ar".into(), 3),
        pulsar: ("J0437-4715".into(), -1),
        ephemeride: None,
        template: 5,
    };
    assert_eq!(
        s.message(),
        "Cooking with the following:\n * Raw file:   /r.ar\n               id = 3\n * Pulsar:     J0437-4715 \n               id = -1\n * Ephemeride: (None)\n\n * Template:   id = 5\n"
    );
}

#[test]
fn error_messages() {
    assert_eq!(
        ArchivistError::MissingID(Table::Users, 4).message(),
        "There is no entry with id 4 in table \"users\"."
    );
    assert_eq!(
        ArchivistError::EntryAlreadyExists(vec![Value::Text("a".into()), Value::Null, Value::Int(-3)], Table::PulsarMetas, 7).message(),
        "('a', NULL, -3) conflicts with preexisting entry (id = 7) in pulsar_meta"
    );
    assert_eq!(
        ARPAError::FileCopy(1, 2, 1234, 1_000_000).message(),
        "Copying file failed! \n\tchecksum: 1 -> 2\n\tsize: 1,234 -> 1,000,000"
    );
    assert_eq!(ARPAError::StringConversion(vec![1, 255]).message(), "Failed to parse string from bytes: [1, 255]");
    assert_eq!(ARPAError::VapKeyCount(21, 3).message(), "Psrchive::vap was asked for 21 values but returned 3.");
    assert_eq!(
        ARPAError::ToolFailure("pam".into(), Some(2), b"out".to_vec(), vec![0xff]).message(),
        "Tool \"pam\" failed(code: 2)\n-- stdout:\nout\n-- stderr:\n\u{fffd}"
    );
    assert_eq!(
        ARPAError::ArchivistError(ArchivistError::TransactionAlreadyLive).message(),
        "Archivist failed action.\nArchivist was asked to start a transaction, but one is already live."
    );
    let io = ARPAError::IOFault(std::io::Error::new(std::io::ErrorKind::Other, "disk"));
    assert_eq!(io.message(), "[std::io] disk");
}
