use argos_arpa::Table;

#[test]
fn table_names() {
    assert_eq!(Table::Users.name(), "users");
    assert_eq!(Table::PulsarMetas.name(), "pulsar_meta");
    assert_eq!(Table::ParMetas.name(), "par_meta");
    assert_eq!(Table::RawMetas.name(), "raw_meta");
    assert_eq!(Table::TemplateMetas.name(), "template_meta");
    assert_eq!(Table::Toas.name(), "toas");
    assert_eq!(Table::Telescopes.name(), "telescopes");
    assert_eq!(Table::ObsSystems.name(), "obs_systems");
    assert_eq!(Table::ProcessMetas.name(), "process_meta");
    assert_eq!(Table::DiagnosticFloats.name(), "diag_floats");
    assert_eq!(Table::DiagnosticPlots.name(), "diag_plots");
}
