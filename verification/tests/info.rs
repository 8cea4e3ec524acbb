use esp_csi_cli::info::features_line;

#[test]
fn features_are_joined_with_commas_in_report_order() {
    assert_eq!(
        features_line(&[true, false, true, true, true, false, false]),
        "statistics,println,async-print,auto"
    );
    assert_eq!(features_line(&[false, false, false, false, false, false, true]), "uart");
    assert_eq!(
        features_line(&[true, true, true, true, true, true, true]),
        "statistics,defmt,println,async-print,auto,jtag-serial,uart"
    );
}

#[test]
fn no_feature_gives_an_empty_list() {
    assert_eq!(features_line(&[false; 7]), "");
}
